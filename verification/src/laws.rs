//! What holds of every graph of items that is built from a well-formed graph
//! of declarations.

use vstd::prelude::*;
use crate::decl::DeclGraph;
use crate::decl::DeclKind;
use crate::decl::NativeType;
use crate::decl::TypeShape;
use crate::ident::item_id;
use crate::assemble::is_built_from;
use crate::assemble::StructuralError;
use crate::ir::IR;
use crate::ir::ItemModel;
use crate::ir::MappedTypeModel;
use crate::ir::RecordModel;
use crate::types::supported_at;

verus! {

/// Whether no field of the record reaches beyond the object, and the fields
/// of a struct or class do not overlap.
pub open spec fn record_layout_sound(r: RecordModel) -> bool {
    &&& forall|j: int|
        0 <= j < r.fields.len() ==> (#[trigger] r.fields[j]).offset < r.size * 8 && r.fields[j].offset
            + r.fields[j].size <= r.size * 8
    &&& !r.is_union ==> forall|a: int, b: int|
        0 <= a < b < r.fields.len() ==> (#[trigger] r.fields[a]).offset + r.fields[a].size <= (
        #[trigger] r.fields[b]).offset
}

impl DeclGraph {
    /// The identity of an item is never zero, and different declarations
    /// have different identities.
    pub proof fn law_item_ids(&self, a: int, b: int)
        requires
            self.well_formed(),
            0 <= a < self.len(),
            0 <= b < self.len(),
        ensures
            item_id(a).0 != 0,
            a != b ==> item_id(a) != item_id(b),
    {
    }

    /// The items of the first `k` declarations carry identities that grow
    /// along the list and belong to declarations among the first `k`.
    pub proof fn lemma_items_ordered(&self, s: Seq<bool>, k: int)
        requires
            self.well_formed(),
            0 <= k <= self.len(),
        ensures
            forall|j: int|
                0 <= j < self.items_before(s, k).len() ==> 0 < (#[trigger] self.items_before(
                    s,
                    k,
                )[j]).id().0 <= k,
            forall|x: int, y: int|
                0 <= x < y < self.items_before(s, k).len() ==> (#[trigger] self.items_before(
                    s,
                    k,
                )[x]).id().0 < (#[trigger] self.items_before(s, k)[y]).id().0,
        decreases k,
    {
        if k > 0 {
            self.lemma_items_ordered(s, k - 1);
            let before = self.items_before(s, k - 1);
            let all = self.items_before(s, k);
            if self.emits(s, k - 1) {
                self.lemma_item_id(s, k - 1);
                assert(all == before.push(self.item(s, k - 1)));
                assert(item_id(k - 1).0 == k);
                assert forall|j: int| 0 <= j < all.len() implies 0 < (#[trigger] all[j]).id().0
                    <= k by {
                    if j < before.len() {
                        assert(all[j] == before[j]);
                    }
                }
                assert forall|x: int, y: int| 0 <= x < y < all.len() implies (#[trigger] all[x]).id().0
                    < (#[trigger] all[y]).id().0 by {
                    assert(all[x] == before[x]);
                    if y < before.len() {
                        assert(all[y] == before[y]);
                    }
                }
            } else {
                assert(all == before);
            }
        }
    }

    /// The item of a declaration that has one stands among the items.
    pub proof fn lemma_item_listed(&self, s: Seq<bool>, a: int, k: int) -> (j: int)
        requires
            0 <= a < k <= self.len(),
            self.emits(s, a),
        ensures
            0 <= j < self.items_before(s, k).len(),
            self.items_before(s, k)[j] == self.item(s, a),
        decreases k,
    {
        if a == k - 1 {
            self.items_before(s, k - 1).len() as int
        } else {
            self.lemma_item_listed(s, a, k - 1)
        }
    }

    /// The graph holds at most one item for a declaration: no two of its
    /// items have the same identity.
    pub proof fn law_one_item_per_declaration(&self, x: int, y: int)
        requires
            self.well_formed(),
            0 <= x < self.ir().items.len(),
            0 <= y < self.ir().items.len(),
            x != y,
        ensures
            self.ir().items[x].id() != self.ir().items[y].id(),
    {
        self.lemma_items_ordered(self.support(), self.len());
    }

    /// Two types that name declarations of the same entity refer to the same
    /// item: the item of the canonical declaration.
    pub proof fn law_references_share_identity(
        &self,
        s: Seq<bool>,
        t1: NativeType,
        t2: NativeType,
        d1: usize,
        d2: usize,
    )
        requires
            self.well_formed(),
            t1.shape == TypeShape::Declared(d1),
            t2.shape == TypeShape::Declared(d2),
            d1 < self.len(),
            d2 < self.len(),
            self.canon(d1 as int) == self.canon(d2 as int),
            self.map_type(s, t1) is Ok,
            self.map_type(s, t2) is Ok,
            self.well_known(d1 as int) is None,
            self.well_known(d2 as int) is None,
        ensures
            self.mapped(s, t1).rs_type.decl_id == Some(item_id(self.canon(d1 as int))),
            self.mapped(s, t1).cc_type.decl_id == Some(item_id(self.canon(d1 as int))),
            self.mapped(s, t1).rs_type.decl_id == self.mapped(s, t2).rs_type.decl_id,
            self.mapped(s, t1).cc_type.decl_id == self.mapped(s, t2).cc_type.decl_id,
    {
    }

    /// A declaration that types can refer to has its item in the graph: no
    /// reference dangles.
    pub proof fn law_referent_is_listed(&self, c: int) -> (j: int)
        requires
            self.well_formed(),
            supported_at(self.support(), c),
        ensures
            0 <= j < self.ir().items.len(),
            self.ir().items[j].id() == item_id(c),
            self.ir().items[j] is Record || self.ir().items[j] is IncompleteRecord || self.ir().items[j] is TypeAlias
                || self.ir().items[j] is Enum,
    {
        let s = self.support();
        self.lemma_support_closed();
        assert(self.bindable_set()[c] == self.bindable(c));
        assert(self.emits(s, c));
        self.lemma_item_id(s, c);
        assert(self.decl_valid(c));
        match self.decls@[c].kind {
            DeclKind::Record(r) => {
                match r.definition {
                    Some(def) => {
                        assert(self.is_record(def as int));
                    },
                    None => {},
                }
            },
            _ => {},
        }
        self.lemma_item_listed(s, c, self.len())
    }

    /// A mapped type is either named or a reference to a declaration, never
    /// both and never neither, and so is every type it is built from.
    pub proof fn law_mapped_type_well_formed(&self, s: Seq<bool>, t: NativeType)
        requires
            self.map_type(s, t) is Ok,
        ensures
            self.mapped(s, t).well_formed(),
        decreases t,
    {
        match t.shape {
            TypeShape::Pointer(p) => {
                self.law_mapped_type_well_formed(s, *p);
                lemma_pointer_well_formed(self.mapped(s, *p), t.lifetime, t.is_const);
            },
            TypeShape::LValueReference(p) => {
                self.law_mapped_type_well_formed(s, *p);
                lemma_reference_well_formed(self.mapped(s, *p), t.lifetime, t.is_const);
            },
            _ => {},
        }
    }

    /// A record or a type alias that stands directly in a record has no
    /// item of its kind: where the walk reaches it in the current target, its
    /// item is an unsupported item named after the record and itself.
    pub proof fn law_nested_in_record(&self, i: int) -> (j: int)
        requires
            self.well_formed(),
            0 <= i < self.len(),
            self.walked(i),
            self.nested_in_record(i),
            self.in_current_target(i),
            self.decls@[i].kind is Record || self.decls@[i].kind is TypeAlias,
        ensures
            0 <= j < self.ir().items.len(),
            self.ir().items[j] matches ItemModel::UnsupportedItem(u) && u.id == item_id(i) && u.name
                == self.qualified_name(self.decls@[i].parent->0 as int) + "::"@ + self.own_name(i)
                && (self.decls@[i].kind is Record ==> u.message
                == "Nested classes are not supported yet"@) && (self.decls@[i].kind is TypeAlias
                ==> u.message == "Typedefs nested in classes are not supported yet"@),
            forall|k: int|
                0 <= k < self.ir().items.len() && k != j ==> (#[trigger] self.ir().items[k]).id()
                    != item_id(i),
    {
        let s = self.support();
        self.lemma_support_closed();
        assert(self.bindable_set()[i] == self.bindable(i));
        assert(!supported_at(s, i));
        assert(self.decl_valid(i));
        assert(self.emits(s, i));
        let j = self.lemma_item_listed(s, i, self.len());
        self.lemma_items_ordered(s, self.len());
        j
    }

    /// What stands in the body of a function has no item at all.
    pub proof fn law_nested_in_function(&self, i: int, j: int)
        requires
            self.well_formed(),
            0 <= i < self.len(),
            self.in_function_body(i),
            0 <= j < self.ir().items.len(),
        ensures
            !self.emits(self.support(), i),
            self.ir().items[j].id() != item_id(i),
    {
        let s = self.support();
        let a = self.lemma_item_source(s, j, self.len());
        self.lemma_item_id(s, a);
    }

    /// Every item of the list is the item of a declaration that has one.
    pub proof fn lemma_item_source(&self, s: Seq<bool>, j: int, k: int) -> (a: int)
        requires
            0 <= k <= self.len(),
            0 <= j < self.items_before(s, k).len(),
        ensures
            0 <= a < k,
            self.emits(s, a),
            self.items_before(s, k)[j] == self.item(s, a),
        decreases k,
    {
        if self.emits(s, k - 1) && j == self.items_before(s, k - 1).len() {
            k - 1
        } else {
            self.lemma_item_source(s, j, k - 1)
        }
    }

    /// A member function that is neither public nor a special member has no
    /// item.
    pub proof fn law_private_member_functions(&self, i: int, j: int)
        requires
            self.well_formed(),
            0 <= i < self.len(),
            self.dropped(i),
            0 <= j < self.ir().items.len(),
        ensures
            !self.emits(self.support(), i),
            self.ir().items[j].id() != item_id(i),
    {
        let s = self.support();
        let a = self.lemma_item_source(s, j, self.len());
        self.lemma_item_id(s, a);
    }

    /// Every field of a record definition, whatever its access, is a field
    /// of the record's item, with the access that it has in the record.
    pub proof fn law_fields_keep_access(&self, s: Seq<bool>, def: int, k: int, upto: int) -> (j:
        int)
        requires
            0 <= k < upto <= self.len(),
            self.is_field_of(k, def),
        ensures
            0 <= j < self.fields_before(s, def, upto).len(),
            self.fields_before(s, def, upto)[j] == self.field_item(s, k, self.field_at(k)),
            self.fields_before(s, def, upto)[j].access == self.resolved_access(k),
        decreases upto,
    {
        if k == upto - 1 {
            self.fields_before(s, def, upto - 1).len() as int
        } else {
            self.law_fields_keep_access(s, def, k, upto - 1)
        }
    }

    /// Every field of the item of a record is a field of the record's
    /// definition, and fields come in the order of their declarations.
    pub proof fn lemma_field_source(&self, s: Seq<bool>, def: int, j: int, k: int) -> (a: int)
        requires
            0 <= k <= self.len(),
            0 <= j < self.fields_before(s, def, k).len(),
        ensures
            0 <= a < k,
            self.is_field_of(a, def),
            self.fields_before(s, def, k)[j] == self.field_item(s, a, self.field_at(a)),
            j == self.fields_before(s, def, a).len(),
        decreases k,
    {
        if self.is_field_of(k - 1, def) && j == self.fields_before(s, def, k - 1).len() {
            k - 1
        } else {
            self.lemma_field_source(s, def, j, k - 1)
        }
    }

    /// The list of fields grows with the declarations looked at.
    pub proof fn lemma_fields_grow(&self, s: Seq<bool>, def: int, a: int, k: int)
        requires
            0 <= a <= k <= self.len(),
        ensures
            self.fields_before(s, def, a).len() <= self.fields_before(s, def, k).len(),
        decreases k - a,
    {
        if a < k {
            self.lemma_fields_grow(s, def, a, k - 1);
        }
    }

    /// The item of a record reports the size and the alignment that the
    /// native compiler gives the complete type. Every field starts within the
    /// object and does not reach beyond it, and no two fields of a struct or
    /// class overlap.
    pub proof fn law_record_layout(&self, i: int, def: int)
        requires
            self.well_formed(),
            self.layout_valid(),
            0 <= i < self.len(),
            self.emits(self.support(), i),
            supported_at(self.support(), i),
            self.decls@[i].kind is Record,
            self.definition_of(i) == Some(def as usize),
            0 <= def < self.len(),
        ensures
            self.item(self.support(), i) matches ItemModel::Record(r) && r.size == self.record_at(
                def,
            ).size && r.alignment == self.record_at(def).alignment && record_layout_sound(r),
    {
        let s = self.support();
        assert(self.decl_valid(i));
        assert(self.is_record(def));
        let rd = self.record_at(def);
        let r = self.record_item(s, i, def, rd, self.children(s, i));
        assert(self.item(s, i) == ItemModel::Record(r));
        assert forall|j: int| 0 <= j < r.fields.len() implies (#[trigger] r.fields[j]).offset
            < r.size * 8 && r.fields[j].offset + r.fields[j].size <= r.size * 8 by {
            let a = self.lemma_field_source(s, def, j, self.len());
            assert(self.field_fits(a));
        }
        if !r.is_union {
            assert forall|a: int, b: int| 0 <= a < b < r.fields.len() implies (
            #[trigger] r.fields[a]).offset + r.fields[a].size <= (#[trigger] r.fields[b]).offset by {
                let x = self.lemma_field_source(s, def, a, self.len());
                let y = self.lemma_field_source(s, def, b, self.len());
                if x >= y {
                    self.lemma_fields_grow(s, def, y, x);
                }
                assert(self.fields_apart(x, y));
                assert(self.field_in(x, def) && self.field_in(y, def));
            }
        }
    }
}

impl DeclGraph {
    /// A type that has a mapped type keeps one when more declarations are
    /// supported.
    pub proof fn lemma_mappable_grows(&self, r: Seq<bool>, s: Seq<bool>, t: NativeType)
        requires
            crate::support::within(r, s),
            self.mappable(r, t),
        ensures
            self.mappable(s, t),
        decreases t,
    {
        match t.shape {
            TypeShape::Pointer(p) => {
                self.lemma_mappable_grows(r, s, *p);
            },
            TypeShape::LValueReference(p) => {
                self.lemma_mappable_grows(r, s, *p);
            },
            TypeShape::Declared(d) => {
                if d < self.len() && self.well_known(d as int) is None {
                    assert(r[self.canon(d as int)] ==> s[self.canon(d as int)]);
                }
            },
            _ => {},
        }
    }

    /// What breaks a declaration while more declarations are supported
    /// breaks it while fewer are.
    pub proof fn lemma_broken_shrinks(&self, r: Seq<bool>, s: Seq<bool>, c: int, k: int)
        requires
            crate::support::within(r, s),
            self.broken_before(s, c, k),
        ensures
            self.broken_before(r, c, k),
        decreases k,
    {
        if 0 < k <= self.len() {
            if self.broken_before(s, c, k - 1) {
                self.lemma_broken_shrinks(r, s, c, k - 1);
            } else {
                let t = self.held_type(k - 1)->0;
                if self.mappable(r, t) {
                    self.lemma_mappable_grows(r, s, t);
                }
            }
        }
    }

    /// Refining keeps the order of sets.
    pub proof fn lemma_refine_keeps_order(&self, r: Seq<bool>, s: Seq<bool>)
        requires
            crate::support::within(r, s),
        ensures
            crate::support::within(self.refine(r), self.refine(s)),
    {
        assert forall|c: int| 0 <= c < r.len() && #[trigger] self.refine(r)[c] implies self.refine(
            s,
        )[c] by {
            assert(r[c] ==> s[c]);
            if self.broken_before(s, c, self.len()) {
                self.lemma_broken_shrinks(r, s, c, self.len());
            }
        }
    }

    /// A set in which every declaration keeps its bindings lies within what
    /// is left of any set around it.
    pub proof fn lemma_settle_keeps_stable(&self, r: Seq<bool>, s: Seq<bool>, rounds: nat)
        requires
            crate::support::within(r, s),
            self.refine(r) == r,
        ensures
            crate::support::within(r, self.settle(s, rounds)),
        decreases rounds,
    {
        if rounds == 0 || self.refine(s) == s {
        } else {
            self.lemma_refine_keeps_order(r, s);
            self.lemma_settle_keeps_stable(r, self.refine(s), (rounds - 1) as nat);
        }
    }

    /// The set of supported declarations is the greatest set of bindable
    /// declarations in which every declaration keeps its bindings: no
    /// declaration is unsupported without a cause.
    pub proof fn law_support_is_greatest(&self, r: Seq<bool>)
        requires
            crate::support::within(r, self.bindable_set()),
            self.refine(r) == r,
        ensures
            crate::support::within(r, self.support()),
    {
        self.lemma_settle_keeps_stable(r, self.bindable_set(), self.len() as nat);
    }

    /// A declaration that can have bindings and is not supported is broken
    /// by one of the types it holds: an unsupported item of the walk always
    /// names its cause.
    pub proof fn law_unsupported_has_cause(&self, c: int)
        requires
            self.well_formed(),
            0 <= c < self.len(),
            self.bindable(c),
            !supported_at(self.support(), c),
        ensures
            self.broken_before(self.support(), c, self.len()),
    {
        let s = self.support();
        self.lemma_support_closed();
        if !self.broken_before(s, c, self.len()) {
            let r = s.update(c, true);
            assert(crate::support::within(s, r));
            assert forall|x: int| 0 <= x < r.len() implies #[trigger] self.refine(r)[x] == r[x] by {
                if r[x] && self.broken_before(r, x, self.len()) {
                    self.lemma_broken_shrinks(s, r, x, self.len());
                    assert(self.refine(s)[x] == (s[x] && !self.broken_before(s, x, self.len())));
                }
            }
            assert(self.refine(r) =~= r);
            assert forall|x: int| 0 <= x < r.len() && #[trigger] r[x] implies self.bindable_set()[x] by {
                if x != c {
                    assert(s[x]);
                }
            }
            self.law_support_is_greatest(r);
            assert(r[c]);
        }
    }

    /// A record that the walk reaches outside every record and that is not
    /// supported has a field whose type has no mapped type.
    pub proof fn law_unsupported_record_has_broken_field(&self, c: int, def: int)
        requires
            self.well_formed(),
            0 <= c < self.len(),
            self.decls@[c].kind is Record,
            self.bindable(c),
            !supported_at(self.support(), c),
            self.definition_of(c) == Some(def as usize),
            0 <= def < self.len(),
        ensures
            self.first_broken_field(self.support(), def, self.len()) is Some,
    {
        self.law_unsupported_has_cause(c);
        self.lemma_broken_is_field(self.support(), c, def, self.len());
    }

    /// What breaks a record is one of its fields.
    pub proof fn lemma_broken_is_field(&self, s: Seq<bool>, c: int, def: int, k: int)
        requires
            self.well_formed(),
            0 <= c < self.len(),
            self.decls@[c].kind is Record,
            self.definition_of(c) == Some(def as usize),
            0 <= def < self.len(),
            0 <= k <= self.len(),
            self.broken_before(s, c, k),
        ensures
            self.first_broken_field(s, def, k) is Some,
        decreases k,
    {
        if self.broken_before(s, c, k - 1) {
            self.lemma_broken_is_field(s, c, def, k - 1);
        } else {
            assert(self.breaks(s, k - 1, c));
            assert(self.decl_valid(k - 1));
            match self.decls@[k - 1].kind {
                DeclKind::Field(f) => {
                    let p = self.decls@[k - 1].parent->0;
                    assert(self.definition_of(self.canon(p as int)) == Some(p));
                    assert(self.canon(p as int) == c);
                    assert(p == def);
                },
                _ => {
                    assert(self.holder(k - 1) == Some((k - 1) as usize));
                    assert(false);
                },
            }
        }
    }

    /// Every base class listed with a record has its item in the graph.
    pub proof fn law_bases_are_listed(&self, bases: Seq<crate::decl::BaseSpecifier>, k: int, x: int) -> (j:
        int)
        requires
            self.well_formed(),
            0 <= k <= bases.len(),
            0 <= x < self.bases_before(self.support(), bases, k).len(),
        ensures
            0 <= j < self.ir().items.len(),
            self.ir().items[j].id() == self.bases_before(self.support(), bases, k)[x].base_record_id,
        decreases k,
    {
        let s = self.support();
        let b = bases[k - 1];
        if self.base_listed(s, b) && x == self.bases_before(s, bases, k - 1).len() {
            self.law_referent_is_listed(self.canon(b.base as int))
        } else {
            self.law_bases_are_listed(bases, k - 1, x)
        }
    }

    /// Every item listed inside a namespace or a record is an item of the
    /// graph.
    pub proof fn law_children_are_items(&self, c: int, k: int, x: int) -> (j: int)
        requires
            self.well_formed(),
            0 <= k <= self.len(),
            0 <= x < self.children_before(self.support(), c, k).len(),
        ensures
            0 <= j < self.ir().items.len(),
            self.ir().items[j].id() == self.children_before(self.support(), c, k)[x],
        decreases k,
    {
        let s = self.support();
        if self.emits(s, k - 1) && self.stands_in(k - 1, c) && x == self.children_before(
            s,
            c,
            k - 1,
        ).len() {
            self.lemma_item_id(s, k - 1);
            self.lemma_item_listed(s, k - 1, self.len())
        } else {
            self.law_children_are_items(c, k - 1, x)
        }
    }

    /// The graph that is built from a well-formed graph of declarations is
    /// in order.
    pub proof fn law_ir_well_formed(&self)
        requires
            self.well_formed(),
        ensures
            self.ir().well_formed(),
    {
        let s = self.support();
        let ir = self.ir();
        self.lemma_items_ordered(s, self.len());
        assert forall|x: int| 0 <= x < ir.top_level_item_ids.len() implies ir.holds(
            #[trigger] ir.top_level_item_ids[x],
        ) by {
            let j = self.law_top_level_are_items(self.len(), x);
            assert(ir.items[j].id() == ir.top_level_item_ids[x]);
        }
        assert forall|j: int, x: int|
            0 <= j < ir.items.len() && 0 <= x < ir.items[j].child_item_ids().len() implies ir.holds(
            #[trigger] ir.items[j].child_item_ids()[x],
        ) by {
            let a = self.lemma_item_source(s, j, self.len());
            assert(self.decl_valid(a));
            match self.decls@[a].kind {
                DeclKind::Record(r) => {
                    if supported_at(s, a) {
                        match r.definition {
                            Some(def) => {
                                assert(self.is_record(def as int));
                            },
                            None => {},
                        }
                    }
                },
                _ => {},
            }
            assert(ir.items[j].child_item_ids() == self.children(s, a));
            let w = self.law_children_are_items(a, self.len(), x);
            assert(ir.items[w].id() == ir.items[j].child_item_ids()[x]);
        }
        assert forall|d: int| 0 <= d < ir.decl_item_ids.len() && (
        #[trigger] ir.decl_item_ids[d]) is Some implies ir.holds(ir.decl_item_ids[d]->0) by {
            let c = self.canon(d);
            self.lemma_item_id(s, c);
            let w = self.lemma_item_listed(s, c, self.len());
            assert(ir.items[w].id() == item_id(c));
        }
    }

    /// All declarations of one entity lead to the same item, and an entity
    /// has an item exactly if its canonical declaration has one.
    pub proof fn law_redeclarations_share_item(&self, d1: int, d2: int)
        requires
            self.well_formed(),
            0 <= d1 < self.len(),
            0 <= d2 < self.len(),
            self.canon(d1) == self.canon(d2),
        ensures
            self.ir().decl_item_ids[d1] == self.ir().decl_item_ids[d2],
            self.ir().decl_item_ids[d1] matches Some(id) ==> id == item_id(self.canon(d1))
                && self.ir().holds(id),
    {
        self.law_ir_well_formed();
    }

    /// Every item listed at the outermost scope is an item of the graph.
    pub proof fn law_top_level_are_items(&self, k: int, x: int) -> (j: int)
        requires
            self.well_formed(),
            0 <= k <= self.len(),
            0 <= x < self.top_level_before(self.support(), k).len(),
        ensures
            0 <= j < self.ir().items.len(),
            self.ir().items[j].id() == self.top_level_before(self.support(), k)[x],
        decreases k,
    {
        let s = self.support();
        if self.emits(s, k - 1) && self.decls@[k - 1].parent is None && x == self.top_level_before(
            s,
            k - 1,
        ).len() {
            self.lemma_item_id(s, k - 1);
            self.lemma_item_listed(s, k - 1, self.len())
        } else {
            self.law_top_level_are_items(k - 1, x)
        }
    }
}

/// What points to a well-formed type is well formed on the target side.
pub proof fn lemma_indirection_well_formed(
    pointee: MappedTypeModel,
    lifetime: Option<crate::decl::LifetimeId>,
)
    requires
        pointee.well_formed(),
    ensures
        crate::types::rs_indirection(pointee, lifetime).well_formed(),
{
    let r = crate::types::rs_indirection(pointee, lifetime);
    assert forall|i: int| 0 <= i < r.type_args.len() implies (#[trigger] r.type_args[i]).well_formed() by {
        assert(r.type_args[i] == pointee.rs_type);
    }
}

/// A pointer to a well-formed type is well formed.
pub proof fn lemma_pointer_well_formed(
    pointee: MappedTypeModel,
    lifetime: Option<crate::decl::LifetimeId>,
    is_const: bool,
)
    requires
        pointee.well_formed(),
    ensures
        crate::types::pointer_type(pointee, lifetime, is_const).well_formed(),
{
    let m = crate::types::pointer_type(pointee, lifetime, is_const);
    lemma_indirection_well_formed(pointee, lifetime);
    assert forall|i: int| 0 <= i < m.rs_type.type_args.len() implies (
    #[trigger] m.rs_type.type_args[i]).well_formed() by {
        if lifetime is Some {
            assert(m.rs_type.type_args[i] == crate::types::rs_indirection(pointee, lifetime));
        } else {
            assert(m.rs_type.type_args[i] == pointee.rs_type);
        }
    }
    assert forall|i: int| 0 <= i < m.cc_type.type_args.len() implies (
    #[trigger] m.cc_type.type_args[i]).well_formed() by {
        assert(m.cc_type.type_args[i] == pointee.cc_type);
    }
}

/// A reference to a well-formed type is well formed.
pub proof fn lemma_reference_well_formed(
    pointee: MappedTypeModel,
    lifetime: Option<crate::decl::LifetimeId>,
    is_const: bool,
)
    requires
        pointee.well_formed(),
    ensures
        crate::types::reference_type(pointee, lifetime, is_const).well_formed(),
{
    let m = crate::types::reference_type(pointee, lifetime, is_const);
    lemma_indirection_well_formed(pointee, lifetime);
    assert forall|i: int| 0 <= i < m.cc_type.type_args.len() implies (
    #[trigger] m.cc_type.type_args[i]).well_formed() by {
        assert(m.cc_type.type_args[i] == pointee.cc_type);
    }
}

/// Building the graph again from the same declarations gives the same
/// outcome: the same error, or the same items with the same contents in the
/// same order.
pub proof fn law_rebuild_is_identical(
    graph: &DeclGraph,
    first: Result<IR, StructuralError>,
    second: Result<IR, StructuralError>,
)
    requires
        is_built_from(first, graph),
        is_built_from(second, graph),
    ensures
        match first {
            Ok(a) => second matches Ok(b) && a@ == b@,
            Err(e) => second == Err::<IR, StructuralError>(e),
        },
{
}

} // verus!
