//! Puts the graph of items together.
//!
//! Every declaration that the walk reaches yields at most one item: the item
//! of its kind where it can be bound, an unsupported item that says why where
//! it cannot. Items of other targets are kept only where types can refer to
//! them. Namespaces and records list what stands inside them, and the graph
//! lists what stands at the outermost scope, all in source order.

use vstd::prelude::*;
use vstd::string::*;
use crate::comment::doc_text;
use crate::comment::normalize;
use crate::decl::AccessSpecifier;
use crate::decl::DeclGraph;
use crate::decl::DeclKind;
use crate::decl::EnumDecl;
use crate::decl::Enumerator;
use crate::decl::NativeType;
use crate::func::is_special_member;
use crate::func::check_special_member;
use crate::ident::item_id;
use crate::ident::Identifier;
use crate::ident::ItemId;
use crate::ir::Comment;
use crate::ir::CommentModel;
use crate::ir::Enum;
use crate::ir::EnumModel;
use crate::ir::EnumeratorItem;
use crate::ir::EnumeratorModel;
use crate::ir::IncompleteRecord;
use crate::ir::IR;
use crate::ir::IRModel;
use crate::ir::item_views;
use crate::ir::Item;
use crate::ir::ItemModel;
use crate::ir::MappedType;
use crate::ir::Namespace;
use crate::ir::NamespaceModel;
use crate::ir::Record;
use crate::ir::TypeAlias;
use crate::ir::TypeAliasModel;
use crate::ir::UnsupportedItem;
use crate::ir::UnsupportedItemModel;
use crate::record::classify_special_member;
use crate::scope::Outline;
use crate::types::cc_builtin;
use crate::types::cc_builtin_name;
use crate::types::named_type;
use crate::types::rs_builtin;
use crate::types::rs_builtin_name;
use crate::types::supported_at;

verus! {

/// The enumerators as ghost values.
pub open spec fn enumerator_items(l: Seq<Enumerator>) -> Seq<EnumeratorModel> {
    l.map_values(|e: Enumerator| EnumeratorModel { identifier: e.name@, value: e.value })
}

impl DeclGraph {
    /// Whether declaration `i` is a member function that is left out
    /// without a word: one that is not public and is no special member.
    pub open spec fn dropped(&self, i: int) -> bool {
        self.decls@[i].kind matches DeclKind::Function(f) && self.nested_in_record(i)
            && self.resolved_access(i) != AccessSpecifier::Public && !is_special_member(f.name)
    }

    /// Whether declaration `i` has an item in the graph.
    pub open spec fn emits(&self, s: Seq<bool>, i: int) -> bool {
        self.walked(i) && match self.decls@[i].kind {
            DeclKind::Namespace { .. } => true,
            DeclKind::Record(_) => supported_at(s, i) || self.in_current_target(i),
            DeclKind::TypeAlias { .. } => supported_at(s, i) || self.in_current_target(i),
            DeclKind::Enum(_) => supported_at(s, i) || self.in_current_target(i),
            DeclKind::Function(_) => !self.dropped(i) && self.in_current_target(i),
            DeclKind::FunctionTemplate { .. } => self.in_current_target(i),
            DeclKind::Comment { text } => self.in_current_target(i) && doc_text(text@) is Some,
            _ => false,
        }
    }

    /// Whether declaration `k` stands directly inside the namespace or
    /// record with the canonical declaration `c`.
    pub open spec fn stands_in(&self, k: int, c: int) -> bool {
        self.decls@[k].parent matches Some(p) && p < self.len() && self.canon(p as int) == c
    }

    /// The items, of the first `k` declarations, that stand directly inside
    /// `c`.
    pub open spec fn children_before(&self, s: Seq<bool>, c: int, k: int) -> Seq<ItemId>
        decreases k,
    {
        if k <= 0 || k > self.len() {
            Seq::empty()
        } else {
            let before = self.children_before(s, c, k - 1);
            if self.emits(s, k - 1) && self.stands_in(k - 1, c) {
                before.push(item_id(k - 1))
            } else {
                before
            }
        }
    }

    /// The items that stand directly inside `c`, in source order.
    pub open spec fn children(&self, s: Seq<bool>, c: int) -> Seq<ItemId> {
        self.children_before(s, c, self.len())
    }

    /// The item that says that declaration `i` cannot be bound, and why.
    pub open spec fn unsupported(&self, i: int, message: Seq<char>) -> ItemModel {
        ItemModel::UnsupportedItem(
            UnsupportedItemModel { name: self.qualified_name(i), message, id: item_id(i) },
        )
    }

    /// Why the type alias that declaration `i` declares cannot be bound,
    /// where it cannot.
    pub open spec fn alias_failure(&self, s: Seq<bool>, i: int, underlying: NativeType) -> Seq<
        char,
    > {
        if self.nested_in_record(i) {
            "Typedefs nested in classes are not supported yet"@
        } else if !self.mappable(s, underlying) {
            self.type_failure(s, underlying)
        } else {
            "No generated bindings found for '"@ + self.own_name(i) + "'"@
        }
    }

    /// The item of the enum `e` that declaration `i` declares.
    pub open spec fn enum_item(&self, i: int, e: EnumDecl) -> EnumModel {
        EnumModel {
            identifier: self.own_name(i),
            id: item_id(i),
            owning_target: self.effective_owner(i),
            underlying_type: named_type(rs_builtin(e.underlying), cc_builtin(e.underlying), false),
            enumerators: enumerator_items(e.enumerators@),
            enclosing_namespace_id: self.namespace_id(i),
        }
    }

    /// The item of declaration `i`, where it has one.
    pub open spec fn item(&self, s: Seq<bool>, i: int) -> ItemModel {
        match self.decls@[i].kind {
            DeclKind::Namespace { name } => ItemModel::Namespace(
                NamespaceModel {
                    name: name@,
                    id: item_id(i),
                    canonical_namespace_id: item_id(i),
                    owning_target: self.effective_owner(i),
                    child_item_ids: self.children(s, i),
                    enclosing_namespace_id: self.namespace_id(i),
                },
            ),
            DeclKind::Record(r) => if supported_at(s, i) {
                match r.definition {
                    Some(def) => match self.decls@[def as int].kind {
                        DeclKind::Record(rd) => ItemModel::Record(
                            self.record_item(s, i, def as int, rd, self.children(s, i)),
                        ),
                        _ => arbitrary(),
                    },
                    None => ItemModel::IncompleteRecord(self.incomplete_record_item(i, r)),
                }
            } else {
                self.unsupported(i, self.record_failure(s, i))
            },
            DeclKind::TypeAlias { name, underlying } => if supported_at(s, i) {
                ItemModel::TypeAlias(
                    TypeAliasModel {
                        identifier: name@,
                        id: item_id(i),
                        owning_target: self.effective_owner(i),
                        doc_comment: crate::comment::doc_text_of(self.decls@[i].doc_comment),
                        underlying_type: self.mapped(s, underlying),
                        enclosing_namespace_id: self.namespace_id(i),
                    },
                )
            } else {
                self.unsupported(i, self.alias_failure(s, i, underlying))
            },
            DeclKind::Enum(e) => if supported_at(s, i) {
                ItemModel::Enum(self.enum_item(i, e))
            } else {
                self.unsupported(i, "Unnamed enums are not supported yet"@)
            },
            DeclKind::Function(f) => match self.function_failure(s, i, f) {
                None => ItemModel::Func(self.func_item(s, i, f)),
                Some(m) => self.unsupported(i, m),
            },
            DeclKind::FunctionTemplate { .. } => self.unsupported(
                i,
                "Function templates are not supported yet"@,
            ),
            DeclKind::Comment { text } => ItemModel::Comment(
                CommentModel {
                    text: match doc_text(text@) {
                        Some(t) => t,
                        None => Seq::empty(),
                    },
                    id: item_id(i),
                },
            ),
            _ => arbitrary(),
        }
    }

    /// The items of the first `k` declarations.
    pub open spec fn items_before(&self, s: Seq<bool>, k: int) -> Seq<ItemModel>
        decreases k,
    {
        if k <= 0 || k > self.len() {
            Seq::empty()
        } else {
            let before = self.items_before(s, k - 1);
            if self.emits(s, k - 1) {
                before.push(self.item(s, k - 1))
            } else {
                before
            }
        }
    }

    /// The items, of the first `k` declarations, that stand at the outermost
    /// scope.
    pub open spec fn top_level_before(&self, s: Seq<bool>, k: int) -> Seq<ItemId>
        decreases k,
    {
        if k <= 0 || k > self.len() {
            Seq::empty()
        } else {
            let before = self.top_level_before(s, k - 1);
            if self.emits(s, k - 1) && self.decls@[k - 1].parent is None {
                before.push(item_id(k - 1))
            } else {
                before
            }
        }
    }

    /// Whether declaration `i` is a member function that is left out
    /// without a word.
    fn is_dropped(&self, outline: &Outline, i: usize) -> (r: bool)
        requires
            self.well_formed(),
            outline.describes(self),
            i < self.decls.len(),
        ensures
            r == self.dropped(i as int),
    {
        assert(self.decl_valid(i as int));
        match &self.decls[i].kind {
            DeclKind::Function(f) => {
                let nested = match self.decls[i].parent {
                    Some(p) => match &self.decls[p].kind {
                        DeclKind::Record(_) => true,
                        _ => false,
                    },
                    None => false,
                };
                nested && outline.access[i] != AccessSpecifier::Public && !check_special_member(
                    &f.name,
                )
            },
            _ => false,
        }
    }

    /// Whether declaration `i` has an item in the graph.
    fn emits_at(&self, outline: &Outline, support: &Vec<bool>, i: usize) -> (r: bool)
        requires
            self.well_formed(),
            outline.describes(self),
            support@.len() == self.len(),
            i < self.decls.len(),
        ensures
            r == self.emits(support@, i as int),
    {
        if !outline.walked[i] {
            return false;
        }
        match &self.decls[i].kind {
            DeclKind::Namespace { .. } => true,
            DeclKind::Record(_) => support[i] || self.is_in_current_target(outline, i),
            DeclKind::TypeAlias { .. } => support[i] || self.is_in_current_target(outline, i),
            DeclKind::Enum(_) => support[i] || self.is_in_current_target(outline, i),
            DeclKind::Function(_) => !self.is_dropped(outline, i) && self.is_in_current_target(
                outline,
                i,
            ),
            DeclKind::FunctionTemplate { .. } => self.is_in_current_target(outline, i),
            DeclKind::Comment { text } => self.is_in_current_target(outline, i) && normalize(
                text.as_str(),
            ).is_some(),
            _ => false,
        }
    }

    /// For each declaration, whether it has an item in the graph.
    fn emitted_all(&self, outline: &Outline, support: &Vec<bool>) -> (r: Vec<bool>)
        requires
            self.well_formed(),
            outline.describes(self),
            support@.len() == self.len(),
        ensures
            r@.len() == self.len(),
            forall|i: int| 0 <= i < self.len() ==> #[trigger] r@[i] == self.emits(support@, i),
    {
        let n = self.decls.len();
        let mut r: Vec<bool> = Vec::new();
        let mut i: usize = 0;
        while i < n
            invariant
                self.well_formed(),
                outline.describes(self),
                support@.len() == n,
                n == self.decls.len(),
                0 <= i <= n,
                r@.len() == i,
                forall|j: int| 0 <= j < i ==> #[trigger] r@[j] == self.emits(support@, j),
            decreases n - i,
        {
            r.push(self.emits_at(outline, support, i));
            i += 1;
        }
        r
    }

    /// The items that stand directly inside `c`, in source order.
    fn children_of(&self, support: &Vec<bool>, emitted: &Vec<bool>, c: usize) -> (r: Vec<ItemId>)
        requires
            self.well_formed(),
            emitted@.len() == self.len(),
            forall|i: int| 0 <= i < self.len() ==> #[trigger] emitted@[i] == self.emits(support@, i),
        ensures
            r@ == self.children(support@, c as int),
    {
        let n = self.decls.len();
        let mut r: Vec<ItemId> = Vec::new();
        let mut k: usize = 0;
        while k < n
            invariant
                self.well_formed(),
                n == self.decls.len(),
                emitted@.len() == n,
                forall|i: int| 0 <= i < n ==> #[trigger] emitted@[i] == self.emits(support@, i),
                0 <= k <= n,
                r@ == self.children_before(support@, c as int, k as int),
            decreases n - k,
        {
            assert(self.decl_valid(k as int));
            if emitted[k] {
                match self.decls[k].parent {
                    Some(p) => {
                        if self.decls[p].canonical == c {
                            r.push(ItemId::of_decl(k));
                        }
                    },
                    None => {},
                }
            }
            k += 1;
        }
        r
    }

    /// The item that says that declaration `i` cannot be bound, and why.
    fn report_unsupported(&self, i: usize, message: String) -> (r: Item)
        requires
            self.well_formed(),
            i < self.decls.len(),
        ensures
            r@ == self.unsupported(i as int, message@),
    {
        Item::UnsupportedItem(
            UnsupportedItem { name: self.qualified_name_of(i), message, id: ItemId::of_decl(i) },
        )
    }

    /// A supported declaration keeps its bindings: nothing breaks it.
    proof fn lemma_supported_unbroken(&self, c: int)
        requires
            supported_at(self.support(), c),
        ensures
            !self.broken_before(self.support(), c, self.len()),
            self.bindable(c),
    {
        self.lemma_support_closed();
        let s = self.support();
        assert(self.refine(s)[c] == (s[c] && !self.broken_before(s, c, self.len())));
        assert(self.bindable_set()[c] == self.bindable(c));
    }

    /// The item of the record with the canonical declaration `i`.
    fn import_record(
        &self,
        outline: &Outline,
        support: &Vec<bool>,
        emitted: &Vec<bool>,
        i: usize,
    ) -> (r: Item)
        requires
            self.well_formed(),
            outline.describes(self),
            support@ == self.support(),
            support@.len() == self.len(),
            emitted@.len() == self.len(),
            forall|k: int| 0 <= k < self.len() ==> #[trigger] emitted@[k] == self.emits(support@, k),
            i < self.decls.len(),
            self.decls@[i as int].kind is Record,
            self.walked(i as int),
        ensures
            r@ == self.item(support@, i as int),
    {
        assert(self.decl_valid(i as int));
        let d = &self.decls[i];
        let record = match &d.kind {
            DeclKind::Record(r) => r,
            _ => unreached(),
        };
        if support[i] {
            proof {
                self.lemma_supported_unbroken(i as int);
            }
            match record.definition {
                Some(def) => {
                    let rd = match &self.decls[def].kind {
                        DeclKind::Record(rd) => rd,
                        _ => unreached(),
                    };
                    proof {
                        self.lemma_supported_record_fields(
                            support@,
                            i as int,
                            def as int,
                            self.len(),
                        );
                    }
                    let fields = match self.import_fields(outline, support, def) {
                        Ok(f) => f,
                        Err(_) => unreached(),
                    };
                    let rs_name = match &rd.specialization {
                        Some(m) => {
                            let mut n = String::from_str("__CcTemplateInst");
                            n.append(m.as_str());
                            n
                        },
                        None => rd.name.clone(),
                    };
                    let item = Record {
                        rs_name,
                        cc_name: rd.name.clone(),
                        id: ItemId::of_decl(i),
                        owning_target: self.effective_owner_of(outline, i),
                        doc_comment: crate::comment::normalize_opt(&self.decls[def].doc_comment),
                        unambiguous_public_bases: self.import_bases(support, &rd.bases),
                        fields,
                        copy_constructor: classify_special_member(&rd.copy_constructor),
                        move_constructor: classify_special_member(&rd.move_constructor),
                        destructor: classify_special_member(&rd.destructor),
                        size: rd.size,
                        alignment: rd.alignment,
                        is_union: match rd.tag {
                            crate::decl::RecordTag::Union => true,
                            _ => false,
                        },
                        override_alignment: match rd.explicit_alignment {
                            Some(a) => a != rd.natural_alignment,
                            None => false,
                        },
                        is_derived_class: rd.bases.len() > 0,
                        child_item_ids: self.children_of(support, emitted, i),
                        enclosing_namespace_id: self.namespace_id_of(outline, i),
                    };
                    Item::Record(item)
                },
                None => Item::IncompleteRecord(
                    IncompleteRecord {
                        cc_name: record.name.clone(),
                        id: ItemId::of_decl(i),
                        owning_target: self.effective_owner_of(outline, i),
                        enclosing_namespace_id: self.namespace_id_of(outline, i),
                    },
                ),
            }
        } else {
            let nested = match d.parent {
                Some(p) => match &self.decls[p].kind {
                    DeclKind::Record(_) => true,
                    _ => false,
                },
                None => false,
            };
            let message = if nested {
                String::from_str("Nested classes are not supported yet")
            } else {
                let broken = match record.definition {
                    Some(def) => match self.import_fields(outline, support, def) {
                        Ok(_) => None,
                        Err(m) => Some(m),
                    },
                    None => None,
                };
                match broken {
                    Some(m) => m,
                    None => {
                        let mut m = String::from_str("No generated bindings found for '");
                        let name = self.own_name_of(i);
                        m.append(name.as_str());
                        m.append("'");
                        m
                    },
                }
            };
            self.report_unsupported(i, message)
        }
    }

    /// The item of the type alias that declaration `i` declares.
    fn import_alias(&self, outline: &Outline, support: &Vec<bool>, i: usize) -> (r: Item)
        requires
            self.well_formed(),
            outline.describes(self),
            support@ == self.support(),
            support@.len() == self.len(),
            i < self.decls.len(),
            self.decls@[i as int].kind is TypeAlias,
            self.walked(i as int),
        ensures
            r@ == self.item(support@, i as int),
    {
        assert(self.decl_valid(i as int));
        let d = &self.decls[i];
        let (name, underlying) = match &d.kind {
            DeclKind::TypeAlias { name, underlying } => (name, underlying),
            _ => unreached(),
        };
        let converted = self.convert_type(support, underlying);
        if support[i] {
            proof {
                self.lemma_supported_unbroken(i as int);
                if !self.mappable(support@, *underlying) {
                    assert(self.holder(i as int) == Some(i));
                    assert(self.breaks(support@, i as int, i as int));
                    assert(self.broken_before(support@, i as int, i + 1));
                    self.lemma_broken_before_grows(support@, i as int, i + 1);
                }
            }
            match converted {
                Ok(underlying_type) => Item::TypeAlias(
                    TypeAlias {
                        identifier: Identifier { identifier: name.clone() },
                        id: ItemId::of_decl(i),
                        owning_target: self.effective_owner_of(outline, i),
                        doc_comment: crate::comment::normalize_opt(&d.doc_comment),
                        underlying_type,
                        enclosing_namespace_id: self.namespace_id_of(outline, i),
                    },
                ),
                Err(_) => unreached(),
            }
        } else {
            let nested = match d.parent {
                Some(p) => match &self.decls[p].kind {
                    DeclKind::Record(_) => true,
                    _ => false,
                },
                None => false,
            };
            let message = if nested {
                String::from_str("Typedefs nested in classes are not supported yet")
            } else {
                match converted {
                    Err(e) => e.message(),
                    Ok(_) => {
                        let mut m = String::from_str("No generated bindings found for '");
                        m.append(name.as_str());
                        m.append("'");
                        m
                    },
                }
            };
            self.report_unsupported(i, message)
        }
    }

    /// The item of the enum that declaration `i` declares.
    fn import_enum(&self, outline: &Outline, support: &Vec<bool>, i: usize) -> (r: Item)
        requires
            self.well_formed(),
            outline.describes(self),
            support@ == self.support(),
            support@.len() == self.len(),
            i < self.decls.len(),
            self.decls@[i as int].kind is Enum,
            self.walked(i as int),
        ensures
            r@ == self.item(support@, i as int),
    {
        let e = match &self.decls[i].kind {
            DeclKind::Enum(e) => e,
            _ => unreached(),
        };
        if support[i] {
            let mut enumerators: Vec<EnumeratorItem> = Vec::new();
            let mut k: usize = 0;
            while k < e.enumerators.len()
                invariant
                    0 <= k <= e.enumerators.len(),
                    enumerators@.len() == k,
                    forall|j: int|
                        0 <= j < k ==> (#[trigger] enumerators@[j])@ == enumerator_items(
                            e.enumerators@,
                        )[j],
                decreases e.enumerators.len() - k,
            {
                let x = &e.enumerators[k];
                enumerators.push(
                    EnumeratorItem {
                        identifier: Identifier { identifier: x.name.clone() },
                        value: x.value,
                    },
                );
                k += 1;
            }
            assert(enumerators@.map_values(|x: EnumeratorItem| x@) =~= enumerator_items(
                e.enumerators@,
            ));
            Item::Enum(
                Enum {
                    identifier: Identifier { identifier: self.own_name_of(i) },
                    id: ItemId::of_decl(i),
                    owning_target: self.effective_owner_of(outline, i),
                    underlying_type: MappedType::named(
                        rs_builtin_name(e.underlying),
                        String::from_str(cc_builtin_name(e.underlying)),
                        false,
                    ),
                    enumerators,
                    enclosing_namespace_id: self.namespace_id_of(outline, i),
                },
            )
        } else {
            self.report_unsupported(i, String::from_str("Unnamed enums are not supported yet"))
        }
    }

    /// The item of a declaration has the identity of the declaration.
    pub proof fn lemma_item_id(&self, s: Seq<bool>, i: int)
        requires
            self.well_formed(),
            0 <= i < self.len(),
            self.emits(s, i),
        ensures
            self.item(s, i).id() == item_id(i),
    {
        assert(self.decl_valid(i));
        match self.decls@[i].kind {
            DeclKind::Record(r) => {
                if supported_at(s, i) {
                    match r.definition {
                        Some(def) => {
                            assert(self.is_record(def as int));
                        },
                        None => {},
                    }
                }
            },
            _ => {},
        }
    }

    /// The item of declaration `i`, which has one.
    fn import_decl(
        &self,
        outline: &Outline,
        support: &Vec<bool>,
        emitted: &Vec<bool>,
        i: usize,
    ) -> (r: Item)
        requires
            self.well_formed(),
            outline.describes(self),
            support@ == self.support(),
            support@.len() == self.len(),
            emitted@.len() == self.len(),
            forall|k: int| 0 <= k < self.len() ==> #[trigger] emitted@[k] == self.emits(support@, k),
            i < self.decls.len(),
            self.emits(support@, i as int),
        ensures
            r@ == self.item(support@, i as int),
            r@.id() == item_id(i as int),
    {
        proof {
            self.lemma_item_id(support@, i as int);
        }
        match &self.decls[i].kind {
            DeclKind::Namespace { name } => Item::Namespace(
                Namespace {
                    name: Identifier { identifier: name.clone() },
                    id: ItemId::of_decl(i),
                    canonical_namespace_id: ItemId::of_decl(i),
                    owning_target: self.effective_owner_of(outline, i),
                    child_item_ids: self.children_of(support, emitted, i),
                    enclosing_namespace_id: self.namespace_id_of(outline, i),
                },
            ),
            DeclKind::Record(_) => self.import_record(outline, support, emitted, i),
            DeclKind::TypeAlias { .. } => self.import_alias(outline, support, i),
            DeclKind::Enum(_) => self.import_enum(outline, support, i),
            DeclKind::Function(_) => match self.import_function(outline, support, i) {
                Ok(f) => Item::Func(f),
                Err(m) => self.report_unsupported(i, m),
            },
            DeclKind::FunctionTemplate { .. } => self.report_unsupported(
                i,
                String::from_str("Function templates are not supported yet"),
            ),
            DeclKind::Comment { text } => {
                let text = match normalize(text.as_str()) {
                    Some(t) => t,
                    None => unreached(),
                };
                Item::Comment(Comment { text, id: ItemId::of_decl(i) })
            },
            _ => unreached(),
        }
    }
}

/// Why no graph of items can be built from a graph of declarations.
#[derive(Clone, Copy, Debug, PartialEq, Eq)]
pub enum StructuralError {
    /// A declaration is out of order, or refers to a declaration that is
    /// not there or is of the wrong kind.
    MalformedGraph,
    /// The layout reported for a record is none that a record can have.
    InconsistentLayout,
}

impl DeclGraph {
    /// The graph of items that stands for the unit: the item of every
    /// declaration that has one, in source order, and those of them that
    /// stand at the outermost scope.
    pub open spec fn ir(&self) -> IRModel {
        IRModel {
            items: self.items_before(self.support(), self.len()),
            top_level_item_ids: self.top_level_before(self.support(), self.len()),
            decl_item_ids: Seq::new(self.len() as nat, |d: int| self.item_of(self.support(), d)),
            current_target: self.current_target@,
        }
    }

    /// The item that stands for the entity that declaration `d` declares:
    /// the item of its canonical declaration, if that has one.
    pub open spec fn item_of(&self, s: Seq<bool>, d: int) -> Option<ItemId> {
        if 0 <= self.canon(d) < self.len() && self.emits(s, self.canon(d)) {
            Some(item_id(self.canon(d)))
        } else {
            None
        }
    }
}

/// Whether `r` is what building from `graph` gives: the graph of items where
/// `graph` is well formed and its layouts are ones that records can have, and
/// else the error that says which of the two it is not.
pub open spec fn is_built_from(r: Result<IR, StructuralError>, graph: &DeclGraph) -> bool {
    match r {
        Ok(ir) => graph.well_formed() && graph.layout_valid() && ir@ == graph.ir(),
        Err(StructuralError::MalformedGraph) => !graph.well_formed(),
        Err(StructuralError::InconsistentLayout) => graph.well_formed() && !graph.layout_valid(),
    }
}

/// Builds the graph of items that stands for the unit `graph`.
///
/// A graph that is not well formed, or that reports a layout that no record
/// can have, is refused as a whole. From any other graph the items are
/// built; a declaration that cannot be bound becomes an unsupported item and
/// keeps nothing else from being bound.
pub fn build_ir(graph: &DeclGraph) -> (r: Result<IR, StructuralError>)
    ensures
        is_built_from(r, graph),
{
    if !graph.is_well_formed() {
        return Err(StructuralError::MalformedGraph);
    }
    if !graph.is_layout_valid() {
        return Err(StructuralError::InconsistentLayout);
    }
    let outline = graph.outline();
    let support = graph.supported_set(&outline);
    let emitted = graph.emitted_all(&outline, &support);
    let n = graph.decls.len();
    let mut items: Vec<Item> = Vec::new();
    let mut top_level: Vec<ItemId> = Vec::new();
    let mut i: usize = 0;
    assert(item_views(items@) =~= graph.items_before(support@, 0));
    while i < n
        invariant
            graph.well_formed(),
            outline.describes(graph),
            support@ == graph.support(),
            support@.len() == graph.len(),
            emitted@.len() == graph.len(),
            forall|k: int| 0 <= k < graph.len() ==> #[trigger] emitted@[k] == graph.emits(support@, k),
            n == graph.decls.len(),
            0 <= i <= n,
            item_views(items@) == graph.items_before(support@, i as int),
            top_level@ == graph.top_level_before(support@, i as int),
        decreases n - i,
    {
        if emitted[i] {
            let ghost before = item_views(items@);
            let item = graph.import_decl(&outline, &support, &emitted, i);
            items.push(item);
            assert(item_views(items@) =~= before.push(graph.item(support@, i as int)));
            if graph.decls[i].parent.is_none() {
                top_level.push(ItemId::of_decl(i));
            }
        }
        i += 1;
    }
    let mut decl_item_ids: Vec<Option<ItemId>> = Vec::new();
    let mut d: usize = 0;
    while d < n
        invariant
            graph.well_formed(),
            emitted@.len() == graph.len(),
            forall|k: int| 0 <= k < graph.len() ==> #[trigger] emitted@[k] == graph.emits(support@, k),
            n == graph.decls.len(),
            0 <= d <= n,
            decl_item_ids@.len() == d,
            forall|k: int| 0 <= k < d ==> #[trigger] decl_item_ids@[k] == graph.item_of(support@, k),
        decreases n - d,
    {
        assert(graph.decl_valid(d as int));
        let c = graph.decls[d].canonical;
        decl_item_ids.push(if emitted[c] { Some(ItemId::of_decl(c)) } else { None });
        d += 1;
    }
    assert(decl_item_ids@ =~= graph.ir().decl_item_ids);
    Ok(
        IR {
            items,
            top_level_item_ids: top_level,
            decl_item_ids,
            current_target: graph.current_target.clone(),
        },
    )
}

} // verus!
