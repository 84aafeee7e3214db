//! Records: their fields, their base classes, their special members and
//! their layout.
//!
//! Size, alignment and offsets are the native compiler's; nothing here
//! computes a layout of its own.

use vstd::prelude::*;
use vstd::string::*;
use crate::comment::doc_text_of;
use crate::comment::normalize_opt;
use crate::decl::AccessSpecifier;
use crate::decl::BaseSpecifier;
use crate::decl::DeclGraph;
use crate::decl::DeclKind;
use crate::decl::FieldDecl;
use crate::decl::RecordDecl;
use crate::decl::RecordTag;
use crate::decl::SpecialMemberFacts;
use crate::ident::item_id;
use crate::ident::Identifier;
use crate::ident::ItemId;
use crate::ir::BaseClass;
use crate::ir::Field;
use crate::ir::FieldModel;
use crate::ir::IncompleteRecordModel;
use crate::ir::RecordModel;
use crate::ir::SpecialMemberDefinition;
use crate::ir::SpecialMemberFunc;
use crate::scope::Outline;
use crate::text::opt_view;
use crate::types::supported_at;

verus! {

/// How a special member is defined and who may call it. A member that the
/// compiler declares implicitly is public.
pub open spec fn special_member(f: SpecialMemberFacts) -> SpecialMemberFunc {
    SpecialMemberFunc {
        definition: if f.is_deleted {
            SpecialMemberDefinition::Deleted
        } else if f.is_trivial {
            SpecialMemberDefinition::Trivial
        } else {
            SpecialMemberDefinition::NontrivialUserDefined
        },
        access: match f.declared_access {
            Some(a) => a,
            None => AccessSpecifier::Public,
        },
    }
}

/// How a special member is defined and who may call it.
pub fn classify_special_member(f: &SpecialMemberFacts) -> (r: SpecialMemberFunc)
    ensures
        r == special_member(*f),
{
    SpecialMemberFunc {
        definition: if f.is_deleted {
            SpecialMemberDefinition::Deleted
        } else if f.is_trivial {
            SpecialMemberDefinition::Trivial
        } else {
            SpecialMemberDefinition::NontrivialUserDefined
        },
        access: match f.declared_access {
            Some(a) => a,
            None => AccessSpecifier::Public,
        },
    }
}

/// Whether a record overrides its alignment: an attribute asks for an
/// alignment other than the one the record would have by itself.
pub open spec fn overrides_alignment(r: RecordDecl) -> bool {
    r.explicit_alignment matches Some(a) && a != r.natural_alignment
}

/// The name of a record on the target side. An instantiated class template
/// has no name that the target language could spell, and is called after
/// its mangled name.
pub open spec fn record_rs_name(r: RecordDecl) -> Seq<char> {
    match r.specialization {
        Some(m) => "__CcTemplateInst"@ + m@,
        None => r.name@,
    }
}

/// The fields as ghost values.
pub open spec fn field_views(l: Seq<Field>) -> Seq<FieldModel> {
    l.map_values(|x: Field| x@)
}

impl DeclGraph {
    /// Whether declaration `k` is a field of the record definition `def`.
    pub open spec fn is_field_of(&self, k: int, def: int) -> bool {
        self.decls@[k].kind is Field && self.decls@[k].parent == Some(def as usize)
    }

    /// The item's field for the field `f` that declaration `k` declares.
    pub open spec fn field_item(&self, s: Seq<bool>, k: int, f: FieldDecl) -> FieldModel {
        FieldModel {
            identifier: opt_view(f.name),
            doc_comment: doc_text_of(self.decls@[k].doc_comment),
            type_: self.mapped(s, f.ty),
            access: self.resolved_access(k),
            offset: f.offset,
            size: f.size,
        }
    }

    /// The item's fields for the fields of `def` among the first `k`
    /// declarations.
    pub open spec fn fields_before(&self, s: Seq<bool>, def: int, k: int) -> Seq<FieldModel>
        decreases k,
    {
        if k <= 0 || k > self.len() {
            Seq::empty()
        } else {
            let before = self.fields_before(s, def, k - 1);
            match self.decls@[k - 1].kind {
                DeclKind::Field(f) => if self.decls@[k - 1].parent == Some(def as usize) {
                    before.push(self.field_item(s, k - 1, f))
                } else {
                    before
                },
                _ => before,
            }
        }
    }

    /// The first field of `def` among the first `k` declarations whose type
    /// has no mapped type.
    pub open spec fn first_broken_field(&self, s: Seq<bool>, def: int, k: int) -> Option<int>
        decreases k,
    {
        if k <= 0 || k > self.len() {
            None
        } else {
            match self.first_broken_field(s, def, k - 1) {
                Some(x) => Some(x),
                None => match self.decls@[k - 1].kind {
                    DeclKind::Field(f) => if self.decls@[k - 1].parent == Some(def as usize)
                        && !self.mappable(s, f.ty) {
                        Some(k - 1)
                    } else {
                        None
                    },
                    _ => None,
                },
            }
        }
    }

    /// The sentence that says that the field that declaration `k` declares
    /// has a type without a mapped type.
    pub open spec fn field_failure(&self, s: Seq<bool>, k: int) -> Seq<char> {
        match self.decls@[k].kind {
            DeclKind::Field(f) => "UNIMPLEMENTED: Type of field '"@ + self.own_name(k)
                + "' is not supported: "@ + self.type_failure(s, f.ty),
            _ => Seq::empty(),
        }
    }

    /// Whether the base class `b` is listed with the record: it is public
    /// and unambiguous, and its declaration has bindings.
    pub open spec fn base_listed(&self, s: Seq<bool>, b: BaseSpecifier) -> bool {
        b.is_public && b.is_unambiguous && b.base < self.len() && supported_at(
            s,
            self.canon(b.base as int),
        )
    }

    /// The base classes listed with a record, of the first `k` of `bases`.
    pub open spec fn bases_before(&self, s: Seq<bool>, bases: Seq<BaseSpecifier>, k: int) -> Seq<
        BaseClass,
    >
        decreases k,
    {
        if k <= 0 || k > bases.len() {
            Seq::empty()
        } else {
            let before = self.bases_before(s, bases, k - 1);
            let b = bases[k - 1];
            if self.base_listed(s, b) {
                before.push(
                    BaseClass { base_record_id: item_id(self.canon(b.base as int)), offset: b.offset },
                )
            } else {
                before
            }
        }
    }

    /// The item of the record with the canonical declaration `i`, defined by
    /// declaration `def` as `r`, with the items `children` inside it.
    pub open spec fn record_item(
        &self,
        s: Seq<bool>,
        i: int,
        def: int,
        r: RecordDecl,
        children: Seq<ItemId>,
    ) -> RecordModel {
        RecordModel {
            rs_name: record_rs_name(r),
            cc_name: r.name@,
            id: item_id(i),
            owning_target: self.effective_owner(i),
            doc_comment: doc_text_of(self.decls@[def].doc_comment),
            unambiguous_public_bases: self.bases_before(s, r.bases@, r.bases@.len() as int),
            fields: self.fields_before(s, def, self.len()),
            copy_constructor: special_member(r.copy_constructor),
            move_constructor: special_member(r.move_constructor),
            destructor: special_member(r.destructor),
            size: r.size,
            alignment: r.alignment,
            is_union: r.tag == RecordTag::Union,
            override_alignment: overrides_alignment(r),
            is_derived_class: r.bases@.len() > 0,
            child_item_ids: children,
            enclosing_namespace_id: self.namespace_id(i),
        }
    }

    /// The item of the record with the canonical declaration `i`, declared
    /// as `r` and defined nowhere in the unit.
    pub open spec fn incomplete_record_item(&self, i: int, r: RecordDecl) -> IncompleteRecordModel {
        IncompleteRecordModel {
            cc_name: r.name@,
            id: item_id(i),
            owning_target: self.effective_owner(i),
            enclosing_namespace_id: self.namespace_id(i),
        }
    }

    /// Why the record with the canonical declaration `i` cannot be bound,
    /// where it cannot.
    pub open spec fn record_failure(&self, s: Seq<bool>, i: int) -> Seq<char> {
        if self.nested_in_record(i) {
            "Nested classes are not supported yet"@
        } else {
            match self.definition_of(i) {
                Some(def) => match self.first_broken_field(s, def as int, self.len()) {
                    Some(k) => self.field_failure(s, k),
                    None => "No generated bindings found for '"@ + self.own_name(i) + "'"@,
                },
                None => "No generated bindings found for '"@ + self.own_name(i) + "'"@,
            }
        }
    }

    /// The base classes listed with a record that has the bases `bases`.
    pub fn import_bases(&self, support: &Vec<bool>, bases: &Vec<BaseSpecifier>) -> (r: Vec<BaseClass>)
        ensures
            r@ == self.bases_before(support@, bases@, bases@.len() as int),
    {
        let mut r: Vec<BaseClass> = Vec::new();
        let mut k: usize = 0;
        while k < bases.len()
            invariant
                0 <= k <= bases.len(),
                r@ == self.bases_before(support@, bases@, k as int),
            decreases bases.len() - k,
        {
            let b = &bases[k];
            if b.is_public && b.is_unambiguous && b.base < self.decls.len() {
                let c = self.decls[b.base].canonical;
                if c < support.len() && support[c] {
                    r.push(BaseClass { base_record_id: ItemId::of_decl(c), offset: b.offset });
                }
            }
            k += 1;
        }
        r
    }

    /// The item's fields for the fields of the record definition `def`, or
    /// the sentence that says which field has a type without a mapped type.
    pub(crate) fn import_fields(&self, outline: &Outline, support: &Vec<bool>, def: usize) -> (r: Result<
        Vec<Field>,
        String,
    >)
        requires
            self.well_formed(),
            outline.describes(self),
        ensures
            match r {
                Ok(v) => self.first_broken_field(support@, def as int, self.len()) is None
                    && field_views(v@) == self.fields_before(support@, def as int, self.len()),
                Err(m) => self.first_broken_field(support@, def as int, self.len()) matches Some(k)
                    && m@ == self.field_failure(support@, k),
            },
    {
        let n = self.decls.len();
        let mut fields: Vec<Field> = Vec::new();
        let mut k: usize = 0;
        assert(field_views(fields@) =~= self.fields_before(support@, def as int, 0));
        while k < n
            invariant
                self.well_formed(),
                outline.describes(self),
                n == self.decls.len(),
                0 <= k <= n,
                self.first_broken_field(support@, def as int, k as int) is None,
                field_views(fields@) == self.fields_before(support@, def as int, k as int),
            decreases n - k,
        {
            let d = &self.decls[k];
            match &d.kind {
                DeclKind::Field(f) => {
                    if d.parent == Some(def) {
                        match self.convert_type(support, &f.ty) {
                            Ok(type_) => {
                                let ghost before = field_views(fields@);
                                let field = Field {
                                    identifier: match &f.name {
                                        Some(n) => Some(Identifier { identifier: n.clone() }),
                                        None => None,
                                    },
                                    doc_comment: normalize_opt(&d.doc_comment),
                                    type_,
                                    access: outline.access[k],
                                    offset: f.offset,
                                    size: f.size,
                                };
                                assert(field@ == self.field_item(support@, k as int, *f));
                                fields.push(field);
                                assert(field_views(fields@) =~= before.push(field@));
                            },
                            Err(e) => {
                                let mut m = String::from_str("UNIMPLEMENTED: Type of field '");
                                let name = self.own_name_of(k);
                                m.append(name.as_str());
                                m.append("' is not supported: ");
                                let why = e.message();
                                m.append(why.as_str());
                                proof {
                                    self.lemma_first_broken_field_stays(
                                        support@,
                                        def as int,
                                        k + 1,
                                    );
                                }
                                return Err(m);
                            },
                        }
                    }
                },
                _ => {},
            }
            k += 1;
        }
        Ok(fields)
    }

    /// Once a field without a mapped type is found, it stays the first.
    pub proof fn lemma_first_broken_field_stays(&self, s: Seq<bool>, def: int, k: int)
        requires
            0 <= k <= self.len(),
            self.first_broken_field(s, def, k) is Some,
        ensures
            self.first_broken_field(s, def, self.len()) == self.first_broken_field(s, def, k),
        decreases self.len() - k,
    {
        if k < self.len() {
            self.lemma_first_broken_field_stays(s, def, k + 1);
        }
    }

    /// If one of the first `k` declarations breaks `c`, so does one of all.
    pub proof fn lemma_broken_before_grows(&self, s: Seq<bool>, c: int, k: int)
        requires
            0 <= k <= self.len(),
            self.broken_before(s, c, k),
        ensures
            self.broken_before(s, c, self.len()),
        decreases self.len() - k,
    {
        if k < self.len() {
            self.lemma_broken_before_grows(s, c, k + 1);
        }
    }

    /// A record that keeps its bindings has no field whose type has no
    /// mapped type.
    pub proof fn lemma_supported_record_fields(&self, s: Seq<bool>, c: int, def: int, k: int)
        requires
            self.well_formed(),
            0 <= c < self.len(),
            0 <= k <= self.len(),
            self.canon(def) == c,
            0 <= def < self.len(),
            self.definition_of(c) == Some(def as usize),
            !self.broken_before(s, c, self.len()),
        ensures
            self.first_broken_field(s, def, k) is None,
        decreases k,
    {
        if k > 0 {
            self.lemma_supported_record_fields(s, c, def, k - 1);
            match self.decls@[k - 1].kind {
                DeclKind::Field(f) => {
                    if self.decls@[k - 1].parent == Some(def as usize) && !self.mappable(s, f.ty) {
                        assert(self.holder(k - 1) == Some(c as usize));
                        assert(self.breaks(s, k - 1, c));
                        assert(self.broken_before(s, c, k));
                        self.lemma_broken_before_grows(s, c, k);
                    }
                },
                _ => {},
            }
        }
    }
}

} // verus!
