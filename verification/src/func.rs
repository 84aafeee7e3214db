//! Functions and member functions.
//!
//! A function is bound unless it has no name to be bound under, is a member
//! of a record that has no bindings, or has a return type or a parameter type
//! without a mapped type.

use vstd::prelude::*;
use vstd::string::*;
use crate::comment::doc_text_of;
use crate::comment::normalize_opt;
use crate::decl::DeclGraph;
use crate::decl::DeclKind;
use crate::decl::DeclName;
use crate::decl::FunctionDecl;
use crate::decl::InstanceMethodDecl;
use crate::decl::LifetimeName;
use crate::decl::NativeType;
use crate::decl::ParamDecl;
use crate::decl::SourceLoc;
use crate::ident::item_id;
use crate::ident::name_param;
use crate::ident::param_identifier;
use crate::ident::this_identifier;
use crate::ident::this_name;
use crate::ident::translate_name;
use crate::ident::translated_name;
use crate::ident::ItemId;
use crate::ir::Func;
use crate::ir::FuncModel;
use crate::ir::FuncParam;
use crate::ir::FuncParamModel;
use crate::ir::InstanceMethodMetadata;
use crate::ir::MappedType;
use crate::ir::MappedTypeModel;
use crate::ir::MemberFuncMetadata;
use crate::names::escaped_label;
use crate::names::push_escaped_label;
use crate::scope::Outline;
use crate::text::decimal;
use crate::text::push_decimal;
use crate::types::object_pointer_type;
use crate::types::supported_at;

verus! {

/// Whether a member function called `name` is one of the members that are
/// bound whatever their access: a constructor, the destructor, or an
/// assignment operator.
pub open spec fn is_special_member(name: DeclName) -> bool {
    match name {
        DeclName::Constructor => true,
        DeclName::Destructor => true,
        DeclName::Operator(op) => op@ == "="@,
        _ => false,
    }
}

/// Whether a member function called `name` is one of the members that are
/// bound whatever their access.
pub fn check_special_member(name: &DeclName) -> (r: bool)
    ensures
        r == is_special_member(*name),
{
    match name {
        DeclName::Constructor => true,
        DeclName::Destructor => true,
        DeclName::Operator(op) => *op == String::from_str("="),
        _ => false,
    }
}

/// What the item of an instance method records of it.
pub open spec fn instance_metadata(m: InstanceMethodDecl) -> InstanceMethodMetadata {
    InstanceMethodMetadata {
        reference: m.reference,
        is_const: m.is_const,
        is_virtual: m.is_virtual,
        is_explicit_ctor: m.is_explicit_ctor,
    }
}

/// The lifetime parameters as ghost values.
pub open spec fn lifetime_views(l: Seq<LifetimeName>) -> Seq<crate::ir::LifetimeNameModel> {
    l.map_values(|x: LifetimeName| x@)
}

/// The parameters as ghost values.
pub open spec fn param_views(l: Seq<FuncParam>) -> Seq<FuncParamModel> {
    l.map_values(|x: FuncParam| x@)
}

fn copy_lifetimes(l: &Vec<LifetimeName>) -> (r: Vec<LifetimeName>)
    ensures
        lifetime_views(r@) == lifetime_views(l@),
{
    let mut r: Vec<LifetimeName> = Vec::new();
    let mut i: usize = 0;
    while i < l.len()
        invariant
            0 <= i <= l.len(),
            r@.len() == i,
            forall|j: int| 0 <= j < i ==> (#[trigger] r@[j])@ == l@[j]@,
        decreases l.len() - i,
    {
        r.push(LifetimeName { name: l[i].name.clone(), id: l[i].id });
        i += 1;
    }
    assert(lifetime_views(r@) =~= lifetime_views(l@));
    r
}

fn copy_source_loc(l: &SourceLoc) -> (r: SourceLoc)
    ensures
        r@ == l@,
{
    SourceLoc { filename: l.filename.clone(), line: l.line, column: l.column }
}

impl DeclGraph {
    /// The mapped type of `t`, where it has one.
    pub open spec fn mapped(&self, s: Seq<bool>, t: NativeType) -> MappedTypeModel {
        match self.map_type(s, t) {
            Ok(m) => m,
            Err(_) => arbitrary(),
        }
    }

    /// The sentence that says why `t` has no mapped type, where it has none.
    pub open spec fn type_failure(&self, s: Seq<bool>, t: NativeType) -> Seq<char> {
        match self.map_type(s, t) {
            Ok(_) => Seq::empty(),
            Err(e) => e.message(),
        }
    }

    /// The first of the first `k` parameters whose type has no mapped type.
    pub open spec fn first_unmapped(&self, s: Seq<bool>, params: Seq<ParamDecl>, k: int) -> Option<
        int,
    >
        decreases k,
    {
        if k <= 0 || k > params.len() {
            None
        } else {
            match self.first_unmapped(s, params, k - 1) {
                Some(x) => Some(x),
                None => if self.mappable(s, params[k - 1].ty) {
                    None
                } else {
                    Some(k - 1)
                },
            }
        }
    }

    /// The canonical declaration of the record that declaration `i` is a
    /// member of.
    pub open spec fn record_of(&self, i: int) -> int {
        match self.decls@[i].parent {
            Some(p) => self.canon(p as int),
            None => 0,
        }
    }

    /// Why the function `f`, declared by declaration `i`, cannot be bound,
    /// if it cannot.
    pub open spec fn function_failure(&self, s: Seq<bool>, i: int, f: FunctionDecl) -> Option<
        Seq<char>,
    > {
        if translated_name(f.name) is None {
            Some("Functions without a name are not supported"@)
        } else if self.nested_in_record(i) && !supported_at(s, self.record_of(i)) {
            Some(
                "No generated bindings found for the enclosing record '"@ + self.record_around(i)
                    + "'"@,
            )
        } else if !self.mappable(s, f.return_type) {
            Some("Return type is not supported: "@ + self.type_failure(s, f.return_type))
        } else {
            match self.first_unmapped(s, f.params@, f.params@.len() as int) {
                Some(k) => Some(
                    "Parameter #"@ + decimal(k as nat) + " is not supported: "@ + self.type_failure(
                        s,
                        f.params@[k].ty,
                    ),
                ),
                None => None,
            }
        }
    }

    /// The parameter that stands for the object of an instance method of
    /// the record with the canonical declaration `record`.
    pub open spec fn this_param(&self, record: int, m: InstanceMethodDecl) -> FuncParamModel {
        FuncParamModel {
            type_: object_pointer_type(item_id(record), m.is_const, m.this_lifetime),
            identifier: this_name(),
        }
    }

    /// The item's parameter for the declared parameter at position `k`.
    pub open spec fn mapped_param(&self, s: Seq<bool>, p: ParamDecl, k: int) -> FuncParamModel {
        FuncParamModel { type_: self.mapped(s, p.ty), identifier: param_identifier(p.name, k as nat) }
    }

    /// The item's parameters for the declared parameters.
    pub open spec fn mapped_params(&self, s: Seq<bool>, params: Seq<ParamDecl>) -> Seq<
        FuncParamModel,
    > {
        Seq::new(params.len(), |k: int| self.mapped_param(s, params[k], k))
    }

    /// The parameters of the item of the function `f`: for an instance
    /// method the object first, then the declared parameters.
    pub open spec fn func_params(&self, s: Seq<bool>, i: int, f: FunctionDecl) -> Seq<
        FuncParamModel,
    > {
        match f.instance {
            Some(m) => if self.nested_in_record(i) {
                seq![self.this_param(self.record_of(i), m)] + self.mapped_params(s, f.params@)
            } else {
                self.mapped_params(s, f.params@)
            },
            None => self.mapped_params(s, f.params@),
        }
    }

    /// The linkage name of the function `f`. A member of an instantiated
    /// class template gets the label of the owning target appended, so that
    /// instantiations in different targets do not collide.
    pub open spec fn linkage_name(&self, i: int, f: FunctionDecl) -> Seq<char> {
        match self.decls@[i].parent {
            Some(p) => if self.is_specialization(p as int) {
                f.mangled_name@ + "_"@ + escaped_label(self.effective_owner(i))
            } else {
                f.mangled_name@
            },
            None => f.mangled_name@,
        }
    }

    /// The namespace that the item of declaration `i` records as the one
    /// around it.
    pub open spec fn namespace_id(&self, i: int) -> Option<ItemId> {
        match self.enclosing_namespace(i) {
            Some(n) => Some(item_id(n as int)),
            None => None,
        }
    }

    /// The item of the function `f`, declared by declaration `i`, where it
    /// can be bound.
    pub open spec fn func_item(&self, s: Seq<bool>, i: int, f: FunctionDecl) -> FuncModel {
        FuncModel {
            name: match translated_name(f.name) {
                Some(n) => n,
                None => arbitrary(),
            },
            owning_target: self.effective_owner(i),
            mangled_name: self.linkage_name(i, f),
            doc_comment: doc_text_of(self.decls@[i].doc_comment),
            return_type: self.mapped(s, f.return_type),
            params: self.func_params(s, i, f),
            lifetime_params: lifetime_views(f.lifetime_params@),
            has_c_calling_convention: f.has_default_calling_convention,
            member_func_metadata: if self.nested_in_record(i) {
                Some(
                    MemberFuncMetadata {
                        record_id: item_id(self.record_of(i)),
                        instance_method_metadata: match f.instance {
                            Some(m) => Some(instance_metadata(m)),
                            None => None,
                        },
                    },
                )
            } else {
                None
            },
            source_loc: f.source_loc@,
            id: item_id(i),
            enclosing_namespace_id: self.namespace_id(i),
        }
    }

    /// The namespace that the item of declaration `i` records as the one
    /// around it.
    pub(crate) fn namespace_id_of(&self, outline: &Outline, i: usize) -> (r: Option<ItemId>)
        requires
            self.well_formed(),
            outline.describes(self),
            i < self.decls.len(),
        ensures
            r == self.namespace_id(i as int),
    {
        match outline.namespace[i] {
            Some(n) => {
                proof {
                    self.lemma_namespace_in_range(i as int);
                }
                Some(ItemId::of_decl(n))
            },
            None => None,
        }
    }

    /// The namespace around a declaration is one of the declarations.
    pub proof fn lemma_namespace_in_range(&self, i: int)
        requires
            self.well_formed(),
            0 <= i < self.len(),
        ensures
            self.enclosing_namespace(i) matches Some(n) ==> n < self.len(),
        decreases i,
    {
        assert(self.decl_valid(i));
        match self.decls@[i].parent {
            Some(p) => {
                assert(self.decl_valid(p as int));
                if !(self.decls@[p as int].kind is Namespace) {
                    self.lemma_namespace_in_range(p as int);
                }
            },
            None => {},
        }
    }

    /// The linkage name of the function `f`.
    fn linkage_name_of(&self, outline: &Outline, i: usize, f: &FunctionDecl) -> (r: String)
        requires
            self.well_formed(),
            outline.describes(self),
            i < self.decls.len(),
        ensures
            r@ == self.linkage_name(i as int, *f),
    {
        assert(self.decl_valid(i as int));
        let in_instantiation = match self.decls[i].parent {
            Some(p) => match &self.decls[p].kind {
                DeclKind::Record(r) => r.specialization.is_some(),
                _ => false,
            },
            None => false,
        };
        let mut r = f.mangled_name.clone();
        if in_instantiation {
            r.append("_");
            let owner = self.effective_owner_of(outline, i);
            push_escaped_label(&mut r, owner.as_str());
        }
        r
    }

    /// The item's parameters for the declared parameters of `f`, after
    /// `start`, or why the function cannot be bound.
    fn import_params(&self, support: &Vec<bool>, f: &FunctionDecl, start: Vec<FuncParam>) -> (r:
        Result<Vec<FuncParam>, String>)
        ensures
            match r {
                Ok(v) => self.first_unmapped(support@, f.params@, f.params@.len() as int) is None
                    && param_views(v@) == param_views(start@) + self.mapped_params(
                    support@,
                    f.params@,
                ),
                Err(m) => self.first_unmapped(support@, f.params@, f.params@.len() as int) matches Some(
                    k,
                ) && m@ == "Parameter #"@ + decimal(k as nat) + " is not supported: "@
                    + self.type_failure(support@, f.params@[k].ty),
            },
    {
        let ghost first = param_views(start@);
        let mut params = start;
        let mut k: usize = 0;
        assert(param_views(params@) =~= first + self.mapped_params(support@, f.params@).take(0));
        while k < f.params.len()
            invariant
                0 <= k <= f.params.len(),
                self.first_unmapped(support@, f.params@, k as int) is None,
                param_views(params@) == first + self.mapped_params(support@, f.params@).take(
                    k as int,
                ),
            decreases f.params.len() - k,
        {
            let p = &f.params[k];
            match self.convert_type(support, &p.ty) {
                Ok(type_) => {
                    let ghost before = param_views(params@);
                    let param = FuncParam { type_, identifier: name_param(&p.name, k) };
                    assert(param@ == self.mapped_param(support@, *p, k as int));
                    params.push(param);
                    assert(param_views(params@) =~= before.push(param@));
                    assert(self.mapped_params(support@, f.params@).take(k + 1)
                        =~= self.mapped_params(support@, f.params@).take(k as int).push(param@));
                    assert(param_views(params@) =~= first + self.mapped_params(
                        support@,
                        f.params@,
                    ).take(k + 1));
                },
                Err(e) => {
                    let mut m = String::from_str("Parameter #");
                    push_decimal(&mut m, k);
                    m.append(" is not supported: ");
                    let why = e.message();
                    m.append(why.as_str());
                    proof {
                        self.lemma_first_unmapped_stays(support@, f.params@, k + 1);
                    }
                    return Err(m);
                },
            }
            k += 1;
        }
        assert(self.mapped_params(support@, f.params@).take(k as int) =~= self.mapped_params(
            support@,
            f.params@,
        ));
        Ok(params)
    }

    /// Once a parameter without a mapped type is found, it stays the first.
    proof fn lemma_first_unmapped_stays(&self, s: Seq<bool>, params: Seq<ParamDecl>, k: int)
        requires
            0 <= k <= params.len(),
            self.first_unmapped(s, params, k) is Some,
        ensures
            self.first_unmapped(s, params, params.len() as int) == self.first_unmapped(s, params, k),
        decreases params.len() - k,
    {
        if k < params.len() {
            self.lemma_first_unmapped_stays(s, params, k + 1);
        }
    }

    /// The item of the function that declaration `i` declares, or why the
    /// function cannot be bound.
    pub(crate) fn import_function(&self, outline: &Outline, support: &Vec<bool>, i: usize) -> (r: Result<
        Func,
        String,
    >)
        requires
            self.well_formed(),
            outline.describes(self),
            i < self.decls.len(),
            self.decls@[i as int].kind is Function,
        ensures
            match r {
                Ok(func) => self.function_failure(
                    support@,
                    i as int,
                    self.decls@[i as int].kind->Function_0,
                ) is None && func@ == self.func_item(
                    support@,
                    i as int,
                    self.decls@[i as int].kind->Function_0,
                ),
                Err(m) => self.function_failure(
                    support@,
                    i as int,
                    self.decls@[i as int].kind->Function_0,
                ) == Some(m@),
            },
    {
        assert(self.decl_valid(i as int));
        let d = &self.decls[i];
        let f = match &d.kind {
            DeclKind::Function(f) => f,
            _ => unreached(),
        };
        let name = match translate_name(&f.name) {
            Some(n) => n,
            None => {
                return Err(String::from_str("Functions without a name are not supported"));
            },
        };
        let record = match d.parent {
            Some(p) => {
                assert(self.decl_valid(p as int));
                match &self.decls[p].kind {
                    DeclKind::Record(r) => Some((self.decls[p].canonical, &r.name)),
                    _ => None,
                }
            },
            None => None,
        };
        let mut start: Vec<FuncParam> = Vec::new();
        let mut metadata: Option<MemberFuncMetadata> = None;
        match record {
            Some((c, record_name)) => {
                if !(c < support.len() && support[c]) {
                    let mut m = String::from_str(
                        "No generated bindings found for the enclosing record '",
                    );
                    m.append(record_name.as_str());
                    m.append("'");
                    return Err(m);
                }
                let record_id = ItemId::of_decl(c);
                let instance = match f.instance {
                    Some(m) => {
                        let this = FuncParam {
                            type_: MappedType::object_pointer(record_id, m.is_const, m.this_lifetime),
                            identifier: this_identifier(),
                        };
                        start.push(this);
                        Some(
                            InstanceMethodMetadata {
                                reference: m.reference,
                                is_const: m.is_const,
                                is_virtual: m.is_virtual,
                                is_explicit_ctor: m.is_explicit_ctor,
                            },
                        )
                    },
                    None => None,
                };
                metadata = Some(MemberFuncMetadata { record_id, instance_method_metadata: instance });
            },
            None => {},
        }
        let return_type = match self.convert_type(support, &f.return_type) {
            Ok(t) => t,
            Err(e) => {
                let mut m = String::from_str("Return type is not supported: ");
                let why = e.message();
                m.append(why.as_str());
                return Err(m);
            },
        };
        let ghost first = param_views(start@);
        let params = match self.import_params(support, f, start) {
            Ok(v) => v,
            Err(m) => {
                return Err(m);
            },
        };
        proof {
            let expected = self.func_params(support@, i as int, *f);
            if self.nested_in_record(i as int) && f.instance is Some {
                assert(first =~= seq![self.this_param(self.record_of(i as int), f.instance->0)]);
            } else {
                assert(first =~= Seq::<FuncParamModel>::empty());
            }
            assert(param_views(params@) =~= expected);
        }
        let func = Func {
            name,
            owning_target: self.effective_owner_of(outline, i),
            mangled_name: self.linkage_name_of(outline, i, f),
            doc_comment: normalize_opt(&d.doc_comment),
            return_type,
            params,
            lifetime_params: copy_lifetimes(&f.lifetime_params),
            has_c_calling_convention: f.has_default_calling_convention,
            member_func_metadata: metadata,
            source_loc: copy_source_loc(&f.source_loc),
            id: ItemId::of_decl(i),
            enclosing_namespace_id: self.namespace_id_of(outline, i),
        };
        Ok(func)
    }
}

} // verus!
