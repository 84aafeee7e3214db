//! Maps native types across the language boundary.
//!
//! A native type either has a mapped type, which pairs a description of the
//! native type with one of the target type that stands for it, or it has none
//! and the declaration that uses it cannot be bound.

use vstd::prelude::*;
use vstd::string::*;
use crate::decl::Builtin;
use crate::decl::DeclGraph;
use crate::decl::DeclKind;
use crate::decl::LifetimeId;
use crate::decl::NativeType;
use crate::decl::TypeShape;
use crate::ident::item_id;
use crate::ident::ItemId;
use crate::ir::CcType;
use crate::ir::CcTypeModel;
use crate::ir::MappedType;
use crate::ir::MappedTypeModel;
use crate::ir::RsType;
use crate::ir::RsTypeModel;

verus! {

/// Why a native type has no mapped type.
#[derive(Debug, PartialEq, Eq)]
pub enum TypeError {
    /// The type, or a type it is built from, is volatile.
    Volatile { spelling: String },
    /// No mapping is defined for a type of this shape.
    Unmapped { spelling: String },
    /// The type names a declaration that has no bindings.
    NoBindings { spelling: String, name: String },
}

/// The model of [`TypeError`].
pub enum TypeErrorModel {
    Volatile { spelling: Seq<char> },
    Unmapped { spelling: Seq<char> },
    NoBindings { spelling: Seq<char>, name: Seq<char> },
}

impl View for TypeError {
    type V = TypeErrorModel;

    open spec fn view(&self) -> TypeErrorModel {
        match self {
            TypeError::Volatile { spelling } => TypeErrorModel::Volatile { spelling: spelling@ },
            TypeError::Unmapped { spelling } => TypeErrorModel::Unmapped { spelling: spelling@ },
            TypeError::NoBindings { spelling, name } => TypeErrorModel::NoBindings {
                spelling: spelling@,
                name: name@,
            },
        }
    }
}

impl TypeErrorModel {
    /// The sentence that reports the error.
    pub open spec fn message(self) -> Seq<char> {
        match self {
            TypeErrorModel::Volatile { spelling } => "Unsupported type '"@ + spelling
                + "': volatile qualifier is not supported"@,
            TypeErrorModel::Unmapped { spelling } => "Unsupported type '"@ + spelling + "'"@,
            TypeErrorModel::NoBindings { spelling, name } => "Unsupported type '"@ + spelling
                + "': No generated bindings found for '"@ + name + "'"@,
        }
    }
}

impl TypeError {
    /// The sentence that reports the error.
    pub fn message(&self) -> (m: String)
        ensures
            m@ == self@.message(),
    {
        let mut m = String::from_str("Unsupported type '");
        match self {
            TypeError::Volatile { spelling } => {
                m.append(spelling.as_str());
                m.append("': volatile qualifier is not supported");
            },
            TypeError::Unmapped { spelling } => {
                m.append(spelling.as_str());
                m.append("'");
            },
            TypeError::NoBindings { spelling, name } => {
                m.append(spelling.as_str());
                m.append("': No generated bindings found for '");
                m.append(name.as_str());
                m.append("'");
            },
        }
        m
    }
}

/// The target type that stands for a builtin type.
pub open spec fn rs_builtin(b: Builtin) -> Seq<char> {
    match b {
        Builtin::Void => "()"@,
        Builtin::Bool => "bool"@,
        Builtin::Char => "i8"@,
        Builtin::SignedChar => "i8"@,
        Builtin::UnsignedChar => "u8"@,
        Builtin::Char16 => "u16"@,
        Builtin::Char32 => "u32"@,
        Builtin::WChar => "i32"@,
        Builtin::Short => "i16"@,
        Builtin::Int => "i32"@,
        Builtin::Long => "i64"@,
        Builtin::LongLong => "i64"@,
        Builtin::UnsignedShort => "u16"@,
        Builtin::UnsignedInt => "u32"@,
        Builtin::UnsignedLong => "u64"@,
        Builtin::UnsignedLongLong => "u64"@,
        Builtin::Float => "f32"@,
        Builtin::Double => "f64"@,
    }
}

/// The native name of a builtin type.
pub open spec fn cc_builtin(b: Builtin) -> Seq<char> {
    match b {
        Builtin::Void => "void"@,
        Builtin::Bool => "bool"@,
        Builtin::Char => "char"@,
        Builtin::SignedChar => "signed char"@,
        Builtin::UnsignedChar => "unsigned char"@,
        Builtin::Char16 => "char16_t"@,
        Builtin::Char32 => "char32_t"@,
        Builtin::WChar => "wchar_t"@,
        Builtin::Short => "short"@,
        Builtin::Int => "int"@,
        Builtin::Long => "long"@,
        Builtin::LongLong => "long long"@,
        Builtin::UnsignedShort => "unsigned short"@,
        Builtin::UnsignedInt => "unsigned int"@,
        Builtin::UnsignedLong => "unsigned long"@,
        Builtin::UnsignedLongLong => "unsigned long long"@,
        Builtin::Float => "float"@,
        Builtin::Double => "double"@,
    }
}

/// The target type that stands for a builtin type.
pub fn rs_builtin_name(b: Builtin) -> (s: &'static str)
    ensures
        s@ == rs_builtin(b),
{
    match b {
        Builtin::Void => "()",
        Builtin::Bool => "bool",
        Builtin::Char => "i8",
        Builtin::SignedChar => "i8",
        Builtin::UnsignedChar => "u8",
        Builtin::Char16 => "u16",
        Builtin::Char32 => "u32",
        Builtin::WChar => "i32",
        Builtin::Short => "i16",
        Builtin::Int => "i32",
        Builtin::Long => "i64",
        Builtin::LongLong => "i64",
        Builtin::UnsignedShort => "u16",
        Builtin::UnsignedInt => "u32",
        Builtin::UnsignedLong => "u64",
        Builtin::UnsignedLongLong => "u64",
        Builtin::Float => "f32",
        Builtin::Double => "f64",
    }
}

/// The native name of a builtin type.
pub fn cc_builtin_name(b: Builtin) -> (s: &'static str)
    ensures
        s@ == cc_builtin(b),
{
    match b {
        Builtin::Void => "void",
        Builtin::Bool => "bool",
        Builtin::Char => "char",
        Builtin::SignedChar => "signed char",
        Builtin::UnsignedChar => "unsigned char",
        Builtin::Char16 => "char16_t",
        Builtin::Char32 => "char32_t",
        Builtin::WChar => "wchar_t",
        Builtin::Short => "short",
        Builtin::Int => "int",
        Builtin::Long => "long",
        Builtin::LongLong => "long long",
        Builtin::UnsignedShort => "unsigned short",
        Builtin::UnsignedInt => "unsigned int",
        Builtin::UnsignedLong => "unsigned long",
        Builtin::UnsignedLongLong => "unsigned long long",
        Builtin::Float => "float",
        Builtin::Double => "double",
    }
}

/// The target type that stands for the well-known alias called `name`, if
/// `name` is the name of one.
pub open spec fn fixed_width(name: Seq<char>) -> Option<Seq<char>> {
    if name == "int8_t"@ {
        Some("i8"@)
    } else if name == "int16_t"@ {
        Some("i16"@)
    } else if name == "int32_t"@ {
        Some("i32"@)
    } else if name == "int64_t"@ {
        Some("i64"@)
    } else if name == "uint8_t"@ {
        Some("u8"@)
    } else if name == "uint16_t"@ {
        Some("u16"@)
    } else if name == "uint32_t"@ {
        Some("u32"@)
    } else if name == "uint64_t"@ {
        Some("u64"@)
    } else if name == "ptrdiff_t"@ {
        Some("isize"@)
    } else if name == "intptr_t"@ {
        Some("isize"@)
    } else if name == "size_t"@ {
        Some("usize"@)
    } else if name == "uintptr_t"@ {
        Some("usize"@)
    } else {
        None
    }
}

fn text_is(s: &String, literal: &str) -> (r: bool)
    ensures
        r == (s@ == literal@),
{
    *s == String::from_str(literal)
}

/// The target type that stands for the well-known alias called `name`, if
/// `name` is the name of one.
pub fn fixed_width_name(name: &String) -> (r: Option<&'static str>)
    ensures
        match r {
            Some(s) => fixed_width(name@) == Some(s@),
            None => fixed_width(name@) is None,
        },
{
    if text_is(name, "int8_t") {
        Some("i8")
    } else if text_is(name, "int16_t") {
        Some("i16")
    } else if text_is(name, "int32_t") {
        Some("i32")
    } else if text_is(name, "int64_t") {
        Some("i64")
    } else if text_is(name, "uint8_t") {
        Some("u8")
    } else if text_is(name, "uint16_t") {
        Some("u16")
    } else if text_is(name, "uint32_t") {
        Some("u32")
    } else if text_is(name, "uint64_t") {
        Some("u64")
    } else if text_is(name, "ptrdiff_t") {
        Some("isize")
    } else if text_is(name, "intptr_t") {
        Some("isize")
    } else if text_is(name, "size_t") {
        Some("usize")
    } else if text_is(name, "uintptr_t") {
        Some("usize")
    } else {
        None
    }
}

/// The mapped type of a type that has a name on both sides.
pub open spec fn named_type(rs: Seq<char>, cc: Seq<char>, is_const: bool) -> MappedTypeModel {
    MappedTypeModel {
        rs_type: RsTypeModel { name: Some(rs), lifetime_args: seq![], type_args: seq![], decl_id: None },
        cc_type: CcTypeModel { name: Some(cc), is_const, type_args: seq![], decl_id: None },
    }
}

/// The mapped type of a type that is introduced by the declaration with the
/// item `id`.
pub open spec fn declared_type(id: ItemId, is_const: bool) -> MappedTypeModel {
    MappedTypeModel {
        rs_type: RsTypeModel {
            name: None,
            lifetime_args: seq![],
            type_args: seq![],
            decl_id: Some(id),
        },
        cc_type: CcTypeModel { name: None, is_const, type_args: seq![], decl_id: Some(id) },
    }
}

/// The target type of something that points to a `pointee`: a reference where
/// a lifetime is known, a raw pointer where none is.
pub open spec fn rs_indirection(pointee: MappedTypeModel, lifetime: Option<LifetimeId>) -> RsTypeModel {
    match lifetime {
        Some(l) => RsTypeModel {
            name: Some(if pointee.cc_type.is_const { "&"@ } else { "&mut"@ }),
            lifetime_args: seq![l],
            type_args: seq![pointee.rs_type],
            decl_id: None,
        },
        None => RsTypeModel {
            name: Some(if pointee.cc_type.is_const { "*const"@ } else { "*mut"@ }),
            lifetime_args: seq![],
            type_args: seq![pointee.rs_type],
            decl_id: None,
        },
    }
}

/// The mapped type of a pointer to `pointee`. With a lifetime the target
/// type is an optional reference, since a pointer may be null.
pub open spec fn pointer_type(
    pointee: MappedTypeModel,
    lifetime: Option<LifetimeId>,
    is_const: bool,
) -> MappedTypeModel {
    MappedTypeModel {
        rs_type: match lifetime {
            Some(_) => RsTypeModel {
                name: Some("Option"@),
                lifetime_args: seq![],
                type_args: seq![rs_indirection(pointee, lifetime)],
                decl_id: None,
            },
            None => rs_indirection(pointee, lifetime),
        },
        cc_type: CcTypeModel {
            name: Some("*"@),
            is_const,
            type_args: seq![pointee.cc_type],
            decl_id: None,
        },
    }
}

/// The mapped type of an lvalue reference to `pointee`.
pub open spec fn reference_type(
    pointee: MappedTypeModel,
    lifetime: Option<LifetimeId>,
    is_const: bool,
) -> MappedTypeModel {
    MappedTypeModel {
        rs_type: rs_indirection(pointee, lifetime),
        cc_type: CcTypeModel {
            name: Some("&"@),
            is_const,
            type_args: seq![pointee.cc_type],
            decl_id: None,
        },
    }
}

/// The mapped type of the pointer to the object that an instance method is
/// called on, where `id` is the item of its record.
pub open spec fn object_pointer_type(
    id: ItemId,
    is_const: bool,
    lifetime: Option<LifetimeId>,
) -> MappedTypeModel {
    MappedTypeModel {
        rs_type: rs_indirection(declared_type(id, is_const), lifetime),
        cc_type: CcTypeModel {
            name: Some("*"@),
            is_const: false,
            type_args: seq![declared_type(id, is_const).cc_type],
            decl_id: None,
        },
    }
}

fn one_rs(t: RsType) -> (v: Vec<RsType>)
    ensures
        v@ == seq![t],
{
    let mut v: Vec<RsType> = Vec::new();
    v.push(t);
    assert(v@ =~= seq![t]);
    v
}

fn one_cc(t: CcType) -> (v: Vec<CcType>)
    ensures
        v@ == seq![t],
{
    let mut v: Vec<CcType> = Vec::new();
    v.push(t);
    assert(v@ =~= seq![t]);
    v
}

fn new_rs(name: &str, lifetime_args: Vec<LifetimeId>, type_args: Vec<RsType>) -> (r: RsType)
    ensures
        r@ == (RsTypeModel {
            name: Some(name@),
            lifetime_args: lifetime_args@,
            type_args: type_args@.map_values(|t: RsType| t@),
            decl_id: None,
        }),
{
    let r = RsType { name: Some(String::from_str(name)), lifetime_args, type_args, decl_id: None };
    assert(r@.type_args =~= type_args@.map_values(|t: RsType| t@));
    r
}

fn new_cc(name: &str, is_const: bool, type_args: Vec<CcType>) -> (r: CcType)
    ensures
        r@ == (CcTypeModel {
            name: Some(name@),
            is_const,
            type_args: type_args@.map_values(|t: CcType| t@),
            decl_id: None,
        }),
{
    let r = CcType { name: Some(String::from_str(name)), is_const, type_args, decl_id: None };
    assert(r@.type_args =~= type_args@.map_values(|t: CcType| t@));
    r
}

impl MappedType {
    /// The mapped type of a type that has a name on both sides.
    pub fn named(rs: &str, cc: String, is_const: bool) -> (r: MappedType)
        ensures
            r@ == named_type(rs@, cc@, is_const),
    {
        let rs_type = new_rs(rs, Vec::new(), Vec::new());
        let cc_type = CcType { name: Some(cc), is_const, type_args: Vec::new(), decl_id: None };
        assert(rs_type@.type_args =~= seq![]);
        assert(cc_type@.type_args =~= seq![]);
        MappedType { rs_type, cc_type }
    }

    /// The mapped type of a type that is introduced by the declaration with
    /// the item `id`.
    pub fn declared(id: ItemId, is_const: bool) -> (r: MappedType)
        ensures
            r@ == declared_type(id, is_const),
    {
        let rs_type = RsType {
            name: None,
            lifetime_args: Vec::new(),
            type_args: Vec::new(),
            decl_id: Some(id),
        };
        let cc_type = CcType { name: None, is_const, type_args: Vec::new(), decl_id: Some(id) };
        assert(rs_type@.type_args =~= seq![]);
        assert(cc_type@.type_args =~= seq![]);
        MappedType { rs_type, cc_type }
    }

    fn indirection(pointee: RsType, pointee_const: bool, lifetime: Option<LifetimeId>) -> (r: RsType)
        ensures
            forall|m: MappedTypeModel|
                m.rs_type == pointee@ && m.cc_type.is_const == pointee_const ==> r@
                    == #[trigger] rs_indirection(m, lifetime),
    {
        let ghost inner = pointee@;
        let args = one_rs(pointee);
        assert(args@.map_values(|t: RsType| t@) =~= seq![inner]);
        match lifetime {
            Some(l) => {
                let mut lifetimes: Vec<LifetimeId> = Vec::new();
                lifetimes.push(l);
                assert(lifetimes@ =~= seq![l]);
                new_rs(if pointee_const { "&" } else { "&mut" }, lifetimes, args)
            },
            None => new_rs(if pointee_const { "*const" } else { "*mut" }, Vec::new(), args),
        }
    }

    /// The mapped type of a pointer to `pointee`.
    pub fn pointer_to(pointee: MappedType, lifetime: Option<LifetimeId>, is_const: bool) -> (r:
        MappedType)
        ensures
            r@ == pointer_type(pointee@, lifetime, is_const),
    {
        let ghost model = pointee@;
        let pointee_const = pointee.cc_type.is_const;
        let MappedType { rs_type: rs_inner, cc_type: cc_inner } = pointee;
        let cc_args = one_cc(cc_inner);
        assert(cc_args@.map_values(|t: CcType| t@) =~= seq![model.cc_type]);
        let cc_type = new_cc("*", is_const, cc_args);
        let direct = Self::indirection(rs_inner, pointee_const, lifetime);
        assert(direct@ == rs_indirection(model, lifetime));
        let rs_type = match lifetime {
            Some(_) => {
                let args = one_rs(direct);
                assert(args@.map_values(|t: RsType| t@) =~= seq![rs_indirection(model, lifetime)]);
                new_rs("Option", Vec::new(), args)
            },
            None => direct,
        };
        MappedType { rs_type, cc_type }
    }

    /// The mapped type of the pointer to the object that an instance method
    /// is called on, where `id` is the item of its record.
    pub fn object_pointer(id: ItemId, is_const: bool, lifetime: Option<LifetimeId>) -> (r:
        MappedType)
        ensures
            r@ == object_pointer_type(id, is_const, lifetime),
    {
        let pointee = Self::declared(id, is_const);
        let ghost model = pointee@;
        let MappedType { rs_type: rs_inner, cc_type: cc_inner } = pointee;
        let cc_args = one_cc(cc_inner);
        assert(cc_args@.map_values(|t: CcType| t@) =~= seq![model.cc_type]);
        let cc_type = new_cc("*", false, cc_args);
        let rs_type = Self::indirection(rs_inner, is_const, lifetime);
        assert(rs_type@ == rs_indirection(model, lifetime));
        MappedType { rs_type, cc_type }
    }

    /// The mapped type of an lvalue reference to `pointee`.
    pub fn reference_to(pointee: MappedType, lifetime: Option<LifetimeId>, is_const: bool) -> (r:
        MappedType)
        ensures
            r@ == reference_type(pointee@, lifetime, is_const),
    {
        let ghost model = pointee@;
        let pointee_const = pointee.cc_type.is_const;
        let MappedType { rs_type: rs_inner, cc_type: cc_inner } = pointee;
        let cc_args = one_cc(cc_inner);
        assert(cc_args@.map_values(|t: CcType| t@) =~= seq![model.cc_type]);
        let cc_type = new_cc("&", is_const, cc_args);
        let rs_type = Self::indirection(rs_inner, pointee_const, lifetime);
        assert(rs_type@ == rs_indirection(model, lifetime));
        MappedType { rs_type, cc_type }
    }
}

/// The names of a well-known alias on the two sides.
pub struct WellKnown {
    pub rs: Seq<char>,
    pub cc: Seq<char>,
}

/// Whether the set `support` holds the declaration `c`.
pub open spec fn supported_at(support: Seq<bool>, c: int) -> bool {
    0 <= c < support.len() && support[c]
}

impl DeclGraph {
    /// The plain name of the type that declaration `d` introduces.
    pub open spec fn declared_name(&self, d: int) -> Seq<char> {
        match self.decls@[d].kind {
            DeclKind::Record(r) => r.name@,
            DeclKind::TypeAlias { name, .. } => name@,
            DeclKind::Enum(e) => match e.name {
                Some(n) => n@,
                None => "(anonymous)"@,
            },
            _ => Seq::empty(),
        }
    }

    /// Whether declaration `p` is the namespace `std` at the outermost
    /// scope.
    pub open spec fn is_std_namespace(&self, p: int) -> bool {
        &&& 0 <= p < self.len()
        &&& self.decls@[p].parent is None
        &&& self.decls@[p].kind matches DeclKind::Namespace { name } && name@ == "std"@
    }

    /// The names, on the target side and on the native side, of the
    /// well-known alias that declaration `d` declares, if it declares one: an
    /// alias with one of the well-known names that stands at the outermost
    /// scope or directly in the namespace `std`. An alias of the same name
    /// anywhere else is an alias like any other.
    pub open spec fn well_known(&self, d: int) -> Option<WellKnown> {
        match self.decls@[d].kind {
            DeclKind::TypeAlias { name, .. } => match fixed_width(name@) {
                Some(rs) => match self.decls@[d].parent {
                    None => Some(WellKnown { rs, cc: name@ }),
                    Some(p) => if self.is_std_namespace(p as int) {
                        Some(WellKnown { rs, cc: "std::"@ + name@ })
                    } else {
                        None
                    },
                },
                None => None,
            },
            _ => None,
        }
    }

    /// The mapped type of `t`, or the reason why it has none, where
    /// `support` holds the canonical declarations that have bindings.
    ///
    /// A volatile type has none. A builtin type maps by name. A pointer or an
    /// lvalue reference wraps the mapped type of what it points to, and has
    /// none where that has none. A type that a declaration introduces is a
    /// well-known alias and maps by name, or refers to the item of its
    /// canonical declaration, or has none where that declaration has no
    /// bindings. No other type has a mapped type.
    pub open spec fn map_type(&self, support: Seq<bool>, t: NativeType) -> Result<
        MappedTypeModel,
        TypeErrorModel,
    >
        decreases t,
    {
        if t.is_volatile {
            Err(TypeErrorModel::Volatile { spelling: t.spelling@ })
        } else {
            match t.shape {
                TypeShape::Builtin(b) => Ok(named_type(rs_builtin(b), cc_builtin(b), t.is_const)),
                TypeShape::Pointer(p) => match self.map_type(support, *p) {
                    Ok(inner) => Ok(pointer_type(inner, t.lifetime, t.is_const)),
                    Err(e) => Err(e),
                },
                TypeShape::LValueReference(p) => match self.map_type(support, *p) {
                    Ok(inner) => Ok(reference_type(inner, t.lifetime, t.is_const)),
                    Err(e) => Err(e),
                },
                TypeShape::RValueReference(_) => Err(
                    TypeErrorModel::Unmapped { spelling: t.spelling@ },
                ),
                TypeShape::Declared(d) => if d < self.len() {
                    match self.well_known(d as int) {
                        Some(w) => Ok(named_type(w.rs, w.cc, t.is_const)),
                        None => if supported_at(support, self.canon(d as int)) {
                            Ok(declared_type(item_id(self.canon(d as int)), t.is_const))
                        } else {
                            Err(
                                TypeErrorModel::NoBindings {
                                    spelling: t.spelling@,
                                    name: self.declared_name(d as int),
                                },
                            )
                        },
                    }
                } else {
                    Err(TypeErrorModel::Unmapped { spelling: t.spelling@ })
                },
                TypeShape::Other => Err(TypeErrorModel::Unmapped { spelling: t.spelling@ }),
            }
        }
    }

    /// Whether `t` has a mapped type.
    pub open spec fn mappable(&self, support: Seq<bool>, t: NativeType) -> bool {
        self.map_type(support, t) is Ok
    }

    /// The plain name of the type that declaration `d` introduces.
    pub(crate) fn name_of_declared(&self, d: usize) -> (name: String)
        requires
            d < self.decls.len(),
        ensures
            name@ == self.declared_name(d as int),
    {
        match &self.decls[d].kind {
            DeclKind::Record(r) => r.name.clone(),
            DeclKind::TypeAlias { name, .. } => name.clone(),
            DeclKind::Enum(e) => match &e.name {
                Some(n) => n.clone(),
                None => String::from_str("(anonymous)"),
            },
            _ => String::new(),
        }
    }

    fn is_std_namespace_at(&self, p: usize) -> (r: bool)
        ensures
            r == self.is_std_namespace(p as int),
    {
        if p >= self.decls.len() {
            return false;
        }
        if self.decls[p].parent.is_some() {
            return false;
        }
        match &self.decls[p].kind {
            DeclKind::Namespace { name } => text_is(name, "std"),
            _ => false,
        }
    }

    /// Whether declaration `d` declares a well-known alias, and if so the
    /// name of the target type that stands for it.
    fn well_known_target(&self, d: usize) -> (r: Option<&'static str>)
        requires
            d < self.decls.len(),
        ensures
            match r {
                Some(rs) => self.well_known(d as int) matches Some(w) && w.rs == rs@,
                None => self.well_known(d as int) is None,
            },
    {
        match &self.decls[d].kind {
            DeclKind::TypeAlias { name, .. } => match fixed_width_name(name) {
                Some(rs) => match self.decls[d].parent {
                    None => Some(rs),
                    Some(p) => if self.is_std_namespace_at(p) {
                        Some(rs)
                    } else {
                        None
                    },
                },
                None => None,
            },
            _ => None,
        }
    }

    /// The native name of the well-known alias that declaration `d`
    /// declares.
    fn well_known_cc_name(&self, d: usize) -> (cc: String)
        requires
            d < self.decls.len(),
            self.well_known(d as int) is Some,
        ensures
            self.well_known(d as int) matches Some(w) && w.cc == cc@,
    {
        match &self.decls[d].kind {
            DeclKind::TypeAlias { name, .. } => match self.decls[d].parent {
                None => name.clone(),
                Some(_) => {
                    let mut cc = String::from_str("std::");
                    cc.append(name.as_str());
                    cc
                },
            },
            _ => unreached(),
        }
    }

    fn supported(&self, support: &Vec<bool>, c: usize) -> (r: bool)
        ensures
            r == supported_at(support@, c as int),
            r ==> c < usize::MAX,
    {
        c < support.len() && support[c]
    }

    /// Whether `t` has a mapped type, where `support` holds the canonical
    /// declarations that have bindings.
    pub fn is_mappable(&self, support: &Vec<bool>, t: &NativeType) -> (r: bool)
        ensures
            r == self.mappable(support@, *t),
        decreases t,
    {
        if t.is_volatile {
            return false;
        }
        match &t.shape {
            TypeShape::Builtin(_) => true,
            TypeShape::Pointer(p) => self.is_mappable(support, p),
            TypeShape::LValueReference(p) => self.is_mappable(support, p),
            TypeShape::RValueReference(_) => false,
            TypeShape::Declared(d) => {
                if *d < self.decls.len() {
                    match self.well_known_target(*d) {
                        Some(_) => true,
                        None => self.supported(support, self.decls[*d].canonical),
                    }
                } else {
                    false
                }
            },
            TypeShape::Other => false,
        }
    }

    /// The mapped type of `t`, or the reason why it has none, where
    /// `support` holds the canonical declarations that have bindings.
    pub fn convert_type(&self, support: &Vec<bool>, t: &NativeType) -> (r: Result<
        MappedType,
        TypeError,
    >)
        ensures
            match r {
                Ok(m) => self.map_type(support@, *t) == Ok::<MappedTypeModel, TypeErrorModel>(m@),
                Err(e) => self.map_type(support@, *t) == Err::<MappedTypeModel, TypeErrorModel>(e@),
            },
        decreases t,
    {
        if t.is_volatile {
            return Err(TypeError::Volatile { spelling: t.spelling.clone() });
        }
        match &t.shape {
            TypeShape::Builtin(b) => Ok(
                MappedType::named(
                    rs_builtin_name(*b),
                    String::from_str(cc_builtin_name(*b)),
                    t.is_const,
                ),
            ),
            TypeShape::Pointer(p) => match self.convert_type(support, p) {
                Ok(inner) => Ok(MappedType::pointer_to(inner, t.lifetime, t.is_const)),
                Err(e) => Err(e),
            },
            TypeShape::LValueReference(p) => match self.convert_type(support, p) {
                Ok(inner) => Ok(MappedType::reference_to(inner, t.lifetime, t.is_const)),
                Err(e) => Err(e),
            },
            TypeShape::RValueReference(_) => Err(
                TypeError::Unmapped { spelling: t.spelling.clone() },
            ),
            TypeShape::Declared(d) => {
                if *d < self.decls.len() {
                    match self.well_known_target(*d) {
                        Some(rs) => Ok(
                            MappedType::named(rs, self.well_known_cc_name(*d), t.is_const),
                        ),
                        None => {
                            let c = self.decls[*d].canonical;
                            if self.supported(support, c) {
                                Ok(MappedType::declared(ItemId::of_decl(c), t.is_const))
                            } else {
                                Err(
                                    TypeError::NoBindings {
                                        spelling: t.spelling.clone(),
                                        name: self.name_of_declared(*d),
                                    },
                                )
                            }
                        },
                    }
                } else {
                    Err(TypeError::Unmapped { spelling: t.spelling.clone() })
                }
            },
            TypeShape::Other => Err(TypeError::Unmapped { spelling: t.spelling.clone() }),
        }
    }
}

} // verus!
