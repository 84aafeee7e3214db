//! The declaration graph: what the front end hands over for one unit of
//! native source code.
//!
//! Every syntactic declaration is one entry of an arena, named by its index.
//! The arena is in source order, so the enclosing declaration of an entry
//! always stands before it. Redeclarations of one entity are separate entries
//! that name the same canonical entry.

use vstd::prelude::*;

verus! {

/// Access to a member of a record.
#[derive(Clone, Copy, Debug, PartialEq, Eq, Structural)]
pub enum AccessSpecifier {
    Public,
    Protected,
    Private,
}

/// The keyword a record was declared with.
#[derive(Clone, Copy, Debug, PartialEq, Eq, Structural)]
pub enum RecordTag {
    Struct,
    Class,
    Union,
}

/// The arithmetic types that the native language builds in, and `void`.
#[derive(Clone, Copy, Debug, PartialEq, Eq, Structural)]
pub enum Builtin {
    Void,
    Bool,
    Char,
    SignedChar,
    UnsignedChar,
    Char16,
    Char32,
    WChar,
    Short,
    Int,
    Long,
    LongLong,
    UnsignedShort,
    UnsignedInt,
    UnsignedLong,
    UnsignedLongLong,
    Float,
    Double,
}

/// Identifies one lifetime parameter of a function.
#[derive(Clone, Copy, Debug, PartialEq, Eq, Structural)]
pub struct LifetimeId(pub i32);

/// A lifetime parameter as inferred for a function: its name and its id.
#[derive(Debug, PartialEq, Eq)]
pub struct LifetimeName {
    pub name: String,
    pub id: LifetimeId,
}

/// What a native type is built from.
#[derive(Debug, PartialEq, Eq)]
pub enum TypeShape {
    /// A builtin type.
    Builtin(Builtin),
    /// A pointer to the given type.
    Pointer(Box<NativeType>),
    /// An lvalue reference to the given type.
    LValueReference(Box<NativeType>),
    /// An rvalue reference to the given type.
    RValueReference(Box<NativeType>),
    /// The type that the declaration with this index introduces: a record, a
    /// type alias or an enum.
    Declared(usize),
    /// Any other type (arrays, function types, member pointers, ...).
    Other,
}

/// A native type with its qualifiers.
#[derive(Debug, PartialEq, Eq)]
pub struct NativeType {
    /// The type as the native compiler prints it.
    pub spelling: String,
    pub is_const: bool,
    pub is_volatile: bool,
    /// For a pointer or a reference, the lifetime inferred for it, if any.
    pub lifetime: Option<LifetimeId>,
    pub shape: TypeShape,
}

/// The name of a declaration, by kind.
#[derive(Debug, PartialEq, Eq)]
pub enum DeclName {
    /// An ordinary name.
    Identifier(String),
    /// An overloaded operator, by its spelling without the keyword (`==`,
    /// `new[]`).
    Operator(String),
    Constructor,
    Destructor,
    /// The declaration has no name.
    Unnamed,
}

/// Where a declaration stands in its source file.
#[derive(Debug, PartialEq, Eq)]
pub struct SourceLoc {
    pub filename: String,
    pub line: u64,
    pub column: u64,
}

/// What the native compiler says of one special member of a record.
#[derive(Clone, Copy, Debug, PartialEq, Eq)]
pub struct SpecialMemberFacts {
    pub is_deleted: bool,
    pub is_trivial: bool,
    /// The access of the member where it is declared in the source; `None`
    /// where the compiler declares it implicitly.
    pub declared_access: Option<AccessSpecifier>,
}

/// One base class of a record: a direct base, or one that the record
/// inherits through its bases. The native compiler lists them, nearest
/// first.
#[derive(Clone, Copy, Debug, PartialEq, Eq)]
pub struct BaseSpecifier {
    /// The declaration of the base class.
    pub base: usize,
    /// The offset of the base within the derived object, in bytes, where it
    /// has a unique one.
    pub offset: Option<usize>,
    /// Whether the base can be reached from the record by public
    /// inheritance alone.
    pub is_public: bool,
    /// Whether the derived class has exactly one subobject of this base.
    pub is_unambiguous: bool,
}

/// A struct, class or union: a forward declaration or a definition.
#[derive(Debug, PartialEq, Eq)]
pub struct RecordDecl {
    /// The name as written in native code; for a class template
    /// specialization it includes the template arguments.
    pub name: String,
    pub tag: RecordTag,
    /// Whether this declaration is the definition.
    pub is_definition: bool,
    /// On the canonical declaration: the declaration that defines the record,
    /// if the unit holds one.
    pub definition: Option<usize>,
    /// For a class template specialization, the mangled name of the type.
    pub specialization: Option<String>,
    /// Whether this is the name of a class injected into its own scope.
    pub is_injected_class_name: bool,
    /// Size of a complete object, in bytes.
    pub size: usize,
    /// Alignment of a complete object, in bytes.
    pub alignment: usize,
    /// The alignment that an attribute on the record asks for, if any.
    pub explicit_alignment: Option<usize>,
    /// The alignment that the record has with no such attribute.
    pub natural_alignment: usize,
    pub bases: Vec<BaseSpecifier>,
    pub copy_constructor: SpecialMemberFacts,
    pub move_constructor: SpecialMemberFacts,
    pub destructor: SpecialMemberFacts,
}

/// A data member of a record.
#[derive(Debug, PartialEq, Eq)]
pub struct FieldDecl {
    /// `None` for an unnamed bit-field.
    pub name: Option<String>,
    pub ty: NativeType,
    /// Offset from the start of the object, in bits.
    pub offset: usize,
    /// Width of the field, in bits.
    pub size: usize,
}

/// A parameter of a function.
#[derive(Debug, PartialEq, Eq)]
pub struct ParamDecl {
    pub name: Option<String>,
    pub ty: NativeType,
}

/// How an instance method may be called on its object.
#[derive(Clone, Copy, Debug, PartialEq, Eq, Structural)]
pub enum ReferenceQualification {
    LValue,
    RValue,
    Unqualified,
}

/// What is particular to a non-static member function.
#[derive(Clone, Copy, Debug, PartialEq, Eq)]
pub struct InstanceMethodDecl {
    pub reference: ReferenceQualification,
    pub is_const: bool,
    pub is_virtual: bool,
    pub is_explicit_ctor: bool,
    /// The lifetime inferred for the object the method is called on.
    pub this_lifetime: Option<LifetimeId>,
}

/// A function or member function.
#[derive(Debug, PartialEq, Eq)]
pub struct FunctionDecl {
    pub name: DeclName,
    pub mangled_name: String,
    pub return_type: NativeType,
    pub params: Vec<ParamDecl>,
    /// The lifetime parameters inferred for the function.
    pub lifetime_params: Vec<LifetimeName>,
    /// `Some` for a non-static member function.
    pub instance: Option<InstanceMethodDecl>,
    /// Whether the function is called by the platform's default convention.
    pub has_default_calling_convention: bool,
    /// The class template specializations that expressions in the body
    /// instantiate.
    pub instantiates: Vec<usize>,
    pub source_loc: SourceLoc,
}

/// One enumerator of an enum.
#[derive(Debug, PartialEq, Eq)]
pub struct Enumerator {
    pub name: String,
    pub value: i64,
}

/// An enum.
#[derive(Debug, PartialEq, Eq)]
pub struct EnumDecl {
    /// `None` for an unnamed enum.
    pub name: Option<String>,
    pub underlying: Builtin,
    pub enumerators: Vec<Enumerator>,
}

/// What a declaration declares.
#[derive(Debug, PartialEq, Eq)]
pub enum DeclKind {
    Namespace { name: String },
    Record(RecordDecl),
    /// A class template; its specializations are records of their own.
    ClassTemplate { name: String },
    Field(FieldDecl),
    /// An access label (`public:`) among the members of a record.
    AccessLabel(AccessSpecifier),
    Function(FunctionDecl),
    FunctionTemplate { function_name: DeclName },
    TypeAlias { name: String, underlying: NativeType },
    Enum(EnumDecl),
    /// A comment that documents no declaration, with its markers.
    Comment { text: String },
}

/// One entry of the arena.
#[derive(Debug, PartialEq, Eq)]
pub struct Decl {
    /// The first declaration of the same entity; its own index where this is
    /// the first.
    pub canonical: usize,
    /// The declaration that encloses this one: a namespace, a record, or a
    /// function in whose body it stands. `None` at the outermost scope.
    pub parent: Option<usize>,
    /// The target whose sources hold the declaration.
    pub owning_target: String,
    /// The comment that documents the declaration, with its markers.
    pub doc_comment: Option<String>,
    pub kind: DeclKind,
}

/// The declarations of one unit, and the target that the unit belongs to.
#[derive(Debug, PartialEq, Eq)]
pub struct DeclGraph {
    pub decls: Vec<Decl>,
    pub current_target: String,
}

impl NativeType {
    /// Whether every declaration that the type names has an index below `n`
    /// and is a record, a type alias or an enum of `decls`.
    pub open spec fn refs_valid(self, decls: Seq<Decl>) -> bool
        decreases self,
    {
        match self.shape {
            TypeShape::Builtin(_) => true,
            TypeShape::Pointer(p) => p.refs_valid(decls),
            TypeShape::LValueReference(p) => p.refs_valid(decls),
            TypeShape::RValueReference(p) => p.refs_valid(decls),
            TypeShape::Declared(d) => d < decls.len() && decls[d as int].kind.introduces_type(),
            TypeShape::Other => true,
        }
    }
}

impl DeclKind {
    /// Whether a declaration of this kind introduces a type that other
    /// declarations can name.
    pub open spec fn introduces_type(self) -> bool {
        self is Record || self is TypeAlias || self is Enum
    }

    /// Whether other declarations can stand inside one of this kind.
    pub open spec fn is_scope(self) -> bool {
        self is Namespace || self is Record || self is Function
    }

    /// Whether a declaration of this kind introduces a type that other
    /// declarations can name.
    pub fn does_introduce_type(&self) -> (r: bool)
        ensures
            r == self.introduces_type(),
    {
        match self {
            DeclKind::Record(_) => true,
            DeclKind::TypeAlias { .. } => true,
            DeclKind::Enum(_) => true,
            _ => false,
        }
    }

    /// Whether other declarations can stand inside one of this kind.
    pub fn can_enclose(&self) -> (r: bool)
        ensures
            r == self.is_scope(),
    {
        match self {
            DeclKind::Namespace { .. } => true,
            DeclKind::Record(_) => true,
            DeclKind::Function(_) => true,
            _ => false,
        }
    }
}

impl NativeType {
    /// Whether every declaration that the type names is a record, a type
    /// alias or an enum of `decls`.
    pub fn check_refs(&self, decls: &Vec<Decl>) -> (r: bool)
        ensures
            r == self.refs_valid(decls@),
        decreases self,
    {
        match &self.shape {
            TypeShape::Builtin(_) => true,
            TypeShape::Pointer(p) => p.check_refs(decls),
            TypeShape::LValueReference(p) => p.check_refs(decls),
            TypeShape::RValueReference(p) => p.check_refs(decls),
            TypeShape::Declared(d) => *d < decls.len() && decls[*d].kind.does_introduce_type(),
            TypeShape::Other => true,
        }
    }
}

impl DeclGraph {
    /// The number of declarations.
    pub open spec fn len(&self) -> int {
        self.decls@.len() as int
    }

    /// The declaration with index `i`.
    pub open spec fn decl(&self, i: int) -> Decl {
        self.decls@[i]
    }

    /// The canonical declaration of the entity that declaration `i`
    /// declares.
    pub open spec fn canon(&self, i: int) -> int {
        self.decls@[i].canonical as int
    }

    /// Whether declaration `i` is a record.
    pub open spec fn is_record(&self, i: int) -> bool {
        0 <= i < self.len() && self.decls@[i].kind is Record
    }

    /// Whether the references that declaration `i` makes by its kind lead to
    /// declarations of the right kinds.
    pub open spec fn kind_refs_valid(&self, i: int) -> bool {
        let d = self.decls@[i];
        match d.kind {
            DeclKind::Record(r) => {
                &&& match r.definition {
                    Some(k) => self.is_record(k as int) && self.canon(k as int) == d.canonical,
                    None => true,
                }
                &&& forall|b: int|
                    0 <= b < r.bases@.len() ==> self.is_record((#[trigger] r.bases@[b]).base as int)
            },
            DeclKind::Field(f) => {
                &&& f.ty.refs_valid(self.decls@)
                &&& d.parent matches Some(p) && self.is_record(p as int)
            },
            DeclKind::AccessLabel(_) => d.parent matches Some(p) && self.is_record(p as int),
            DeclKind::Function(f) => {
                &&& f.return_type.refs_valid(self.decls@)
                &&& forall|k: int|
                    0 <= k < f.params@.len() ==> (#[trigger] f.params@[k]).ty.refs_valid(
                        self.decls@,
                    )
                &&& forall|k: int|
                    0 <= k < f.instantiates@.len() ==> self.is_record(
                        #[trigger] f.instantiates@[k] as int,
                    )
            },
            DeclKind::TypeAlias { underlying, .. } => underlying.refs_valid(self.decls@),
            _ => true,
        }
    }

    /// Whether declaration `i` is in order: its canonical declaration stands
    /// no later and is canonical itself, its enclosing declaration stands
    /// before it and can enclose others, and its references are valid.
    pub open spec fn decl_valid(&self, i: int) -> bool {
        let d = self.decls@[i];
        &&& d.canonical <= i
        &&& self.canon(d.canonical as int) == d.canonical
        &&& match d.parent {
            Some(p) => p < i && self.decls@[p as int].kind.is_scope(),
            None => true,
        }
        &&& self.kind_refs_valid(i)
    }

    /// Whether the graph is one that a front end can produce: every
    /// declaration is in order, and there are few enough of them for each to
    /// have an identity.
    pub open spec fn well_formed(&self) -> bool {
        &&& self.len() < usize::MAX
        &&& forall|i: int| 0 <= i < self.len() ==> self.decl_valid(i)
    }

    fn check_record(&self, i: usize) -> (r: bool)
        requires
            i < self.decls.len(),
        ensures
            r == (self.decls@[i as int].kind is Record),
            r == self.is_record(i as int),
    {
        match &self.decls[i].kind {
            DeclKind::Record(_) => true,
            _ => false,
        }
    }

    fn check_record_ref(&self, k: usize) -> (r: bool)
        ensures
            r == self.is_record(k as int),
    {
        k < self.decls.len() && self.check_record(k)
    }

    fn check_bases(&self, bases: &Vec<BaseSpecifier>) -> (r: bool)
        ensures
            r == forall|b: int|
                0 <= b < bases@.len() ==> self.is_record((#[trigger] bases@[b]).base as int),
    {
        let mut b: usize = 0;
        while b < bases.len()
            invariant
                0 <= b <= bases.len(),
                forall|j: int| 0 <= j < b ==> self.is_record((#[trigger] bases@[j]).base as int),
            decreases bases.len() - b,
        {
            if !self.check_record_ref(bases[b].base) {
                return false;
            }
            b += 1;
        }
        true
    }

    fn check_params(&self, params: &Vec<ParamDecl>) -> (r: bool)
        ensures
            r == forall|k: int|
                0 <= k < params@.len() ==> (#[trigger] params@[k]).ty.refs_valid(self.decls@),
    {
        let mut k: usize = 0;
        while k < params.len()
            invariant
                0 <= k <= params.len(),
                forall|j: int| 0 <= j < k ==> (#[trigger] params@[j]).ty.refs_valid(self.decls@),
            decreases params.len() - k,
        {
            if !params[k].ty.check_refs(&self.decls) {
                return false;
            }
            k += 1;
        }
        true
    }

    fn check_instantiates(&self, list: &Vec<usize>) -> (r: bool)
        ensures
            r == forall|k: int| 0 <= k < list@.len() ==> self.is_record(#[trigger] list@[k] as int),
    {
        let mut k: usize = 0;
        while k < list.len()
            invariant
                0 <= k <= list.len(),
                forall|j: int| 0 <= j < k ==> self.is_record(#[trigger] list@[j] as int),
            decreases list.len() - k,
        {
            if !self.check_record_ref(list[k]) {
                return false;
            }
            k += 1;
        }
        true
    }

    fn check_parent_is_record(&self, i: usize) -> (r: bool)
        requires
            i < self.decls.len(),
        ensures
            r == (self.decls@[i as int].parent matches Some(p) && self.is_record(p as int)),
    {
        match self.decls[i].parent {
            Some(p) => self.check_record_ref(p),
            None => false,
        }
    }

    fn check_kind_refs(&self, i: usize) -> (r: bool)
        requires
            i < self.decls.len(),
        ensures
            r == self.kind_refs_valid(i as int),
    {
        let d = &self.decls[i];
        match &d.kind {
            DeclKind::Record(rec) => {
                let def_ok = match rec.definition {
                    Some(k) => self.check_record_ref(k) && self.decls[k].canonical == d.canonical,
                    None => true,
                };
                def_ok && self.check_bases(&rec.bases)
            },
            DeclKind::Field(f) => f.ty.check_refs(&self.decls) && self.check_parent_is_record(i),
            DeclKind::AccessLabel(_) => self.check_parent_is_record(i),
            DeclKind::Function(f) => {
                f.return_type.check_refs(&self.decls) && self.check_params(&f.params)
                    && self.check_instantiates(&f.instantiates)
            },
            DeclKind::TypeAlias { underlying, .. } => underlying.check_refs(&self.decls),
            _ => true,
        }
    }

    fn check_decl(&self, i: usize) -> (r: bool)
        requires
            i < self.decls.len(),
        ensures
            r == self.decl_valid(i as int),
    {
        let d = &self.decls[i];
        if d.canonical > i {
            return false;
        }
        if self.decls[d.canonical].canonical != d.canonical {
            return false;
        }
        let parent_ok = match d.parent {
            Some(p) => p < i && self.decls[p].kind.can_enclose(),
            None => true,
        };
        parent_ok && self.check_kind_refs(i)
    }

    /// Whether the graph is well formed.
    pub fn is_well_formed(&self) -> (r: bool)
        ensures
            r == self.well_formed(),
    {
        if self.decls.len() == usize::MAX {
            return false;
        }
        let mut i: usize = 0;
        while i < self.decls.len()
            invariant
                0 <= i <= self.decls.len(),
                forall|j: int| 0 <= j < i ==> self.decl_valid(j),
            decreases self.decls.len() - i,
        {
            if !self.check_decl(i) {
                return false;
            }
            i += 1;
        }
        true
    }
}

} // verus!
