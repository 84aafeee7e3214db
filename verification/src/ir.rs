//! The items of the intermediate representation.
//!
//! Each type that holds text has a model, named after it, that holds the same
//! data as ghost values; the model is the type's view.

use vstd::prelude::*;
use crate::decl::AccessSpecifier;
use crate::decl::LifetimeId;
use crate::decl::LifetimeName;
use crate::decl::ReferenceQualification;
use crate::decl::SourceLoc;
use crate::ident::Identifier;
use crate::ident::ItemId;
use crate::ident::UnqualifiedIdentifier;
use crate::ident::UnqualifiedName;
use crate::text::opt_view;

verus! {

/// A type on the target side.
#[derive(Debug, PartialEq, Eq)]
pub struct RsType {
    /// Absent where the type is a reference to a declaration.
    pub name: Option<String>,
    pub lifetime_args: Vec<LifetimeId>,
    pub type_args: Vec<RsType>,
    /// The item of the declaration that the type denotes, if it denotes one.
    pub decl_id: Option<ItemId>,
}

/// The model of [`RsType`].
pub struct RsTypeModel {
    pub name: Option<Seq<char>>,
    pub lifetime_args: Seq<LifetimeId>,
    pub type_args: Seq<RsTypeModel>,
    pub decl_id: Option<ItemId>,
}

/// The model of a target type.
pub open spec fn rs_model(t: RsType) -> RsTypeModel
    decreases t,
{
    RsTypeModel {
        name: opt_view(t.name),
        lifetime_args: t.lifetime_args@,
        type_args: t.type_args@.map_values(
            |a: RsType|
                if decreases_to!(t => a) {
                    rs_model(a)
                } else {
                    arbitrary()
                },
        ),
        decl_id: t.decl_id,
    }
}

impl View for RsType {
    type V = RsTypeModel;

    open spec fn view(&self) -> RsTypeModel {
        rs_model(*self)
    }
}

/// A type on the native side.
#[derive(Debug, PartialEq, Eq)]
pub struct CcType {
    /// Absent where the type is a reference to a declaration.
    pub name: Option<String>,
    pub is_const: bool,
    pub type_args: Vec<CcType>,
    /// The item of the declaration that the type denotes, if it denotes one.
    pub decl_id: Option<ItemId>,
}

/// The model of [`CcType`].
pub struct CcTypeModel {
    pub name: Option<Seq<char>>,
    pub is_const: bool,
    pub type_args: Seq<CcTypeModel>,
    pub decl_id: Option<ItemId>,
}

/// The model of a native type.
pub open spec fn cc_model(t: CcType) -> CcTypeModel
    decreases t,
{
    CcTypeModel {
        name: opt_view(t.name),
        is_const: t.is_const,
        type_args: t.type_args@.map_values(
            |a: CcType|
                if decreases_to!(t => a) {
                    cc_model(a)
                } else {
                    arbitrary()
                },
        ),
        decl_id: t.decl_id,
    }
}

impl View for CcType {
    type V = CcTypeModel;

    open spec fn view(&self) -> CcTypeModel {
        cc_model(*self)
    }
}

/// A native type together with the target type that stands for it.
#[derive(Debug, PartialEq, Eq)]
pub struct MappedType {
    pub rs_type: RsType,
    pub cc_type: CcType,
}

/// The model of [`MappedType`].
pub struct MappedTypeModel {
    pub rs_type: RsTypeModel,
    pub cc_type: CcTypeModel,
}

impl View for MappedType {
    type V = MappedTypeModel;

    open spec fn view(&self) -> MappedTypeModel {
        MappedTypeModel { rs_type: self.rs_type@, cc_type: self.cc_type@ }
    }
}

impl RsTypeModel {
    /// A type is either named or a reference to a declaration, never both and
    /// never neither; so are its arguments.
    pub open spec fn well_formed(self) -> bool
        decreases self,
    {
        &&& self.name is Some <==> self.decl_id is None
        &&& forall|i: int|
            0 <= i < self.type_args.len() ==> (#[trigger] self.type_args[i]).well_formed()
    }
}

impl CcTypeModel {
    /// A type is either named or a reference to a declaration, never both and
    /// never neither; so are its arguments.
    pub open spec fn well_formed(self) -> bool
        decreases self,
    {
        &&& self.name is Some <==> self.decl_id is None
        &&& forall|i: int|
            0 <= i < self.type_args.len() ==> (#[trigger] self.type_args[i]).well_formed()
    }
}

impl MappedTypeModel {
    pub open spec fn well_formed(self) -> bool {
        self.rs_type.well_formed() && self.cc_type.well_formed()
    }
}

/// The model of [`LifetimeName`].
pub struct LifetimeNameModel {
    pub name: Seq<char>,
    pub id: LifetimeId,
}

impl View for LifetimeName {
    type V = LifetimeNameModel;

    open spec fn view(&self) -> LifetimeNameModel {
        LifetimeNameModel { name: self.name@, id: self.id }
    }
}

/// The model of [`SourceLoc`].
pub struct SourceLocModel {
    pub filename: Seq<char>,
    pub line: u64,
    pub column: u64,
}

impl View for SourceLoc {
    type V = SourceLocModel;

    open spec fn view(&self) -> SourceLocModel {
        SourceLocModel { filename: self.filename@, line: self.line, column: self.column }
    }
}

/// A parameter of a function.
#[derive(Debug, PartialEq, Eq)]
pub struct FuncParam {
    pub type_: MappedType,
    pub identifier: Identifier,
}

/// The model of [`FuncParam`].
pub struct FuncParamModel {
    pub type_: MappedTypeModel,
    pub identifier: Seq<char>,
}

impl View for FuncParam {
    type V = FuncParamModel;

    open spec fn view(&self) -> FuncParamModel {
        FuncParamModel { type_: self.type_@, identifier: self.identifier@ }
    }
}

/// What is particular to a non-static member function.
#[derive(Clone, Copy, Debug, PartialEq, Eq)]
pub struct InstanceMethodMetadata {
    pub reference: ReferenceQualification,
    pub is_const: bool,
    pub is_virtual: bool,
    pub is_explicit_ctor: bool,
}

/// What is particular to a member function.
#[derive(Clone, Copy, Debug, PartialEq, Eq)]
pub struct MemberFuncMetadata {
    /// The record that the function is a member of.
    pub record_id: ItemId,
    /// `None` for a static member function.
    pub instance_method_metadata: Option<InstanceMethodMetadata>,
}

/// A function.
#[derive(Debug, PartialEq, Eq)]
pub struct Func {
    pub name: UnqualifiedIdentifier,
    pub owning_target: String,
    pub mangled_name: String,
    pub doc_comment: Option<String>,
    pub return_type: MappedType,
    pub params: Vec<FuncParam>,
    pub lifetime_params: Vec<LifetimeName>,
    pub has_c_calling_convention: bool,
    pub member_func_metadata: Option<MemberFuncMetadata>,
    pub source_loc: SourceLoc,
    pub id: ItemId,
    pub enclosing_namespace_id: Option<ItemId>,
}

/// The model of [`Func`].
pub struct FuncModel {
    pub name: UnqualifiedName,
    pub owning_target: Seq<char>,
    pub mangled_name: Seq<char>,
    pub doc_comment: Option<Seq<char>>,
    pub return_type: MappedTypeModel,
    pub params: Seq<FuncParamModel>,
    pub lifetime_params: Seq<LifetimeNameModel>,
    pub has_c_calling_convention: bool,
    pub member_func_metadata: Option<MemberFuncMetadata>,
    pub source_loc: SourceLocModel,
    pub id: ItemId,
    pub enclosing_namespace_id: Option<ItemId>,
}

impl View for Func {
    type V = FuncModel;

    open spec fn view(&self) -> FuncModel {
        FuncModel {
            name: self.name@,
            owning_target: self.owning_target@,
            mangled_name: self.mangled_name@,
            doc_comment: opt_view(self.doc_comment),
            return_type: self.return_type@,
            params: self.params@.map_values(|p: FuncParam| p@),
            lifetime_params: self.lifetime_params@.map_values(|l: LifetimeName| l@),
            has_c_calling_convention: self.has_c_calling_convention,
            member_func_metadata: self.member_func_metadata,
            source_loc: self.source_loc@,
            id: self.id,
            enclosing_namespace_id: self.enclosing_namespace_id,
        }
    }
}

/// A data member of a record.
#[derive(Debug, PartialEq, Eq)]
pub struct Field {
    /// `None` for an unnamed bit-field.
    pub identifier: Option<Identifier>,
    pub doc_comment: Option<String>,
    pub type_: MappedType,
    pub access: AccessSpecifier,
    /// Offset from the start of the object, in bits.
    pub offset: usize,
    /// Width of the field, in bits.
    pub size: usize,
}

/// The model of [`Field`].
pub struct FieldModel {
    pub identifier: Option<Seq<char>>,
    pub doc_comment: Option<Seq<char>>,
    pub type_: MappedTypeModel,
    pub access: AccessSpecifier,
    pub offset: usize,
    pub size: usize,
}

impl View for Field {
    type V = FieldModel;

    open spec fn view(&self) -> FieldModel {
        FieldModel {
            identifier: match self.identifier {
                Some(id) => Some(id@),
                None => None,
            },
            doc_comment: opt_view(self.doc_comment),
            type_: self.type_@,
            access: self.access,
            offset: self.offset,
            size: self.size,
        }
    }
}

/// How a special member of a record is defined.
#[derive(Clone, Copy, Debug, PartialEq, Eq, Structural)]
pub enum SpecialMemberDefinition {
    Trivial,
    NontrivialUserDefined,
    Deleted,
}

/// A copy constructor, move constructor or destructor of a record.
#[derive(Clone, Copy, Debug, PartialEq, Eq)]
pub struct SpecialMemberFunc {
    pub definition: SpecialMemberDefinition,
    pub access: AccessSpecifier,
}

/// A base class of a record.
#[derive(Clone, Copy, Debug, PartialEq, Eq)]
pub struct BaseClass {
    pub base_record_id: ItemId,
    /// The offset of the base within the derived object, in bytes.
    pub offset: Option<usize>,
}

/// A struct, class or union with its layout.
#[derive(Debug, PartialEq, Eq)]
pub struct Record {
    pub rs_name: String,
    pub cc_name: String,
    pub id: ItemId,
    pub owning_target: String,
    pub doc_comment: Option<String>,
    pub unambiguous_public_bases: Vec<BaseClass>,
    pub fields: Vec<Field>,
    pub copy_constructor: SpecialMemberFunc,
    pub move_constructor: SpecialMemberFunc,
    pub destructor: SpecialMemberFunc,
    /// Size of a complete object, in bytes.
    pub size: usize,
    /// Alignment of a complete object, in bytes.
    pub alignment: usize,
    pub is_union: bool,
    pub override_alignment: bool,
    pub is_derived_class: bool,
    pub child_item_ids: Vec<ItemId>,
    pub enclosing_namespace_id: Option<ItemId>,
}

/// The model of [`Record`].
pub struct RecordModel {
    pub rs_name: Seq<char>,
    pub cc_name: Seq<char>,
    pub id: ItemId,
    pub owning_target: Seq<char>,
    pub doc_comment: Option<Seq<char>>,
    pub unambiguous_public_bases: Seq<BaseClass>,
    pub fields: Seq<FieldModel>,
    pub copy_constructor: SpecialMemberFunc,
    pub move_constructor: SpecialMemberFunc,
    pub destructor: SpecialMemberFunc,
    pub size: usize,
    pub alignment: usize,
    pub is_union: bool,
    pub override_alignment: bool,
    pub is_derived_class: bool,
    pub child_item_ids: Seq<ItemId>,
    pub enclosing_namespace_id: Option<ItemId>,
}

impl View for Record {
    type V = RecordModel;

    open spec fn view(&self) -> RecordModel {
        RecordModel {
            rs_name: self.rs_name@,
            cc_name: self.cc_name@,
            id: self.id,
            owning_target: self.owning_target@,
            doc_comment: opt_view(self.doc_comment),
            unambiguous_public_bases: self.unambiguous_public_bases@,
            fields: self.fields@.map_values(|f: Field| f@),
            copy_constructor: self.copy_constructor,
            move_constructor: self.move_constructor,
            destructor: self.destructor,
            size: self.size,
            alignment: self.alignment,
            is_union: self.is_union,
            override_alignment: self.override_alignment,
            is_derived_class: self.is_derived_class,
            child_item_ids: self.child_item_ids@,
            enclosing_namespace_id: self.enclosing_namespace_id,
        }
    }
}

/// A record that the unit declares and never defines.
#[derive(Debug, PartialEq, Eq)]
pub struct IncompleteRecord {
    pub cc_name: String,
    pub id: ItemId,
    pub owning_target: String,
    pub enclosing_namespace_id: Option<ItemId>,
}

/// The model of [`IncompleteRecord`].
pub struct IncompleteRecordModel {
    pub cc_name: Seq<char>,
    pub id: ItemId,
    pub owning_target: Seq<char>,
    pub enclosing_namespace_id: Option<ItemId>,
}

impl View for IncompleteRecord {
    type V = IncompleteRecordModel;

    open spec fn view(&self) -> IncompleteRecordModel {
        IncompleteRecordModel {
            cc_name: self.cc_name@,
            id: self.id,
            owning_target: self.owning_target@,
            enclosing_namespace_id: self.enclosing_namespace_id,
        }
    }
}

/// A type alias.
#[derive(Debug, PartialEq, Eq)]
pub struct TypeAlias {
    pub identifier: Identifier,
    pub id: ItemId,
    pub owning_target: String,
    pub doc_comment: Option<String>,
    pub underlying_type: MappedType,
    pub enclosing_namespace_id: Option<ItemId>,
}

/// The model of [`TypeAlias`].
pub struct TypeAliasModel {
    pub identifier: Seq<char>,
    pub id: ItemId,
    pub owning_target: Seq<char>,
    pub doc_comment: Option<Seq<char>>,
    pub underlying_type: MappedTypeModel,
    pub enclosing_namespace_id: Option<ItemId>,
}

impl View for TypeAlias {
    type V = TypeAliasModel;

    open spec fn view(&self) -> TypeAliasModel {
        TypeAliasModel {
            identifier: self.identifier@,
            id: self.id,
            owning_target: self.owning_target@,
            doc_comment: opt_view(self.doc_comment),
            underlying_type: self.underlying_type@,
            enclosing_namespace_id: self.enclosing_namespace_id,
        }
    }
}

/// One enumerator of an enum.
#[derive(Debug, PartialEq, Eq)]
pub struct EnumeratorItem {
    pub identifier: Identifier,
    pub value: i64,
}

/// The model of [`Enumerator`].
pub struct EnumeratorModel {
    pub identifier: Seq<char>,
    pub value: i64,
}

impl View for EnumeratorItem {
    type V = EnumeratorModel;

    open spec fn view(&self) -> EnumeratorModel {
        EnumeratorModel { identifier: self.identifier@, value: self.value }
    }
}

/// A named enum.
#[derive(Debug, PartialEq, Eq)]
pub struct Enum {
    pub identifier: Identifier,
    pub id: ItemId,
    pub owning_target: String,
    pub underlying_type: MappedType,
    pub enumerators: Vec<EnumeratorItem>,
    pub enclosing_namespace_id: Option<ItemId>,
}

/// The model of [`Enum`].
pub struct EnumModel {
    pub identifier: Seq<char>,
    pub id: ItemId,
    pub owning_target: Seq<char>,
    pub underlying_type: MappedTypeModel,
    pub enumerators: Seq<EnumeratorModel>,
    pub enclosing_namespace_id: Option<ItemId>,
}

impl View for Enum {
    type V = EnumModel;

    open spec fn view(&self) -> EnumModel {
        EnumModel {
            identifier: self.identifier@,
            id: self.id,
            owning_target: self.owning_target@,
            underlying_type: self.underlying_type@,
            enumerators: self.enumerators@.map_values(|e: EnumeratorItem| e@),
            enclosing_namespace_id: self.enclosing_namespace_id,
        }
    }
}

/// A namespace, with everything that any of its blocks encloses.
#[derive(Debug, PartialEq, Eq)]
pub struct Namespace {
    pub name: Identifier,
    pub id: ItemId,
    /// The identity shared by all blocks that reopen the namespace.
    pub canonical_namespace_id: ItemId,
    pub owning_target: String,
    pub child_item_ids: Vec<ItemId>,
    pub enclosing_namespace_id: Option<ItemId>,
}

/// The model of [`Namespace`].
pub struct NamespaceModel {
    pub name: Seq<char>,
    pub id: ItemId,
    pub canonical_namespace_id: ItemId,
    pub owning_target: Seq<char>,
    pub child_item_ids: Seq<ItemId>,
    pub enclosing_namespace_id: Option<ItemId>,
}

impl View for Namespace {
    type V = NamespaceModel;

    open spec fn view(&self) -> NamespaceModel {
        NamespaceModel {
            name: self.name@,
            id: self.id,
            canonical_namespace_id: self.canonical_namespace_id,
            owning_target: self.owning_target@,
            child_item_ids: self.child_item_ids@,
            enclosing_namespace_id: self.enclosing_namespace_id,
        }
    }
}

/// A comment that documents no declaration.
#[derive(Debug, PartialEq, Eq)]
pub struct Comment {
    pub text: String,
    pub id: ItemId,
}

/// The model of [`Comment`].
pub struct CommentModel {
    pub text: Seq<char>,
    pub id: ItemId,
}

impl View for Comment {
    type V = CommentModel;

    open spec fn view(&self) -> CommentModel {
        CommentModel { text: self.text@, id: self.id }
    }
}

/// Stands for a declaration that cannot be bound, and says why.
#[derive(Debug, PartialEq, Eq)]
pub struct UnsupportedItem {
    /// The qualified name of the declaration.
    pub name: String,
    pub message: String,
    pub id: ItemId,
}

/// The model of [`UnsupportedItem`].
pub struct UnsupportedItemModel {
    pub name: Seq<char>,
    pub message: Seq<char>,
    pub id: ItemId,
}

impl View for UnsupportedItem {
    type V = UnsupportedItemModel;

    open spec fn view(&self) -> UnsupportedItemModel {
        UnsupportedItemModel { name: self.name@, message: self.message@, id: self.id }
    }
}

/// One item of the graph.
#[derive(Debug, PartialEq, Eq)]
pub enum Item {
    Func(Func),
    Record(Record),
    IncompleteRecord(IncompleteRecord),
    TypeAlias(TypeAlias),
    Enum(Enum),
    Namespace(Namespace),
    Comment(Comment),
    UnsupportedItem(UnsupportedItem),
}

/// The model of [`Item`].
pub enum ItemModel {
    Func(FuncModel),
    Record(RecordModel),
    IncompleteRecord(IncompleteRecordModel),
    TypeAlias(TypeAliasModel),
    Enum(EnumModel),
    Namespace(NamespaceModel),
    Comment(CommentModel),
    UnsupportedItem(UnsupportedItemModel),
}

impl View for Item {
    type V = ItemModel;

    open spec fn view(&self) -> ItemModel {
        match self {
            Item::Func(x) => ItemModel::Func(x@),
            Item::Record(x) => ItemModel::Record(x@),
            Item::IncompleteRecord(x) => ItemModel::IncompleteRecord(x@),
            Item::TypeAlias(x) => ItemModel::TypeAlias(x@),
            Item::Enum(x) => ItemModel::Enum(x@),
            Item::Namespace(x) => ItemModel::Namespace(x@),
            Item::Comment(x) => ItemModel::Comment(x@),
            Item::UnsupportedItem(x) => ItemModel::UnsupportedItem(x@),
        }
    }
}

impl ItemModel {
    /// The identity of the item.
    pub open spec fn id(self) -> ItemId {
        match self {
            ItemModel::Func(x) => x.id,
            ItemModel::Record(x) => x.id,
            ItemModel::IncompleteRecord(x) => x.id,
            ItemModel::TypeAlias(x) => x.id,
            ItemModel::Enum(x) => x.id,
            ItemModel::Namespace(x) => x.id,
            ItemModel::Comment(x) => x.id,
            ItemModel::UnsupportedItem(x) => x.id,
        }
    }

    /// The namespace that encloses the item; comments and unsupported items
    /// record none.
    pub open spec fn enclosing_namespace_id(self) -> Option<ItemId> {
        match self {
            ItemModel::Func(x) => x.enclosing_namespace_id,
            ItemModel::Record(x) => x.enclosing_namespace_id,
            ItemModel::IncompleteRecord(x) => x.enclosing_namespace_id,
            ItemModel::TypeAlias(x) => x.enclosing_namespace_id,
            ItemModel::Enum(x) => x.enclosing_namespace_id,
            ItemModel::Namespace(x) => x.enclosing_namespace_id,
            ItemModel::Comment(_) => None,
            ItemModel::UnsupportedItem(_) => None,
        }
    }
}

impl Item {
    /// The identity of the item.
    pub fn id(&self) -> (id: ItemId)
        ensures
            id == self@.id(),
    {
        match self {
            Item::Func(x) => x.id,
            Item::Record(x) => x.id,
            Item::IncompleteRecord(x) => x.id,
            Item::TypeAlias(x) => x.id,
            Item::Enum(x) => x.id,
            Item::Namespace(x) => x.id,
            Item::Comment(x) => x.id,
            Item::UnsupportedItem(x) => x.id,
        }
    }

    /// The namespace that encloses the item; comments and unsupported items
    /// record none.
    pub fn enclosing_namespace_id(&self) -> (id: Option<ItemId>)
        ensures
            id == self@.enclosing_namespace_id(),
    {
        match self {
            Item::Func(x) => x.enclosing_namespace_id,
            Item::Record(x) => x.enclosing_namespace_id,
            Item::IncompleteRecord(x) => x.enclosing_namespace_id,
            Item::TypeAlias(x) => x.enclosing_namespace_id,
            Item::Enum(x) => x.enclosing_namespace_id,
            Item::Namespace(x) => x.enclosing_namespace_id,
            Item::Comment(_) => None,
            Item::UnsupportedItem(_) => None,
        }
    }
}

/// The items as ghost values.
pub open spec fn item_views(items: Seq<Item>) -> Seq<ItemModel> {
    items.map_values(|x: Item| x@)
}

/// The graph of items that stands for one unit.
#[derive(Debug, PartialEq, Eq)]
pub struct IR {
    /// The items, in the order of their declarations.
    pub items: Vec<Item>,
    /// The items at the outermost scope, in the order of their declarations.
    pub top_level_item_ids: Vec<ItemId>,
    /// For each declaration of the unit, by its index, the item that stands
    /// for the entity it declares, if one does. All declarations of one
    /// entity have the same entry.
    pub decl_item_ids: Vec<Option<ItemId>>,
    /// The target that the unit belongs to.
    pub current_target: String,
}

/// The model of [`IR`].
pub struct IRModel {
    pub items: Seq<ItemModel>,
    pub top_level_item_ids: Seq<ItemId>,
    pub decl_item_ids: Seq<Option<ItemId>>,
    pub current_target: Seq<char>,
}

impl ItemModel {
    /// The items that the item lists as standing inside it; none for an
    /// item that is neither a namespace nor a record.
    pub open spec fn child_item_ids(self) -> Seq<ItemId> {
        match self {
            ItemModel::Record(x) => x.child_item_ids,
            ItemModel::Namespace(x) => x.child_item_ids,
            _ => Seq::empty(),
        }
    }
}

impl IRModel {
    /// Whether the graph holds an item with the identity `id`.
    pub open spec fn holds(self, id: ItemId) -> bool {
        exists|j: int| 0 <= j < self.items.len() && (#[trigger] self.items[j]).id() == id
    }

    /// Whether the graph is in order: every item has an identity other than
    /// zero and no two have the same, and whatever is listed at the outermost
    /// scope or inside an item is an item of the graph.
    pub open spec fn well_formed(self) -> bool {
        &&& forall|j: int| 0 <= j < self.items.len() ==> (#[trigger] self.items[j]).id().0 != 0
        &&& forall|x: int, y: int|
            0 <= x < y < self.items.len() ==> (#[trigger] self.items[x]).id() != (
            #[trigger] self.items[y]).id()
        &&& forall|x: int|
            0 <= x < self.top_level_item_ids.len() ==> self.holds(
                #[trigger] self.top_level_item_ids[x],
            )
        &&& forall|j: int, x: int|
            0 <= j < self.items.len() && 0 <= x < self.items[j].child_item_ids().len()
                ==> self.holds(#[trigger] self.items[j].child_item_ids()[x])
        &&& forall|d: int|
            0 <= d < self.decl_item_ids.len() ==> ((#[trigger] self.decl_item_ids[d]) matches Some(
                id,
            ) ==> self.holds(id))
    }
}

impl View for IR {
    type V = IRModel;

    open spec fn view(&self) -> IRModel {
        IRModel {
            items: item_views(self.items@),
            top_level_item_ids: self.top_level_item_ids@,
            decl_item_ids: self.decl_item_ids@,
            current_target: self.current_target@,
        }
    }
}


/// The functions among the first `k` of `items`, in order.
pub open spec fn functions_before(items: Seq<Item>, k: int) -> Seq<Func>
    decreases k,
{
    if k <= 0 || k > items.len() {
        Seq::empty()
    } else {
        match items[k - 1] {
            Item::Func(x) => functions_before(items, k - 1).push(x),
            _ => functions_before(items, k - 1),
        }
    }
}

/// The records among the first `k` of `items`, in order.
pub open spec fn records_before(items: Seq<Item>, k: int) -> Seq<Record>
    decreases k,
{
    if k <= 0 || k > items.len() {
        Seq::empty()
    } else {
        match items[k - 1] {
            Item::Record(x) => records_before(items, k - 1).push(x),
            _ => records_before(items, k - 1),
        }
    }
}

/// The type aliases among the first `k` of `items`, in order.
pub open spec fn type_aliases_before(items: Seq<Item>, k: int) -> Seq<TypeAlias>
    decreases k,
{
    if k <= 0 || k > items.len() {
        Seq::empty()
    } else {
        match items[k - 1] {
            Item::TypeAlias(x) => type_aliases_before(items, k - 1).push(x),
            _ => type_aliases_before(items, k - 1),
        }
    }
}

/// The namespaces among the first `k` of `items`, in order.
pub open spec fn namespaces_before(items: Seq<Item>, k: int) -> Seq<Namespace>
    decreases k,
{
    if k <= 0 || k > items.len() {
        Seq::empty()
    } else {
        match items[k - 1] {
            Item::Namespace(x) => namespaces_before(items, k - 1).push(x),
            _ => namespaces_before(items, k - 1),
        }
    }
}

/// The comments among the first `k` of `items`, in order.
pub open spec fn comments_before(items: Seq<Item>, k: int) -> Seq<Comment>
    decreases k,
{
    if k <= 0 || k > items.len() {
        Seq::empty()
    } else {
        match items[k - 1] {
            Item::Comment(x) => comments_before(items, k - 1).push(x),
            _ => comments_before(items, k - 1),
        }
    }
}

/// The unsupported items among the first `k` of `items`, in order.
pub open spec fn unsupported_items_before(items: Seq<Item>, k: int) -> Seq<UnsupportedItem>
    decreases k,
{
    if k <= 0 || k > items.len() {
        Seq::empty()
    } else {
        match items[k - 1] {
            Item::UnsupportedItem(x) => unsupported_items_before(items, k - 1).push(x),
            _ => unsupported_items_before(items, k - 1),
        }
    }
}

/// The position of the first of `items` with the identity `id`, among the
/// first `k`.
pub open spec fn position_before(items: Seq<Item>, id: ItemId, k: int) -> Option<int>
    decreases k,
{
    if k <= 0 || k > items.len() {
        None
    } else {
        match position_before(items, id, k - 1) {
            Some(p) => Some(p),
            None => if items[k - 1]@.id() == id {
                Some(k - 1)
            } else {
                None
            },
        }
    }
}

impl IR {

    /// The functions of the graph, in order.
    pub fn functions(&self) -> (r: Vec<&Func>)
        ensures
            r@.len() == functions_before(self.items@, self.items@.len() as int).len(),
            forall|j: int|
                0 <= j < r@.len() ==> *(#[trigger] r@[j]) == functions_before(
                    self.items@,
                    self.items@.len() as int,
                )[j],
    {
        let mut r: Vec<&Func> = Vec::new();
        let mut k: usize = 0;
        while k < self.items.len()
            invariant
                0 <= k <= self.items.len(),
                r@.len() == functions_before(self.items@, k as int).len(),
                forall|j: int|
                    0 <= j < r@.len() ==> *(#[trigger] r@[j]) == functions_before(
                        self.items@,
                        k as int,
                    )[j],
            decreases self.items.len() - k,
        {
            match &self.items[k] {
                Item::Func(x) => {
                    r.push(x);
                },
                _ => {},
            }
            k += 1;
        }
        r
    }

    /// The records of the graph, in order.
    pub fn records(&self) -> (r: Vec<&Record>)
        ensures
            r@.len() == records_before(self.items@, self.items@.len() as int).len(),
            forall|j: int|
                0 <= j < r@.len() ==> *(#[trigger] r@[j]) == records_before(
                    self.items@,
                    self.items@.len() as int,
                )[j],
    {
        let mut r: Vec<&Record> = Vec::new();
        let mut k: usize = 0;
        while k < self.items.len()
            invariant
                0 <= k <= self.items.len(),
                r@.len() == records_before(self.items@, k as int).len(),
                forall|j: int|
                    0 <= j < r@.len() ==> *(#[trigger] r@[j]) == records_before(
                        self.items@,
                        k as int,
                    )[j],
            decreases self.items.len() - k,
        {
            match &self.items[k] {
                Item::Record(x) => {
                    r.push(x);
                },
                _ => {},
            }
            k += 1;
        }
        r
    }

    /// The type aliases of the graph, in order.
    pub fn type_aliases(&self) -> (r: Vec<&TypeAlias>)
        ensures
            r@.len() == type_aliases_before(self.items@, self.items@.len() as int).len(),
            forall|j: int|
                0 <= j < r@.len() ==> *(#[trigger] r@[j]) == type_aliases_before(
                    self.items@,
                    self.items@.len() as int,
                )[j],
    {
        let mut r: Vec<&TypeAlias> = Vec::new();
        let mut k: usize = 0;
        while k < self.items.len()
            invariant
                0 <= k <= self.items.len(),
                r@.len() == type_aliases_before(self.items@, k as int).len(),
                forall|j: int|
                    0 <= j < r@.len() ==> *(#[trigger] r@[j]) == type_aliases_before(
                        self.items@,
                        k as int,
                    )[j],
            decreases self.items.len() - k,
        {
            match &self.items[k] {
                Item::TypeAlias(x) => {
                    r.push(x);
                },
                _ => {},
            }
            k += 1;
        }
        r
    }

    /// The namespaces of the graph, in order.
    pub fn namespaces(&self) -> (r: Vec<&Namespace>)
        ensures
            r@.len() == namespaces_before(self.items@, self.items@.len() as int).len(),
            forall|j: int|
                0 <= j < r@.len() ==> *(#[trigger] r@[j]) == namespaces_before(
                    self.items@,
                    self.items@.len() as int,
                )[j],
    {
        let mut r: Vec<&Namespace> = Vec::new();
        let mut k: usize = 0;
        while k < self.items.len()
            invariant
                0 <= k <= self.items.len(),
                r@.len() == namespaces_before(self.items@, k as int).len(),
                forall|j: int|
                    0 <= j < r@.len() ==> *(#[trigger] r@[j]) == namespaces_before(
                        self.items@,
                        k as int,
                    )[j],
            decreases self.items.len() - k,
        {
            match &self.items[k] {
                Item::Namespace(x) => {
                    r.push(x);
                },
                _ => {},
            }
            k += 1;
        }
        r
    }

    /// The comments of the graph, in order.
    pub fn comments(&self) -> (r: Vec<&Comment>)
        ensures
            r@.len() == comments_before(self.items@, self.items@.len() as int).len(),
            forall|j: int|
                0 <= j < r@.len() ==> *(#[trigger] r@[j]) == comments_before(
                    self.items@,
                    self.items@.len() as int,
                )[j],
    {
        let mut r: Vec<&Comment> = Vec::new();
        let mut k: usize = 0;
        while k < self.items.len()
            invariant
                0 <= k <= self.items.len(),
                r@.len() == comments_before(self.items@, k as int).len(),
                forall|j: int|
                    0 <= j < r@.len() ==> *(#[trigger] r@[j]) == comments_before(
                        self.items@,
                        k as int,
                    )[j],
            decreases self.items.len() - k,
        {
            match &self.items[k] {
                Item::Comment(x) => {
                    r.push(x);
                },
                _ => {},
            }
            k += 1;
        }
        r
    }

    /// The unsupported items of the graph, in order.
    pub fn unsupported_items(&self) -> (r: Vec<&UnsupportedItem>)
        ensures
            r@.len() == unsupported_items_before(self.items@, self.items@.len() as int).len(),
            forall|j: int|
                0 <= j < r@.len() ==> *(#[trigger] r@[j]) == unsupported_items_before(
                    self.items@,
                    self.items@.len() as int,
                )[j],
    {
        let mut r: Vec<&UnsupportedItem> = Vec::new();
        let mut k: usize = 0;
        while k < self.items.len()
            invariant
                0 <= k <= self.items.len(),
                r@.len() == unsupported_items_before(self.items@, k as int).len(),
                forall|j: int|
                    0 <= j < r@.len() ==> *(#[trigger] r@[j]) == unsupported_items_before(
                        self.items@,
                        k as int,
                    )[j],
            decreases self.items.len() - k,
        {
            match &self.items[k] {
                Item::UnsupportedItem(x) => {
                    r.push(x);
                },
                _ => {},
            }
            k += 1;
        }
        r
    }

    /// The item with the identity `id`, if the graph holds one.
    pub fn find_decl(&self, id: ItemId) -> (r: Option<&Item>)
        ensures
            match r {
                Some(item) => position_before(self.items@, id, self.items@.len() as int) matches Some(
                    p,
                ) && 0 <= p < self.items@.len() && *item == self.items@[p] && item@.id() == id,
                None => position_before(self.items@, id, self.items@.len() as int) is None,
            },
    {
        let mut k: usize = 0;
        while k < self.items.len()
            invariant
                0 <= k <= self.items.len(),
                position_before(self.items@, id, k as int) is None,
            decreases self.items.len() - k,
        {
            if self.items[k].id() == id {
                proof {
                    lemma_position_stays(self.items@, id, k + 1);
                }
                return Some(&self.items[k]);
            }
            k += 1;
        }
        None
    }

    /// Whether `label` is the target that the unit belongs to: the one whose
    /// items bindings are generated for.
    pub fn is_current_target(&self, label: &String) -> (r: bool)
        ensures
            r == (label@ == self@.current_target),
    {
        *label == self.current_target
    }

    /// The item that stands for the entity that the declaration with the
    /// index `decl` declares, if the graph holds one.
    pub fn item_of_decl(&self, decl: usize) -> (r: Option<ItemId>)
        ensures
            r == (if decl < self@.decl_item_ids.len() {
                self@.decl_item_ids[decl as int]
            } else {
                None
            }),
    {
        if decl < self.decl_item_ids.len() {
            self.decl_item_ids[decl]
        } else {
            None
        }
    }

    /// The items at the outermost scope, in source order.
    pub fn top_level_item_ids(&self) -> (r: &Vec<ItemId>)
        ensures
            r@ == self@.top_level_item_ids,
    {
        &self.top_level_item_ids
    }
}

/// Once an item with the identity is found, it stays the first.
pub proof fn lemma_position_stays(items: Seq<Item>, id: ItemId, k: int)
    requires
        0 <= k <= items.len(),
        position_before(items, id, k) is Some,
    ensures
        position_before(items, id, items.len() as int) == position_before(items, id, k),
    decreases items.len() - k,
{
    if k < items.len() {
        lemma_position_stays(items, id, k + 1);
    }
}

} // verus!
