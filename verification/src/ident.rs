//! Names and identities of items.

use vstd::prelude::*;
use vstd::string::*;
use crate::decl::DeclName;
use crate::text::push_decimal;
use crate::text::decimal;

verus! {

/// Identifies an item of the graph. Zero identifies no item.
#[derive(Clone, Copy, Debug, PartialEq, Eq, Hash, Structural)]
pub struct ItemId(pub usize);

/// The identity of the item that stands for the canonical declaration with
/// index `decl`.
pub open spec fn item_id(decl: int) -> ItemId {
    ItemId((decl + 1) as usize)
}

impl ItemId {
    /// The identity of the item that stands for the canonical declaration
    /// with index `decl`.
    pub fn of_decl(decl: usize) -> (id: ItemId)
        requires
            decl < usize::MAX,
        ensures
            id == item_id(decl as int),
            id.0 != 0,
    {
        ItemId(decl + 1)
    }
}

/// A plain name.
#[derive(Debug, PartialEq, Eq)]
pub struct Identifier {
    pub identifier: String,
}

impl View for Identifier {
    type V = Seq<char>;

    open spec fn view(&self) -> Seq<char> {
        self.identifier@
    }
}

/// A named operator, by its spelling.
#[derive(Debug, PartialEq, Eq)]
pub struct Operator {
    pub name: String,
}

/// What a function is called by: a plain name, or one of the names that have
/// no plain spelling.
#[derive(Debug, PartialEq, Eq)]
pub enum UnqualifiedIdentifier {
    Identifier(Identifier),
    Operator(Operator),
    Constructor,
    Destructor,
}

/// An `UnqualifiedIdentifier` as a ghost value.
pub enum UnqualifiedName {
    Identifier(Seq<char>),
    Operator(Seq<char>),
    Constructor,
    Destructor,
}

impl View for UnqualifiedIdentifier {
    type V = UnqualifiedName;

    open spec fn view(&self) -> UnqualifiedName {
        match self {
            UnqualifiedIdentifier::Identifier(id) => UnqualifiedName::Identifier(id.identifier@),
            UnqualifiedIdentifier::Operator(op) => UnqualifiedName::Operator(op.name@),
            UnqualifiedIdentifier::Constructor => UnqualifiedName::Constructor,
            UnqualifiedIdentifier::Destructor => UnqualifiedName::Destructor,
        }
    }
}

/// The name under which a declaration named `name` is bound; an unnamed
/// declaration has none.
pub open spec fn translated_name(name: DeclName) -> Option<UnqualifiedName> {
    match name {
        DeclName::Identifier(s) => Some(UnqualifiedName::Identifier(s@)),
        DeclName::Operator(s) => Some(UnqualifiedName::Operator(s@)),
        DeclName::Constructor => Some(UnqualifiedName::Constructor),
        DeclName::Destructor => Some(UnqualifiedName::Destructor),
        DeclName::Unnamed => None,
    }
}

/// The name under which a declaration named `name` is bound. Operators keep
/// their spelling as it is.
pub fn translate_name(name: &DeclName) -> (r: Option<UnqualifiedIdentifier>)
    ensures
        match r {
            Some(u) => translated_name(*name) == Some(u@),
            None => translated_name(*name) is None,
        },
{
    match name {
        DeclName::Identifier(s) => Some(
            UnqualifiedIdentifier::Identifier(Identifier { identifier: s.clone() }),
        ),
        DeclName::Operator(s) => Some(UnqualifiedIdentifier::Operator(Operator { name: s.clone() })),
        DeclName::Constructor => Some(UnqualifiedIdentifier::Constructor),
        DeclName::Destructor => Some(UnqualifiedIdentifier::Destructor),
        DeclName::Unnamed => None,
    }
}

/// The name given to the parameter at position `index` where the source
/// gives it none.
pub open spec fn param_name(index: nat) -> Seq<char> {
    "__param_"@ + decimal(index)
}

/// The name of the parameter that stands for the object of an instance
/// method.
pub open spec fn this_name() -> Seq<char> {
    "__this"@
}

/// The name given to the parameter at position `index` where the source
/// gives it none.
pub fn synthesize_param_name(index: usize) -> (id: Identifier)
    ensures
        id@ == param_name(index as nat),
{
    let mut s = String::from_str("__param_");
    push_decimal(&mut s, index);
    Identifier { identifier: s }
}

/// The name of the parameter that stands for the object of an instance
/// method.
pub fn this_identifier() -> (id: Identifier)
    ensures
        id@ == this_name(),
{
    Identifier { identifier: String::from_str("__this") }
}

/// The name of the parameter at position `index`: the one the source gives
/// it, or the synthesized one.
pub open spec fn param_identifier(name: Option<String>, index: nat) -> Seq<char> {
    match name {
        Some(s) => s@,
        None => param_name(index),
    }
}

/// The name of the parameter at position `index`: the one the source gives
/// it, or the synthesized one.
pub fn name_param(name: &Option<String>, index: usize) -> (id: Identifier)
    ensures
        id@ == param_identifier(*name, index as nat),
{
    match name {
        Some(s) => Identifier { identifier: s.clone() },
        None => synthesize_param_name(index),
    }
}

} // verus!
