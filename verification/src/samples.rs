//! The value types that stand on the target side for the records of a few
//! small native headers. They show what a record of the graph comes to once
//! bindings are generated from it: a plain field for each public field that
//! has a mapped type, and one byte of filling for a record that has none,
//! since no native object has size zero.

use vstd::prelude::*;

verus! {

/// Stands for `struct Foo { int i; int j; }`.
#[derive(Clone, Copy, Debug, PartialEq, Eq)]
pub struct Foo {
    /// A field
    pub i: i32,
    /// Another field
    pub j: i32,
}

/// Stands for `struct Bar { int i; }`.
#[derive(Clone, Copy, Debug, PartialEq, Eq)]
pub struct Bar {
    pub i: i32,
}

/// Stands for `struct HasNoComments { int i; }`.
#[derive(Clone, Copy, Debug, PartialEq, Eq)]
pub struct HasNoComments {
    pub i: i32,
}

/// Stands for `struct S {}` with its one method.
#[derive(Clone, Copy, Debug, PartialEq, Eq)]
pub struct S {
    /// Keeps the value from having size zero.
    pub placeholder: u8,
}

/// Stands for `struct SomeStruct {}`.
#[derive(Clone, Copy, Debug, PartialEq, Eq)]
pub struct SomeStruct {
    /// Keeps the value from having size zero.
    pub placeholder: u8,
}

/// Stands for `struct SomeOtherStruct {}`.
#[derive(Clone, Copy, Debug, PartialEq, Eq)]
pub struct SomeOtherStruct {
    /// Keeps the value from having size zero.
    pub placeholder: u8,
}

} // verus!
