//! Builds the intermediate representation that a binding generator works from:
//! a graph of items describing every declaration of a unit of native source
//! code, how each of its types maps across the language boundary, and why a
//! declaration cannot be bound where it cannot.
//!
//! The front end of the native compiler hands over a graph of declarations
//! ([`decl`]). [`assemble::build_ir`] turns it into the graph of items
//! ([`ir`]):
//!
//! - [`scope`] finds the declarations that the walk over the graph reaches,
//!   the access of every member, and the class template specializations that
//!   something instantiates;
//! - [`types`] maps native types to pairs of a native and a target type;
//! - [`support`] finds the declarations that have bindings, given that a
//!   declaration loses them with any declaration it depends on;
//! - [`names`], [`func`], [`record`] and [`comment`] build what an item
//!   holds: names and owning targets, functions, records with their layout,
//!   and the text of doc comments;
//! - [`layout`] refuses layouts that no record can have;
//! - [`laws`] states what holds of every graph of items.
//!
//! [`run`] is the course of one run of the generator around all this.

pub mod assemble;
pub mod comment;
pub mod decl;
pub mod func;
pub mod ident;
pub mod ir;
pub mod laws;
pub mod layout;
pub mod names;
pub mod record;
pub mod run;
pub mod samples;
pub mod scope;
pub mod support;
pub mod text;
pub mod types;
