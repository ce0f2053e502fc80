//! A query-and-patch facade over an in-memory representation of a
//! virtual-machine bytecode module.
//!
//! The [`model::Module`] type holds the parts of a parsed module that the
//! queries read: the type table, the function table and the optional debug
//! file table. On top of it the crate offers debug-file queries, lookups by
//! index and by name, structural stub synthesis for classes and functions,
//! and transplantation of a function from one module into another. Every
//! operation takes its index arguments as decimal text, validates everything
//! it touches, and reports malformed input or a broken module invariant as an
//! error value instead of failing abruptly.

pub mod error;
pub mod model;
pub mod mutate;
pub mod numtext;
pub mod ops;
pub mod queries;
pub mod stub;
pub mod laws;
