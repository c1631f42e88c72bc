//! Memoization as a source transformation.
//!
//! Given the declaration of a pure function, the library produces three
//! declarations that take its place: a thread-scoped cache, a wrapper that
//! keeps the function's name and looks a call up in the cache before it
//! computes anything, and the function's own implementation under a new name.
//!
//! * [`decl`] models a function declaration as plain data.
//! * [`diagnostic`] holds the reasons for which a declaration is refused.
//! * [`analysis`] reads the parameters that form the cache key and the type
//!   of the cached values.
//! * [`text`] joins pieces of source text.
//! * [`cache`] writes the declaration of the cache.
//! * [`wrapper`] writes the body of the wrapper.
//! * [`expand`] puts the steps together.
//! * [`semantics`] says what a call of the wrapper does to the cache and
//!   proves the laws of memoization of it.
//! * [`runtime`] is an executable cache that follows those semantics.
//! * [`syntax`] reads a declaration from a syntax tree.

pub mod analysis;
pub mod cache;
pub mod decl;
pub mod diagnostic;
pub mod expand;
pub mod runtime;
pub mod semantics;
pub mod syntax;
pub mod text;
pub mod wrapper;

pub use crate::expand::expand;
pub use crate::syntax::{memoize_item, read_function};
