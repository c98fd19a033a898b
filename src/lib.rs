//! Rewrites parameter-position `impl Trait` types into explicit generic
//! parameters, on bare functions, trait definitions and trait implementations.
//!
//! The library works on a plain model of the syntax: a signature is a list of
//! parameters, a list of generic parameters and a return type, each type either
//! an opaque `impl` type with its bounds or some other type written verbatim.
//! The rewrite and the dispatch over item shapes are proved against spec
//! functions over the views of these types.

pub mod item;
pub mod model;
pub mod naming;
pub mod signature;

pub use item::{into_generic, Diagnostic, Item, Member};
pub use model::{Bound, GenericParam, Param, Signature, Ty};
pub use naming::generic_name;
pub use signature::sig_into_generic;
