//! A scriptable theming engine for an annotated directory tree: colour
//! resolution, a memoised glob matcher, and the entry snapshot handed to
//! configuration scripts.
use vstd::prelude::*;

pub mod color;
pub mod glob_cache;
pub mod api;
pub mod entry;
pub mod interop;
pub mod config;
pub mod tree;

verus! {

} // verus!
