//! Containment engine of a Win32 application agent: per-container path
//! layouts and hook plans, the redirect policy consulted by an intercepted
//! file-open entry point, and the decisions behind mounting a virtual root
//! and launching a contained process.

pub mod paths;
pub mod registry;
pub mod runtime;
pub mod hooks;
pub mod launcher;
pub mod mount;
pub mod services;

use vstd::prelude::*;

verus! {

/// The texts of a vector of strings.
pub open spec fn strings_view(v: Seq<String>) -> Seq<Seq<char>> {
    v.map_values(|s: String| s@)
}

} // verus!
