//! Compute-kernel binding and dispatch for kernels whose resources the host owns.
//!
//! Shader bytecode is decoded and cross-compiled (`bytecode`), its reflected
//! bindings become binding layouts and a shared globals block (`reflection`,
//! `group`), kernel groups live in a registry that hands each out to one
//! session at a time (`registry`), and a session gathers globals writes and
//! resource bindings and plans dispatches (`session`). Host format and
//! dimension codes map to backend values through `formats`.

use vstd::prelude::*;

pub mod bytecode;
pub mod formats;
pub mod group;
pub mod image_format;
pub mod reflection;
pub mod registry;
pub mod session;
pub mod table;

verus! {

/// Material texture payload record shared with the host.
pub struct MatTextureData {}

} // verus!
