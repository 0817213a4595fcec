//! A build-time generator of C-ABI boundaries.
//!
//! Declarations of records and operation collections are extracted into a
//! model ([`model`]), their types mapped onto C-ABI shapes ([`types`]), and
//! the model visited ([`plugin`]) by two backends: the native entry points
//! ([`wrapper`]) and the header declarations ([`header`]).
use vstd::prelude::*;

pub mod header;
pub mod model;
pub mod plugin;
pub mod types;
pub mod wrapper;

verus! {

/// Handle type under which the native runtime's process-wide operations are exported.
pub struct CRT {}

} // verus!
