//! The Kubernetes resources the bridge creates and the notebook lifecycle.
use vstd::prelude::*;

pub mod models;
pub mod notebook_lifecycle;
pub mod openwebui;
pub mod snapshots;

verus! {

} // verus!
