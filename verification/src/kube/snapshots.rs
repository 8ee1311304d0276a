//! Volume snapshots.
use vstd::prelude::*;

verus! {

/// The body of a volume snapshot. Only its existence is checked, so it holds
/// nothing.
#[derive(Debug, Clone, Copy)]
pub struct VolumeSnapshotSpec {}

} // verus!
