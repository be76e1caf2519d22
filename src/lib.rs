//! A host for a hot-swappable code module: it notices when a rebuilt
//! artifact lands on disk, captures the running module's state, swaps the
//! module and hands the state back, all within one frame.

use vstd::prelude::*;

pub mod asset;
pub mod capsule;
pub mod coordinator;
pub mod effect;
pub mod host;
pub mod scene;
pub mod staging;
pub mod texture;
pub mod watcher;

verus! {

/// The sum of `left` and `right`.
pub fn add(left: usize, right: usize) -> (r: usize)
    requires
        left + right <= usize::MAX,
    ensures
        r == left + right,
{
    left + right
}

} // verus!
