use vstd::prelude::*;

pub mod action;
pub mod app;
pub mod config;
pub mod fetch;
pub mod input;
pub mod popups;
pub mod search;
pub mod snapshot;
pub mod stats;
pub mod table;
pub mod torrents;
pub mod window;

verus! {

/// Sum of two machine-word counters.
pub fn add(left: usize, right: usize) -> (r: usize)
    requires
        left + right <= usize::MAX,
    ensures
        r == left + right,
{
    left + right
}

} // verus!
