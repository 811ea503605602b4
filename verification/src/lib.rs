use vstd::prelude::*;

pub mod engine;
pub mod model;
pub mod rayon_utils;
mod shared;
mod sys;

pub use shared::FastLock;
pub use sys::FastLockImpl;

verus! {

pub fn add(left: usize, right: usize) -> (r: usize)
    requires
        left + right <= usize::MAX,
    ensures
        r == left + right,
{
    left + right
}

} // verus!
