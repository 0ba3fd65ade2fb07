//! GPU context acquisition with backend fallback.
//!
//! A render target is given a surface, an adapter and a device with its queue,
//! first under the browser-native GPU API and, where any step of that fails,
//! once more under the portable GL-based API on a fresh render target.
//! `controller` holds the decisions as a verified state machine, `limits` the
//! device limits that are requested, and `guarantees` what is proved of every
//! negotiation.
use vstd::prelude::*;

pub mod limits;
pub mod controller;
pub mod guarantees;

verus! {

/// Sums two counters.
pub fn add(a: u32, b: u32) -> (r: u32)
    requires
        a + b <= u32::MAX,
    ensures
        r == a + b,
{
    a + b
}

} // verus!
