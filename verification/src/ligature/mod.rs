//! Typed host model for Ligature's production serial protocol.

pub mod client;
pub mod lifecycle;
pub mod protocol;

use vstd::prelude::*;

verus! {

/// Fixed baud rate implemented by Ligature's production firmware.
pub const LIGATURE_BAUD: u32 = 500_000;

} // verus!
