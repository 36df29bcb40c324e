//! Numbers that the library carries but never computes with.
//!
//! Pointer positions, scroll offsets, the content scale and the frame time
//! reach the library from the host and leave it for the toolkit or the
//! driver. They travel as IEEE 754 bit patterns, so that the values that come
//! out are exactly the values that went in.

use vstd::prelude::*;

verus! {

/// A single-precision number, as its 32 bits.
#[derive(Clone, Copy, Debug, PartialEq, Eq, Hash, Structural)]
pub struct Single {
    pub bits: u32,
}

/// A double-precision number, as its 64 bits.
#[derive(Clone, Copy, Debug, PartialEq, Eq, Hash, Structural)]
pub struct Double {
    pub bits: u64,
}

} // verus!
