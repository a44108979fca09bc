//! Short names for the hexadecimal renderers.

use vstd::prelude::*;

use crate::adapters;

verus! {

/// A name for a `LowerHex`.
pub type LowerHex = adapters::LowerHex;

/// A name for a `UpperHex`.
pub type UpperHex = adapters::UpperHex;

/// A name for a `LowerHex`.
pub type Hex = LowerHex;

} // verus!
