//! Flags for creating a network definition.

use vstd::prelude::*;

verus! {

/// Explicit batch sizes.
pub const EXPLICIT_BATCH: u32 = 1 << 0;

} // verus!
