//! Frequencies.

use vstd::prelude::*;

verus! {

/// A frequency in hertz.
#[derive(Debug, Copy, Clone, PartialEq, Eq, Structural)]
pub struct Hertz(pub u32);

} // verus!
