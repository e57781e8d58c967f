use vstd::prelude::*;

verus! {

/// A real-valued measurement carried as the 64 bits of its IEEE 754 binary
/// representation. The library stores and returns such values untouched; it
/// never computes with them.
#[derive(Debug, Clone, Copy, PartialEq, Eq, Structural)]
pub struct Quantity {
    pub bits: u64,
}

} // verus!
