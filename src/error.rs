use vstd::prelude::*;

verus! {

/// Why a host value could not be translated.
#[derive(Debug, Clone, Copy, PartialEq, Eq, Structural)]
pub enum MapError {
    /// A host integer does not fit in 64 signed bits.
    IntegerOutOfRange,
    /// A host list does not end in nil.
    ImproperList,
    /// An element of a byte list is not an integer from 0 to 255.
    NotAByte,
}

} // verus!
