use vstd::prelude::*;

verus! {

/// Why an operation on a memory map was refused.
#[derive(Clone, Copy, Debug, PartialEq, Eq, Structural)]
pub enum MapError {
    /// A mapping of zero bytes was requested (an empty file, or an anonymous
    /// mapping of length zero): an invalid argument.
    ZeroLength,
    /// An index or range reaches past the end of the mapping.
    OutOfBounds,
    /// A buffer did not fit in the mapping from the given offset on; the part
    /// that fits was written.
    WriteZero,
}

impl MapError {
    /// Whether the error is an invalid argument given when a mapping was
    /// requested, as opposed to a refused access to an existing mapping.
    pub fn is_invalid_argument(&self) -> (r: bool)
        ensures
            r == (*self is ZeroLength),
    {
        match self {
            MapError::ZeroLength => true,
            _ => false,
        }
    }

    /// A short description of the error.
    pub fn description(&self) -> (r: &'static str)
        ensures
            *self is ZeroLength ==> r@ == "cannot map a region of zero bytes"@,
            *self is OutOfBounds ==> r@ == "index out of bounds of the memory map"@,
            *self is WriteZero ==> r@ == "failed to write whole buffer"@,
    {
        match self {
            MapError::ZeroLength => "cannot map a region of zero bytes",
            MapError::OutOfBounds => "index out of bounds of the memory map",
            MapError::WriteZero => "failed to write whole buffer",
        }
    }
}

} // verus!
