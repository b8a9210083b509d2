//! The failures that decoding and building can end in.
use vstd::prelude::*;

verus! {

/// Why a payload was not decoded or an instruction was not built.
#[derive(Clone, Copy, Debug, PartialEq, Eq, Structural)]
pub enum LendingError {
    /// The buffer is empty, so there is no tag byte to dispatch on.
    MissingTag,
    /// The tag byte is not assigned to any operation.
    UnrecognizedOperation,
    /// Fewer bytes remain than the next field needs.
    TruncatedInput,
    /// A boolean field holds a byte other than 0 or 1.
    InvalidFieldEncoding,
    /// Two lists that are paired element by element differ in length.
    ResourceListLengthMismatch,
}

} // verus!
