use vstd::prelude::*;

verus! {

/// Why an instruction buffer was rejected.
///
/// Every malformed-input path returns one of these; no input makes the
/// decoder panic.
#[derive(Clone, Copy, Debug, PartialEq, Eq, Structural)]
pub enum DecodeError {
    /// The buffer is shorter than the opcode or a declared field length requires.
    TruncatedBuffer,
    /// The 4-byte opcode is not one of the six defined values.
    InvalidOpcode,
    /// A textual field holds bytes that are not valid UTF-8.
    InvalidEncoding,
    /// Offset arithmetic would leave the addressable range. The decoder
    /// checks every bound before it indexes, so no input reaches this;
    /// the variant stands as the defensive kind for such a failure.
    LengthOverflow,
}

} // verus!
