use vstd::prelude::*;

verus! {

/// The closed set of ways a demux can fail, so that callers can branch on
/// the kind. Unrecognized-but-well-formed discriminant codes are not errors:
/// they classify into the escape variants of the tag and packet types.
///
/// The read cursor is a plain value over a fully resident buffer, so a seek
/// can never fail here: a malformed structure and a short buffer are the
/// only ways a demux can go wrong.
#[derive(Debug, Clone, Copy, PartialEq, Eq, Structural)]
pub enum FlvError {
    /// The file header's signature or version bytes are not those of the
    /// FLV format, or its body offset points inside the header itself.
    InvalidHeader,
    /// A declared payload or fixed-field length exceeds the remaining
    /// buffer. Fatal: no partial tag is emitted.
    Truncation,
}

} // verus!
