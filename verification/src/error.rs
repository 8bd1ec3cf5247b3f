use vstd::prelude::*;

verus! {

/// Why a log could not be parsed.
#[derive(Debug, Clone, Copy, PartialEq, Eq, Structural)]
pub enum ParseError {
    /// A read needed more bytes than the input has left.
    UnexpectedEnd,
    /// The frame starting at `offset` does not open with `[`, a category byte and `=`.
    InvalidRecordHeader { offset: usize },
    /// The frame starting at `offset` has no closing `/]`.
    UnterminatedRecord { offset: usize },
    /// A record payload of `size` bytes has bytes left after its fields.
    TrailingBytes { size: usize },
    /// A challenge list announces `count` entries that cannot fit in the payload.
    InvalidChallengeCount { count: usize },
    /// An awards payload of `size` bytes is not a whole number of entries.
    InvalidAwardsSize { size: usize },
    /// An on-track pickup list announces `count` entries that cannot fit in the payload.
    InvalidPickupCount { count: usize },
    /// A `size`-byte username field is not valid UTF-16.
    InvalidUsername { size: usize },
}

impl ParseError {
    /// The size the error reports: the offset, count or length it names (0 for a short read).
    pub fn size(&self) -> (s: usize)
        ensures
            s == match *self {
                ParseError::UnexpectedEnd => 0,
                ParseError::InvalidRecordHeader { offset } => offset,
                ParseError::UnterminatedRecord { offset } => offset,
                ParseError::TrailingBytes { size } => size,
                ParseError::InvalidChallengeCount { count } => count,
                ParseError::InvalidAwardsSize { size } => size,
                ParseError::InvalidPickupCount { count } => count,
                ParseError::InvalidUsername { size } => size,
            },
    {
        match self {
            ParseError::UnexpectedEnd => 0,
            ParseError::InvalidRecordHeader { offset } => *offset,
            ParseError::UnterminatedRecord { offset } => *offset,
            ParseError::TrailingBytes { size } => *size,
            ParseError::InvalidChallengeCount { count } => *count,
            ParseError::InvalidAwardsSize { size } => *size,
            ParseError::InvalidPickupCount { count } => *count,
            ParseError::InvalidUsername { size } => *size,
        }
    }
}

} // verus!
