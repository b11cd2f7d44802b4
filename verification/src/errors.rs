use vstd::prelude::*;

verus! {

/// The reasons a buffer is rejected. All are terminal and mutually
/// exclusive: validation stops at the first problem found.
#[derive(Debug, PartialEq, Eq, Structural)]
pub enum ValidationError {
    /// The buffer is shorter than its header or its declared payload requires.
    Truncated,
    /// The buffer is longer than the declared shape accounts for; carries the
    /// required length and the actual length for diagnostics.
    OverAllocated { declared: usize, actual: usize },
    /// One of the two reserved prefix bytes is nonzero.
    BadPadding,
    /// The type-code byte is not in the recognized table; carries the byte.
    UnknownTypeCode { code: u8 },
    /// A size computation exceeded the range of `u64`.
    Overflow,
}

impl ValidationError {
    /// The description each failure carries, as a sequence of characters.
    pub open spec fn message_spec(&self) -> Seq<char> {
        match self {
            ValidationError::Truncated => "Buffer has been truncated"@,
            ValidationError::OverAllocated { .. } => "Buffer has been overallocated"@,
            ValidationError::BadPadding => "Unexpected bytes at beginning of buffer"@,
            ValidationError::UnknownTypeCode { .. } => "Unrecognized type code"@,
            ValidationError::Overflow => "Can't represent claimed bounds"@,
        }
    }

    /// A short human-readable description of the failure.
    pub fn message(&self) -> (r: &'static str)
        ensures
            r@ == self.message_spec(),
    {
        match self {
            ValidationError::Truncated => "Buffer has been truncated",
            ValidationError::OverAllocated { .. } => "Buffer has been overallocated",
            ValidationError::BadPadding => "Unexpected bytes at beginning of buffer",
            ValidationError::UnknownTypeCode { .. } => "Unrecognized type code",
            ValidationError::Overflow => "Can't represent claimed bounds",
        }
    }
}

} // verus!
