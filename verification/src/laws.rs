//! General properties of validation, stated over the model and proved once
//! for all buffers.

use vstd::prelude::*;

use crate::errors::ValidationError;
use crate::model::{
    checked_product, dims_of, lemma_checked_product_exact, passes_header_stages, required_total,
    validate_spec,
};

verus! {

/// Every buffer shorter than four bytes — too short to hold even the fixed
/// prefix — is rejected as truncated.
pub proof fn lemma_short_prefix_truncated(b: Seq<u8>)
    requires
        b.len() < 4,
    ensures
        validate_spec(b) == Err::<(), ValidationError>(ValidationError::Truncated),
{
}

/// A nonzero byte at offset 0 or 1 is rejected as bad padding, whatever
/// the rest of the buffer holds, for every buffer long enough that the
/// prefix can be read at all (a shorter one is already truncated).
pub proof fn lemma_nonzero_padding_rejected(b: Seq<u8>)
    requires
        b.len() >= 4,
        b[0] != 0 || b[1] != 0,
    ensures
        validate_spec(b) == Err::<(), ValidationError>(ValidationError::BadPadding),
{
}

/// A declared shape whose exact total size leaves `u64` is reported as
/// overflow, never silently wrapped into a small "valid" size: for every
/// buffer that reaches the bounds calculation, if the product of the
/// dimensions times the element width plus the header length exceeds
/// `u64::MAX`, validation answers `Overflow`.
pub proof fn lemma_oversized_shape_overflows(b: Seq<u8>)
    requires
        passes_header_stages(b),
        required_total(b) > u64::MAX,
    ensures
        validate_spec(b) == Err::<(), ValidationError>(ValidationError::Overflow),
{
    lemma_checked_product_exact(dims_of(b));
}

/// For every buffer that reaches the bounds calculation with all
/// arithmetic in `u64` range, the answer is decided purely by comparing
/// the buffer's length with the required total: equal succeeds, shorter is
/// truncated, longer is over-allocated and carries both lengths.
pub proof fn lemma_length_decides(b: Seq<u8>)
    requires
        passes_header_stages(b),
        checked_product(dims_of(b)) is Some,
        required_total(b) <= u64::MAX,
        b.len() <= usize::MAX,
    ensures
        b.len() == required_total(b) ==> validate_spec(b) == Ok::<(), ValidationError>(()),
        b.len() < required_total(b) ==> validate_spec(b) == Err::<(), ValidationError>(
            ValidationError::Truncated,
        ),
        b.len() > required_total(b) ==> validate_spec(b) == Err::<(), ValidationError>(
            ValidationError::OverAllocated {
                declared: required_total(b) as usize,
                actual: b.len() as usize,
            },
        ),
{
    lemma_checked_product_exact(dims_of(b));
}

/// Validation is a pure function of the buffer's bytes: two results both
/// obtained for the same byte sequence are the same result, so validating
/// an immutable buffer twice answers the same both times.
pub proof fn lemma_validate_idempotent(
    b: Seq<u8>,
    r1: Result<(), ValidationError>,
    r2: Result<(), ValidationError>,
)
    requires
        r1 == validate_spec(b),
        r2 == validate_spec(b),
    ensures
        r1 == r2,
{
}

} // verus!
