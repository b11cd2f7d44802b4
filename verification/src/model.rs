//! Mathematical model of the IDX header format.
//!
//! These spec functions say what a buffer declares and what `validate` must
//! answer, independently of the executable code that computes it.

use vstd::prelude::*;

use crate::errors::ValidationError;

verus! {

/// Element width in bytes for each recognized type code; `None` for a code
/// outside the fixed table.
pub open spec fn width_of_code(code: u8) -> Option<u8> {
    if code == 0x08 {
        Some(1u8)  // unsigned byte
    } else if code == 0x09 {
        Some(1u8)  // signed byte
    } else if code == 0x0B {
        Some(2u8)  // 16-bit integer
    } else if code == 0x0C {
        Some(4u8)  // 32-bit integer
    } else if code == 0x0D {
        Some(4u8)  // 32-bit float
    } else if code == 0x0E {
        Some(8u8)  // 64-bit float
    } else {
        None
    }
}

/// The big-endian 32-bit value stored at byte offset `off`.
pub open spec fn be_u32_at(b: Seq<u8>, off: int) -> u32 {
    (b[off] * 0x100_0000 + b[off + 1] * 0x1_0000 + b[off + 2] * 0x100 + b[off + 3]) as u32
}

/// The number of dimensions the buffer declares (byte 3 of the prefix).
pub open spec fn dim_count(b: Seq<u8>) -> int {
    b[3] as int
}

/// The length of the header: the 4-byte prefix plus 4 bytes per dimension.
pub open spec fn header_len(b: Seq<u8>) -> int {
    4 + 4 * dim_count(b)
}

/// The declared dimension sizes, in order, outermost first.
pub open spec fn dims_of(b: Seq<u8>) -> Seq<u32> {
    Seq::new(dim_count(b) as nat, |i: int| be_u32_at(b, 4 + 4 * i))
}

/// The exact mathematical product of the dimension sizes (1 for an empty
/// sequence, so a rank-0 array declares a single scalar element).
pub open spec fn product_of(dims: Seq<u32>) -> int
    decreases dims.len(),
{
    if dims.len() == 0 {
        1
    } else {
        product_of(dims.drop_last()) * dims.last()
    }
}

/// The product of the dimension sizes as a left fold with an overflow check
/// at every step: `None` as soon as any intermediate product leaves `u64`,
/// even if a later zero dimension would bring the exact product back into
/// range.
pub open spec fn checked_product(dims: Seq<u32>) -> Option<u64>
    decreases dims.len(),
{
    if dims.len() == 0 {
        Some(1u64)
    } else {
        match checked_product(dims.drop_last()) {
            Option::None => Option::None,
            Option::Some(p) => if p * dims.last() > u64::MAX {
                Option::None
            } else {
                Option::Some((p * dims.last()) as u64)
            },
        }
    }
}

/// The element width the buffer's type code declares, as an integer.
/// Meaningful only when the code is recognized; 0 stands in otherwise.
pub open spec fn declared_width(b: Seq<u8>) -> int {
    match width_of_code(b[2]) {
        Option::Some(w) => w as int,
        Option::None => 0,
    }
}

/// The exact total byte length the header declares: prefix and dimension
/// table, plus one element width per declared element.
pub open spec fn required_total(b: Seq<u8>) -> int {
    header_len(b) + product_of(dims_of(b)) * declared_width(b)
}

/// The buffer survives every stage before the bounds calculation: the
/// prefix can be read, the reserved bytes are zero, the dimension table is
/// present in full, and the type code is recognized.
pub open spec fn passes_header_stages(b: Seq<u8>) -> bool {
    &&& b.len() >= 4
    &&& b[0] == 0
    &&& b[1] == 0
    &&& b.len() >= header_len(b)
    &&& width_of_code(b[2]) is Some
}

/// A fold step that has failed can never recover: once the checked product
/// of a prefix of the dimensions is `None`, the checked product of the
/// whole sequence is `None` as well.
pub proof fn lemma_checked_product_none_extends(dims: Seq<u32>, i: int)
    requires
        0 <= i <= dims.len(),
        checked_product(dims.take(i)) is None,
    ensures
        checked_product(dims) is None,
    decreases dims.len() - i,
{
    if i == dims.len() {
        assert(dims.take(i) =~= dims);
    } else {
        assert(dims.take(i + 1).drop_last() =~= dims.take(i));
        lemma_checked_product_none_extends(dims, i + 1);
    }
}

/// When the overflow-checked product succeeds, it is the exact
/// mathematical product, and that product fits in `u64`.
pub proof fn lemma_checked_product_exact(dims: Seq<u32>)
    ensures
        checked_product(dims) is Some ==> {
            &&& 0 <= product_of(dims) <= u64::MAX
            &&& checked_product(dims) == Some(product_of(dims) as u64)
        },
    decreases dims.len(),
{
    if dims.len() > 0 {
        lemma_checked_product_exact(dims.drop_last());
        if checked_product(dims) is Some {
            let p = product_of(dims.drop_last());
            let l = dims.last() as int;
            assert(p * l >= 0) by (nonlinear_arith)
                requires
                    p >= 0,
                    l >= 0,
            ;
        }
    }
}

/// What `validate` answers for a buffer: the whole decision, stage by stage,
/// failing at the first problem.
pub open spec fn validate_spec(b: Seq<u8>) -> Result<(), ValidationError> {
    if b.len() < 4 {
        Err(ValidationError::Truncated)
    } else if b[0] != 0 || b[1] != 0 {
        Err(ValidationError::BadPadding)
    } else if b.len() < header_len(b) {
        Err(ValidationError::Truncated)
    } else {
        match width_of_code(b[2]) {
            Option::None => Err(ValidationError::UnknownTypeCode { code: b[2] }),
            Option::Some(w) => match checked_product(dims_of(b)) {
                Option::None => Err(ValidationError::Overflow),
                Option::Some(count) => if count * w > u64::MAX {
                    Err(ValidationError::Overflow)
                } else if header_len(b) + count * w > u64::MAX {
                    Err(ValidationError::Overflow)
                } else if b.len() < header_len(b) + count * w {
                    Err(ValidationError::Truncated)
                } else if b.len() > header_len(b) + count * w {
                    Err(ValidationError::OverAllocated {
                        declared: (header_len(b) + count * w) as usize,
                        actual: b.len() as usize,
                    })
                } else {
                    Ok(())
                },
            },
        }
    }
}

} // verus!
