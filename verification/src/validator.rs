//! The executable validator: one linear pass over the header, with an
//! overflow check at every arithmetic step, proved to answer exactly what
//! [`validate_spec`] says.

use vstd::prelude::*;

use crate::errors::ValidationError;
use crate::model::{
    be_u32_at, checked_product, dims_of, lemma_checked_product_none_extends, validate_spec,
    width_of_code,
};

verus! {

/// Map a type code to its element width in bytes, per the fixed table.
fn element_width(code: u8) -> (r: Option<u8>)
    ensures
        r == width_of_code(code),
{
    match code {
        0x08 => Some(1),  // unsigned byte
        0x09 => Some(1),  // signed byte
        0x0B => Some(2),  // 16-bit integer
        0x0C => Some(4),  // 32-bit integer
        0x0D => Some(4),  // 32-bit float
        0x0E => Some(8),  // 64-bit float
        _ => None,
    }
}

/// Read the big-endian 32-bit value stored at byte offset `off`.
fn be_u32(buffer: &[u8], off: usize) -> (d: u32)
    requires
        off + 4 <= buffer@.len(),
    ensures
        d == be_u32_at(buffer@, off as int),
{
    let b0 = buffer[off];
    let b1 = buffer[off + 1];
    let b2 = buffer[off + 2];
    let b3 = buffer[off + 3];
    (b0 as u32) * 0x100_0000 + (b1 as u32) * 0x1_0000 + (b2 as u32) * 0x100 + (b3 as u32)
}

/// Decide whether `buffer` is a structurally well-formed IDX encoding: the
/// two reserved bytes are zero, the type code is recognized, and the length
/// the header declares — dimension product times element width plus header
/// bytes, every step checked against `u64` overflow — equals the buffer's
/// actual length exactly.
#[verifier::loop_isolation(false)]
pub fn validate(buffer: &[u8]) -> (r: Result<(), ValidationError>)
    ensures
        r == validate_spec(buffer@),
{
    if buffer.len() < 4 {
        return Err(ValidationError::Truncated);
    }
    if buffer[0] != 0 || buffer[1] != 0 {
        return Err(ValidationError::BadPadding);
    }
    let code: u8 = buffer[2];
    let ndims: u8 = buffer[3];
    let header_len_bytes: usize = 4 + 4 * (ndims as usize);
    if buffer.len() < header_len_bytes {
        return Err(ValidationError::Truncated);
    }
    let width: u8 = match element_width(code) {
        None => {
            return Err(ValidationError::UnknownTypeCode { code });
        },
        Some(w) => w,
    };
    let mut count: u64 = 1;
    let mut i: usize = 0;
    while i < ndims as usize
        invariant
            i <= ndims as usize,
            checked_product(dims_of(buffer@).take(i as int)) == Some(count),
        decreases ndims as int - i,
    {
        let ghost j = i as int;
        let off: usize = 4 + 4 * i;
        let d: u32 = be_u32(buffer, off);
        proof {
            assert(dims_of(buffer@)[j] == be_u32_at(buffer@, 4 + 4 * j));
            assert(dims_of(buffer@).take(j + 1).drop_last() =~= dims_of(buffer@).take(j));
            assert(dims_of(buffer@).take(j + 1).last() == dims_of(buffer@)[j]);
        }
        count = match count.checked_mul(d as u64) {
            None => {
                proof {
                    lemma_checked_product_none_extends(dims_of(buffer@), j + 1);
                }
                return Err(ValidationError::Overflow);
            },
            Some(p) => p,
        };
        i = i + 1;
    }
    proof {
        assert(dims_of(buffer@).take(ndims as int) =~= dims_of(buffer@));
    }
    let payload: u64 = match count.checked_mul(width as u64) {
        None => {
            return Err(ValidationError::Overflow);
        },
        Some(p) => p,
    };
    let required: u64 = match (header_len_bytes as u64).checked_add(payload) {
        None => {
            return Err(ValidationError::Overflow);
        },
        Some(t) => t,
    };
    let actual: usize = buffer.len();
    if (actual as u64) < required {
        Err(ValidationError::Truncated)
    } else if (actual as u64) > required {
        Err(ValidationError::OverAllocated { declared: required as usize, actual })
    } else {
        Ok(())
    }
}

} // verus!
