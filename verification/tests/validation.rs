use idx_validator::{validate, ValidationError};

/// Checks that `validate` correctly flags bad padding.
#[test]
fn test_validate_bad_padding() {
    let mut data: [u8; 12] = [
        0x00, 0x00, 0x08, 0x01,
        0x00, 0x00, 0x00, 0x04,
        0x01, 0x02, 0x03, 0x04,
    ];

    for padding in 0x0001u16..=0xffffu16 {
        data[0] = (padding >> 8) as u8;
        data[1] = (padding & 0x00ff) as u8;
        assert_eq!(validate(&data), Err(ValidationError::BadPadding));
    }
}

/// Checks that `validate` will safely reject arrays that are longer than
/// a `size_t`.
#[test]
fn validate_overflow_int16() {
    // Note that we can't actually allocate an array longer than the maximum
    // allowed by a 64 bit `size_t`.  This doesn't matter as the overflow will
    // happen before we hit the comparison.
    // Bounds chosen to multiply to exactly two to the power of 64 minus 16,
    // over 2 meaning that the structure is one byte two big.
    let data: [u8; 16] = [
        0x00, 0x00, 0x0B, 0x03,
        0x00, 0x00, 0x05, 0x29,
        0x03, 0x54, 0x4a, 0xb8,
        0x07, 0x73, 0x62, 0xf1,
    ];

    assert_eq!(validate(&data), Err(ValidationError::Overflow));
}

/// Checks that `validate` will safely reject arrays that are longer than
/// a `size_t`.
#[test]
fn test_validate_overflow_uint8() {
    // Note that we can't actually allocate an array longer than the maximum
    // allowed by a 64 bit `size_t`.  This doesn't matter as the overflow will
    // happen before we hit the comparison.
    // Bounds chosen to multiply to exactly two to the power of 64 minus 16,
    // meaning that the structure is one byte two big.
    let data: [u8; 16] = [
        0x00, 0x00, 0x08, 0x03,
        0x00, 0x00, 0x05, 0x29,
        0x06, 0xa8, 0x95, 0x70,
        0x07, 0x73, 0x62, 0xf1,
    ];

    assert_eq!(validate(&data), Err(ValidationError::Overflow));
}

/// Checks that `validate` correctly rejects structures that have not been
/// allocated enough space to contain their bounds.
#[test]
fn test_validate_too_short_for_bounds() {
    let data: [u8; 11] = [
        0x00, 0x00, 0x08, 0x02,
        0x00, 0x00, 0x00, 0x03,
        0x00, 0x00, 0x00,
    ];

    assert_eq!(validate(&data), Err(ValidationError::Truncated));
}

/// Checks that `validate` will correctly reject structures that have not
/// been allocated enough space for all of their data.
#[test]
fn test_validate_too_short_for_data_1d() {
    let data: [u8; 9] = [
        0x00, 0x00, 0x08, 0x01,
        0x00, 0x00, 0x00, 0x03,
        0x01,
    ];

    assert_eq!(validate(&data), Err(ValidationError::Truncated));
}

/// Checks that `validate` will correctly reject structures that have not
/// been allocated enough space for all of their data.
#[test]
fn test_validate_too_short_for_data_3d() {
    // Data is one byte shorter than declared in the header..
    let data: [u8; 31] = [
        0x00, 0x00, 0x0b, 0x03,
        0x00, 0x00, 0x00, 0x02,
        0x00, 0x00, 0x00, 0x02,
        0x00, 0x00, 0x00, 0x02,
        0x01, 0x02, 0x03, 0x04,
        0x05, 0x06, 0x07, 0x08,
        0x09, 0x0a, 0x0b, 0x0c,
        0x0e, 0x0f, 0xa0,
    ];

    assert_eq!(validate(&data), Err(ValidationError::Truncated));
}

/// Checks that `validate` will correctly reject structures that have not
/// been allocated enough space to fit the value containing the number of
/// dimensions.
#[test]
fn test_validate_too_short_for_bounds_header() {
    let data: [u8; 3] = [
        0x00, 0x00, 0x08,
    ];

    assert_eq!(validate(&data), Err(ValidationError::Truncated));
}

/// Checks that `validate` will correctly reject structures that have not
/// been allocated enough space to fit the type code.
#[test]
fn test_validate_too_short_for_type_header() {
    let data: [u8; 2] = [
        0x00, 0x00,
    ];

    assert_eq!(validate(&data), Err(ValidationError::Truncated));
}

/// Checks that `validate` will accept a valid zero-dimensional uint8 array.
#[test]
fn test_validate_uint8_0d() {
    let data: [u8; 5] = [
        0x00, 0x00, 0x08, 0x00,
        0xfe,
    ];

    assert_eq!(validate(&data), Ok(()));
}

/// Checks that `validate` will accept a normal 2d uint8 array.
#[test]
fn test_validate_uint8_2d() {
    // A 3x3 identity matrix.
    let data: [u8; 21] = [
        0x00, 0x00, 0x08, 0x02,
        0x00, 0x00, 0x00, 0x03,
        0x00, 0x00, 0x00, 0x03,
        0x01, 0x00, 0x00,
        0x00, 0x01, 0x00,
        0x00, 0x00, 0x01,
    ];

    assert_eq!(validate(&data), Ok(()));
}
