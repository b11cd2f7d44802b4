//! Structural validation of IDX-style array buffers.
//!
//! An IDX buffer starts with a four-byte prefix (two reserved zero bytes, a
//! type code, a dimension count), followed by one big-endian `u32` per
//! dimension and then the raw element payload. [`validate`] decides, with
//! overflow-checked arithmetic throughout, whether a byte buffer's declared
//! shape and element type exactly account for its length.

pub mod errors;
pub mod laws;
pub mod model;
pub mod validator;

pub use errors::ValidationError;
pub use validator::validate;
