//! Conversion between raw bytes and their hexadecimal text form.
//!
//! [`encode`] writes each byte as two hex digits, the high half first.
//! [`decode`] and [`decode_to_fixed`] read such a string back, accept letters
//! in either case, and say with a [`FromHexError`] why a string was rejected.
//!
//! ```text
//! encode(&[0x48, 0x65], false)      "4865"
//! decode("4865")                    Ok(vec![0x48, 0x65])
//! decode("486")                     Err(OddLength)
//! decode("48g5")                    Err(InvalidHexCharacter { c: 'g', index: 2 })
//! decode_to_fixed::<2>("486500")    Err(InvalidStringLength)
//! ```
//!
//! Every function is verified against a mathematical description of its
//! result: [`encoding::spec_encode`], [`decoding::spec_decode`],
//! [`decoding::spec_decode_to_fixed`] and [`FromHexError::message`]. The
//! module [`laws`] proves what holds of the two directions together, such as
//! that decoding gives back what was encoded.

pub mod decimal;
pub mod decoding;
pub mod digit;
pub mod encoding;
pub mod error;
pub mod laws;
pub mod text;

pub use decoding::{decode, decode_to_fixed};
pub use encoding::encode;
pub use error::FromHexError;
