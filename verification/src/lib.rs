//! NUL-terminated wide-character strings and a decoder that turns sequences
//! of 16-bit or 32-bit code units into Unicode scalar values.
//!
//! The string type, [`WCStr`], borrows a run of code units ending in exactly
//! one zero unit. Its character iterator, [`Chars`], decodes the units one
//! scalar value at a time, reporting each malformed surrogate as a recoverable
//! [`DecodeWideError`] that carries the offending unit.

pub mod decode;
pub mod find;
pub mod wcstr;
pub mod wide;

pub use crate::decode::{Chars, DecodeWideError};
pub use crate::find::SpecWide;
pub use crate::wcstr::{FromSliceWithNulError, WCStr};
pub use crate::wide::{Decode, Sealed, Wide};
