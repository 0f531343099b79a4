//! Byte-level representation of Ed448 signatures.
//!
//! An Ed448 signature is 114 bytes long: the 57-byte encoding of the point
//! `R` followed by the 57-byte encoding of the scalar `s`. This crate holds
//! the container types for that layout, the conversions between them and
//! flat byte buffers, and their textual renderings. It performs no curve
//! arithmetic: whether the bytes stand for well-formed field or curve
//! elements is for the verifying algorithm to decide.

pub mod arrays;
pub mod component;
pub mod convert;
pub mod debug;
pub mod error;
pub mod hex;
pub mod sig;

pub use component::{ComponentBytes, COMPONENT_SIZE};
pub use sig::{Signature, SignatureBytes};
pub use signature::{self, Error, SignatureEncoding};
