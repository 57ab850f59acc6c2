//! Decoding and dispatch of group-signature verification requests.
//!
//! A request travels as one byte buffer: the signature text, a line feed, the
//! text of the combined group public key, a line feed, and the signed
//! message. [`VerifyParams`] is that request and converts to and from the
//! buffer. [`verify`] decodes a buffer, has the two texts decoded into
//! objects, asks the verifier, and reports a [`VerifyOutcome`] that keeps a
//! malformed request apart from a rejected signature.
//!
//! The group-signature scheme is not part of this library: `verify` takes it
//! as three capabilities.

pub mod boundary;
pub mod codec;
pub mod dispatch;
pub mod outcome;
pub mod request;
pub mod text;

pub use boundary::usage;
pub use dispatch::verify;
pub use outcome::{DecodeError, Field, VerifyOutcome};
pub use request::{RequestView, VerifyParams};
