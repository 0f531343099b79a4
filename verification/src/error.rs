//! The decode error, which is the error type of the `signature` crate.

use signature::Error;
use vstd::prelude::*;

verus! {

/// `signature::Error` is deliberately opaque: it tells a caller that an
/// operation failed and nothing about why. Verified code only carries it.
#[verifier::external_type_specification]
#[verifier::external_body]
pub struct ExError(Error);

/// `signature::Error::new` creates an error without a source. It takes no
/// input and cannot fail; nothing is claimed about the value it returns.
pub assume_specification[ Error::new ]() -> (error: Error);

} // verus!
