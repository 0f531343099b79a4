//! Conversions between signatures and byte buffers through the standard
//! conversion traits. Each is one of the operations of [`Signature`] under
//! another name.

use crate::sig::{Signature, SignatureBytes};
use signature::Error;
use vstd::prelude::*;
use vstd::std_specs::convert::{FromSpecImpl, TryFromSpecImpl};

verus! {

impl From<Signature> for SignatureBytes {
    /// The flat form of the signature, as [`Signature::to_bytes`] gives it.
    fn from(sig: Signature) -> (bytes: SignatureBytes)
        ensures
            bytes@ == sig@,
    {
        sig.to_bytes()
    }
}

impl FromSpecImpl<Signature> for SignatureBytes {
    open spec fn obeys_from_spec() -> bool {
        true
    }

    open spec fn from_spec(sig: Signature) -> SignatureBytes {
        sig.to_bytes()
    }
}

impl From<&Signature> for SignatureBytes {
    /// The flat form of the signature, as [`Signature::to_bytes`] gives it.
    fn from(sig: &Signature) -> (bytes: SignatureBytes)
        ensures
            bytes@ == sig@,
    {
        sig.to_bytes()
    }
}

impl FromSpecImpl<&Signature> for SignatureBytes {
    open spec fn obeys_from_spec() -> bool {
        true
    }

    open spec fn from_spec(sig: &Signature) -> SignatureBytes {
        sig.to_bytes()
    }
}

impl From<SignatureBytes> for Signature {
    /// The signature with these bytes, as [`Signature::from_bytes`] gives it.
    fn from(bytes: SignatureBytes) -> (sig: Signature)
        ensures
            sig@ == bytes@,
    {
        Signature::from_bytes(&bytes)
    }
}

impl FromSpecImpl<SignatureBytes> for Signature {
    open spec fn obeys_from_spec() -> bool {
        true
    }

    open spec fn from_spec(bytes: SignatureBytes) -> Signature {
        Signature::from_bytes(&bytes)
    }
}

impl From<&SignatureBytes> for Signature {
    /// The signature with these bytes, as [`Signature::from_bytes`] gives it.
    fn from(bytes: &SignatureBytes) -> (sig: Signature)
        ensures
            sig@ == bytes@,
    {
        Signature::from_bytes(bytes)
    }
}

impl FromSpecImpl<&SignatureBytes> for Signature {
    open spec fn obeys_from_spec() -> bool {
        true
    }

    open spec fn from_spec(bytes: &SignatureBytes) -> Signature {
        Signature::from_bytes(bytes)
    }
}

impl TryFrom<&[u8]> for Signature {
    type Error = Error;

    /// Parses a signature from a slice, as [`Signature::from_slice`] does.
    fn try_from(bytes: &[u8]) -> (result: Result<Self, Error>)
        ensures
            result is Ok <==> bytes@.len() == Signature::BYTE_SIZE,
            result matches Ok(sig) ==> sig@ == bytes@,
    {
        Self::from_slice(bytes)
    }
}

impl TryFromSpecImpl<&[u8]> for Signature {
    /// The error is opaque, so no spec function can name the result of a
    /// failed conversion; the contract stands on `try_from` itself.
    open spec fn obeys_try_from_spec() -> bool {
        false
    }

    open spec fn try_from_spec(bytes: &[u8]) -> Result<Self, Error> {
        arbitrary()
    }
}

} // verus!
