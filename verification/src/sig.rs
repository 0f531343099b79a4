//! The signature: two components, `R` first and `s` second.

use crate::arrays::array_with_content;
use crate::component::{ComponentBytes, COMPONENT_SIZE};
use signature::Error;
use vstd::prelude::*;
use vstd::std_specs::cmp::{PartialEqSpec, PartialEqSpecImpl};

verus! {

/// Ed448 signature serialized as a byte array.
pub type SignatureBytes = [u8; Signature::BYTE_SIZE];

/// Ed448 signature.
///
/// This type is a container for the byte serialization of a signature and
/// does not necessarily hold well-formed field or curve elements. Its view is
/// the flat form: the 57 bytes of `R` followed by the 57 bytes of `s`.
#[derive(Copy, Clone)]
#[allow(non_snake_case)]
pub struct Signature {
    R: ComponentBytes,
    s: ComponentBytes,
}

impl View for Signature {
    type V = Seq<u8>;

    open spec fn view(&self) -> Seq<u8> {
        self.r_bytes()@ + self.s_bytes()@
    }
}

impl Signature {
    /// Size of an encoded Ed448 signature in bytes.
    pub const BYTE_SIZE: usize = COMPONENT_SIZE * 2;

    /// The `R` component.
    pub closed spec fn spec_r_bytes(&self) -> &ComponentBytes {
        &self.R
    }

    /// The `s` component.
    pub closed spec fn spec_s_bytes(&self) -> &ComponentBytes {
        &self.s
    }

    /// The signature whose flat form is `bytes`. There is exactly one:
    /// see [`Self::lemma_spec_from_bytes`] and [`Self::lemma_view_injective`].
    pub closed spec fn spec_from_bytes(bytes: &SignatureBytes) -> Signature {
        choose|sig: Signature| sig@ == bytes@
    }

    /// The array that holds the flat form of the signature: see
    /// [`Self::lemma_spec_to_bytes`].
    pub closed spec fn spec_to_bytes(&self) -> SignatureBytes {
        choose|bytes: SignatureBytes| bytes@ == self@
    }

    /// Builds a signature from its two components.
    pub fn from_components(r: ComponentBytes, s: ComponentBytes) -> (sig: Self)
        ensures
            sig.r_bytes() == r,
            sig.s_bytes() == s,
            sig@ == r@ + s@,
    {
        Signature { R: r, s }
    }

    /// Parses an Ed448 signature from its 114 bytes: the first 57 become `R`,
    /// the last 57 become `s`.
    #[verifier::when_used_as_spec(spec_from_bytes)]
    pub fn from_bytes(bytes: &SignatureBytes) -> (sig: Self)
        ensures
            sig == Self::spec_from_bytes(bytes),
            sig@ == bytes@,
            sig.r_bytes()@ == bytes@.subrange(0, COMPONENT_SIZE as int),
            sig.s_bytes()@ == bytes@.subrange(COMPONENT_SIZE as int, Self::BYTE_SIZE as int),
    {
        let mut r = [0u8; COMPONENT_SIZE];
        let mut s = [0u8; COMPONENT_SIZE];
        let mut i: usize = 0;
        while i < COMPONENT_SIZE
            invariant
                i <= COMPONENT_SIZE,
                forall|j: int| 0 <= j < i ==> r@[j] == bytes@[j],
                forall|j: int| 0 <= j < i ==> s@[j] == bytes@[COMPONENT_SIZE + j],
            decreases COMPONENT_SIZE - i,
        {
            r[i] = bytes[i];
            s[i] = bytes[COMPONENT_SIZE + i];
            i += 1;
        }
        let sig = Signature { R: ComponentBytes::new(r), s: ComponentBytes::new(s) };
        proof {
            assert(sig@ =~= bytes@);
            Self::spec_from_bytes(bytes).lemma_view_injective(sig);
        }
        sig
    }

    /// Parses an Ed448 signature from a byte slice.
    ///
    /// Succeeds exactly when the slice is 114 bytes long, and then gives the
    /// signature with those bytes, as [`Self::from_bytes`] does. A slice of
    /// any other length is an error; the error carries no detail.
    pub fn from_slice(bytes: &[u8]) -> (result: Result<Self, Error>)
        ensures
            result is Ok <==> bytes@.len() == Self::BYTE_SIZE,
            result matches Ok(sig) ==> sig@ == bytes@,
    {
        if bytes.len() != Self::BYTE_SIZE {
            return Err(Error::new());
        }
        let mut array = [0u8; Self::BYTE_SIZE];
        let mut i: usize = 0;
        while i < Self::BYTE_SIZE
            invariant
                i <= Self::BYTE_SIZE,
                bytes@.len() == Self::BYTE_SIZE,
                forall|j: int| 0 <= j < i ==> array@[j] == bytes@[j],
            decreases Self::BYTE_SIZE - i,
        {
            array[i] = bytes[i];
            i += 1;
        }
        Ok(Self::from_bytes(&array))
    }

    /// Bytes for the `R` component of a signature.
    #[verifier::when_used_as_spec(spec_r_bytes)]
    pub fn r_bytes(&self) -> (r: &ComponentBytes)
        ensures
            r == self.spec_r_bytes(),
    {
        &self.R
    }

    /// Bytes for the `s` component of a signature.
    #[verifier::when_used_as_spec(spec_s_bytes)]
    pub fn s_bytes(&self) -> (s: &ComponentBytes)
        ensures
            s == self.spec_s_bytes(),
    {
        &self.s
    }

    /// Returns the flat form: the bytes of `R` followed by the bytes of `s`.
    #[verifier::when_used_as_spec(spec_to_bytes)]
    pub fn to_bytes(&self) -> (bytes: SignatureBytes)
        ensures
            bytes == self.spec_to_bytes(),
            bytes@ == self@,
    {
        let mut ret = [0u8; Self::BYTE_SIZE];
        let r = self.R.as_bytes();
        let s = self.s.as_bytes();
        let mut i: usize = 0;
        while i < COMPONENT_SIZE
            invariant
                i <= COMPONENT_SIZE,
                forall|j: int| 0 <= j < i ==> ret@[j] == r@[j],
                forall|j: int| 0 <= j < i ==> ret@[COMPONENT_SIZE + j] == s@[j],
            decreases COMPONENT_SIZE - i,
        {
            ret[i] = r[i];
            ret[COMPONENT_SIZE + i] = s[i];
            i += 1;
        }
        assert(ret@ =~= self@);
        ret
    }

    /// The layout of the flat form: 114 bytes, of which the first 57 are `R`
    /// and the last 57 are `s`.
    pub proof fn lemma_layout(self)
        ensures
            self@.len() == Self::BYTE_SIZE,
            self@.subrange(0, COMPONENT_SIZE as int) == self.r_bytes()@,
            self@.subrange(COMPONENT_SIZE as int, Self::BYTE_SIZE as int) == self.s_bytes()@,
    {
    }

    /// Two signatures with the same flat form are the same signature.
    pub proof fn lemma_view_injective(self, other: Self)
        requires
            self@ == other@,
        ensures
            self == other,
    {
        self.lemma_layout();
        other.lemma_layout();
        self.R.lemma_view_injective(other.R);
        self.s.lemma_view_injective(other.s);
    }

    /// Every sequence of 114 bytes is the flat form of some signature: the
    /// result is that signature.
    pub proof fn with_content(content: Seq<u8>) -> (sig: Self)
        requires
            content.len() == Self::BYTE_SIZE,
        ensures
            sig@ == content,
    {
        let r = ComponentBytes::with_content(content.subrange(0, COMPONENT_SIZE as int));
        let s = ComponentBytes::with_content(
            content.subrange(COMPONENT_SIZE as int, Self::BYTE_SIZE as int),
        );
        Signature { R: r, s }
    }

    /// Parsing keeps every byte in its place: the flat form of the parsed
    /// signature is the input, `R` is its first half and `s` its second.
    pub proof fn lemma_spec_from_bytes(bytes: SignatureBytes)
        ensures
            Signature::from_bytes(&bytes)@ == bytes@,
            Signature::from_bytes(&bytes).r_bytes()@ == bytes@.subrange(0, COMPONENT_SIZE as int),
            Signature::from_bytes(&bytes).s_bytes()@ == bytes@.subrange(
                COMPONENT_SIZE as int,
                Self::BYTE_SIZE as int,
            ),
    {
        let witness = Self::with_content(bytes@);
        assert(witness@ == bytes@);
        Signature::from_bytes(&bytes).lemma_layout();
    }

    /// The serialized array holds the flat form of the signature.
    pub proof fn lemma_spec_to_bytes(self)
        ensures
            self.to_bytes()@ == self@,
    {
        let witness: SignatureBytes = array_with_content(self@);
        assert(witness@ == self@);
    }

    /// Serializing what was parsed gives back the bytes that were parsed.
    pub proof fn lemma_to_bytes_inverts_from_bytes(bytes: SignatureBytes)
        ensures
            Signature::from_bytes(&bytes).to_bytes() == bytes,
    {
        Self::lemma_spec_from_bytes(bytes);
        Signature::from_bytes(&bytes).lemma_spec_to_bytes();
    }

    /// Parsing what was serialized gives back the signature that was
    /// serialized.
    pub proof fn lemma_from_bytes_inverts_to_bytes(self)
        ensures
            Signature::from_bytes(&self.to_bytes()) == self,
    {
        self.lemma_spec_to_bytes();
        Self::lemma_spec_from_bytes(self.to_bytes());
        Signature::from_bytes(&self.to_bytes()).lemma_view_injective(self);
    }

    /// Signatures parsed from two arrays are equal exactly when the arrays
    /// hold the same bytes.
    pub proof fn lemma_from_bytes_equal_iff(a: SignatureBytes, b: SignatureBytes)
        ensures
            Signature::from_bytes(&a) == Signature::from_bytes(&b) <==> a@ == b@,
            PartialEqSpec::eq_spec(&Signature::from_bytes(&a), &Signature::from_bytes(&b)) <==> a@
                == b@,
    {
        Self::lemma_spec_from_bytes(a);
        Self::lemma_spec_from_bytes(b);
    }

    /// Equality of signatures is reflexive, symmetric and transitive.
    pub proof fn lemma_eq_is_equivalence(a: Signature, b: Signature, c: Signature)
        ensures
            PartialEqSpec::eq_spec(&a, &a),
            PartialEqSpec::eq_spec(&a, &b) ==> PartialEqSpec::eq_spec(&b, &a),
            PartialEqSpec::eq_spec(&a, &b) && PartialEqSpec::eq_spec(&b, &c)
                ==> PartialEqSpec::eq_spec(&a, &c),
    {
    }
}

impl PartialEq for Signature {
    /// Two signatures are equal when both components are.
    fn eq(&self, other: &Self) -> (equal: bool) {
        self.R == other.R && self.s == other.s
    }
}

impl Eq for Signature {}

impl PartialEqSpecImpl for Signature {
    open spec fn obeys_eq_spec() -> bool {
        true
    }

    open spec fn eq_spec(&self, other: &Self) -> bool {
        *self == *other
    }
}

} // verus!
