//! One half of a signature: a buffer of exactly 57 bytes.

use crate::arrays::array_with_content;
use vstd::prelude::*;
use vstd::std_specs::cmp::PartialEqSpecImpl;

verus! {

/// Size of a single component of an Ed448 signature, in bytes.
pub const COMPONENT_SIZE: usize = 57;

/// Size of an `R` or `s` component of an Ed448 signature when serialized as
/// bytes.
///
/// The content is not interpreted. The view of a component is the sequence
/// of its 57 bytes.
#[derive(Copy, Clone, Debug)]
pub struct ComponentBytes([u8; COMPONENT_SIZE]);

impl View for ComponentBytes {
    type V = Seq<u8>;

    open spec fn view(&self) -> Seq<u8> {
        self.as_bytes()@
    }
}

impl ComponentBytes {
    /// The array that the component holds.
    pub closed spec fn spec_as_bytes(&self) -> &[u8; COMPONENT_SIZE] {
        &self.0
    }

    /// Wraps 57 raw bytes.
    pub fn new(bytes: [u8; COMPONENT_SIZE]) -> (component: Self)
        ensures
            component.as_bytes() == bytes,
    {
        ComponentBytes(bytes)
    }

    /// Read access to the raw bytes.
    #[verifier::when_used_as_spec(spec_as_bytes)]
    pub fn as_bytes(&self) -> (bytes: &[u8; COMPONENT_SIZE])
        ensures
            bytes == self.spec_as_bytes(),
    {
        &self.0
    }

    /// Two components with the same bytes are the same component.
    pub proof fn lemma_view_injective(self, other: Self)
        requires
            self@ == other@,
        ensures
            self == other,
    {
        assert(self.0 =~= other.0);
    }

    /// Every sequence of 57 bytes is the content of some component: the
    /// result is that component.
    pub proof fn with_content(content: Seq<u8>) -> (component: Self)
        requires
            content.len() == COMPONENT_SIZE,
        ensures
            component@ == content,
    {
        ComponentBytes(array_with_content(content))
    }
}

impl Default for ComponentBytes {
    /// The component whose 57 bytes are all zero.
    fn default() -> (zero: Self)
        ensures
            zero@ == Seq::new(COMPONENT_SIZE as nat, |i: int| 0u8),
    {
        ComponentBytes([0u8; COMPONENT_SIZE])
    }
}

impl PartialEq for ComponentBytes {
    /// Two components are equal when all 57 bytes match.
    fn eq(&self, other: &Self) -> (equal: bool) {
        let mut equal = true;
        let mut i: usize = 0;
        while i < COMPONENT_SIZE
            invariant
                i <= COMPONENT_SIZE,
                equal <==> forall|j: int| 0 <= j < i ==> self@[j] == other@[j],
            decreases COMPONENT_SIZE - i,
        {
            if self.0[i] != other.0[i] {
                assert(self@[i as int] != other@[i as int]);
                equal = false;
            }
            i += 1;
        }
        proof {
            if equal {
                assert(self@ =~= other@);
                self.lemma_view_injective(*other);
            }
        }
        equal
    }
}

impl Eq for ComponentBytes {}

impl PartialEqSpecImpl for ComponentBytes {
    open spec fn obeys_eq_spec() -> bool {
        true
    }

    open spec fn eq_spec(&self, other: &Self) -> bool {
        *self == *other
    }
}

} // verus!
