//! Header names, as far as header values need them: a lower-case token whose
//! bytes can be handed over to a header value.

use vstd::prelude::*;
use bytes::Bytes;
use crate::bytes_spec::{shared_contents, shared_from_slice};
use crate::validate::valid_byte;

verus! {

/// A byte of a header name: a lower-case letter, a digit, or one of
/// ``!#$%&'*+-.^_`|~``.
pub open spec fn name_byte(b: u8) -> bool {
    (97 <= b && b <= 122) || (48 <= b && b <= 57) || b == 33 || (35 <= b && b <= 39) || b == 42
        || b == 43 || b == 45 || b == 46 || b == 94 || b == 95 || b == 96 || b == 124 || b == 126
}

/// A well-formed header name: not empty, and every byte a name byte.
pub open spec fn valid_name(s: Seq<u8>) -> bool {
    s.len() > 0 && forall|i: int| 0 <= i < s.len() ==> name_byte(#[trigger] s[i])
}

/// Every byte allowed in a header name is allowed in a header value.
pub proof fn lemma_name_byte_is_valid(b: u8)
    ensures
        name_byte(b) ==> valid_byte(b),
{
}

/// A header field name.
pub struct HeaderName {
    inner: Bytes,
}

/// The error returned when bytes do not form a header name.
#[derive(Debug)]
pub struct InvalidHeaderName {
    _priv: (),
}

impl View for HeaderName {
    type V = Seq<u8>;

    closed spec fn view(&self) -> Seq<u8> {
        shared_contents(self.inner)
    }
}

impl HeaderName {
    #[verifier::type_invariant]
    spec fn inv(self) -> bool {
        valid_name(shared_contents(self.inner))
    }

    fn is_name_byte(b: u8) -> (r: bool)
        ensures
            r == name_byte(b),
    {
        (97 <= b && b <= 122) || (48 <= b && b <= 57) || b == 33 || (35 <= b && b <= 39) || b == 42
            || b == 43 || b == 45 || b == 46 || b == 94 || b == 95 || b == 96 || b == 124 || b
            == 126
    }

    /// Builds a header name from bytes that are already in lower case.
    pub fn from_bytes(src: &[u8]) -> (r: Result<HeaderName, InvalidHeaderName>)
        ensures
            r is Ok <==> valid_name(src@),
            r matches Ok(n) ==> n@ == src@,
    {
        if src.len() == 0 {
            return Err(InvalidHeaderName { _priv: () });
        }
        let mut i: usize = 0;
        while i < src.len()
            invariant
                0 <= i <= src@.len(),
                forall|j: int| 0 <= j < i ==> name_byte(#[trigger] src@[j]),
            decreases src@.len() - i,
        {
            if !Self::is_name_byte(src[i]) {
                return Err(InvalidHeaderName { _priv: () });
            }
            i = i + 1;
        }
        Ok(HeaderName { inner: shared_from_slice(src) })
    }

    /// The name's bytes.
    pub fn as_bytes(&self) -> (r: &[u8])
        ensures
            r@ == self@,
            valid_name(r@),
    {
        proof {
            use_type_invariant(self);
        }
        crate::bytes_spec::shared_as_slice(&self.inner)
    }

    pub(crate) fn into_shared(self) -> (r: Bytes)
        ensures
            shared_contents(r) == self@,
            valid_name(shared_contents(r)),
    {
        proof {
            use_type_invariant(&self);
        }
        self.inner
    }
}

} // verus!
