use vstd::prelude::*;
use ed25519_dalek::Signature;
use crate::dalek::{signature_encoding, signature_from_bytes, signature_to_bytes};
use crate::repr::{conversion_outcome, lemma_total_decode, ReprBytes};

verus! {

impl ReprBytes for Signature {
    type Bytes = [u8; 64];

    open spec fn byte_len() -> nat {
        64
    }

    open spec fn encoding(&self) -> Seq<u8> {
        signature_encoding(*self)
    }

    /// Every 64-byte buffer is taken as a signature; whether it verifies is
    /// decided later, against a message and a key.
    open spec fn accepts(bytes: Seq<u8>) -> bool {
        true
    }

    fn to_bytes(&self) -> (r: [u8; 64])
        ensures
            r@ == signature_encoding(*self),
    {
        signature_to_bytes(self)
    }

    fn from_bytes<F, E>(fill: F) -> (r: Option<Result<Signature, E>>)
        where
            F: FnOnce(&mut [u8; 64]) -> Option<E>,
    {
        let mut bytes = [0u8; 64];
        match fill(&mut bytes) {
            Some(err) => Some(Err(err)),
            None => Some(Ok(signature_from_bytes(&bytes))),
        }
    }
}

/// Decoding a signature cannot fail on the bytes: a fill that reports no error
/// always gives a signature whose encoding is the 64 bytes it left.
pub proof fn lemma_signature_decode_total<F, E>(fill: F, r: Option<Result<Signature, E>>)
    where
        F: FnOnce(&mut [u8; 64]) -> Option<E>,
    requires
        forall|b: &mut [u8; 64], reported: Option<E>|
            #[trigger] fill.ensures((b,), reported) ==> reported is None,
        exists|b: &mut [u8; 64], reported: Option<E>|
            #[trigger] fill.ensures((b,), reported) && conversion_outcome(reported, final(b)@, r),
    ensures
        exists|b: &mut [u8; 64], reported: Option<E>|
            #[trigger] fill.ensures((b,), reported) && (r matches Some(Ok(v)) && v.encoding() == final(b)@),
{
    lemma_total_decode::<Signature, F, E>(fill, r);
}

} // verus!
