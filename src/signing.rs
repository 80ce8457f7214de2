use vstd::prelude::*;
use ed25519_dalek::SigningKey;
use crate::dalek::{signing_key_from_bytes, signing_key_seed, signing_key_to_bytes};
use crate::repr::{conversion_outcome, lemma_total_decode, ReprBytes};

verus! {

impl ReprBytes for SigningKey {
    type Bytes = [u8; 32];

    open spec fn byte_len() -> nat {
        32
    }

    open spec fn encoding(&self) -> Seq<u8> {
        signing_key_seed(*self)
    }

    /// Every 32-byte buffer is a seed.
    open spec fn accepts(bytes: Seq<u8>) -> bool {
        true
    }

    fn to_bytes(&self) -> (r: [u8; 32])
        ensures
            r@ == signing_key_seed(*self),
    {
        signing_key_to_bytes(self)
    }

    fn from_bytes<F, E>(fill: F) -> (r: Option<Result<SigningKey, E>>)
        where
            F: FnOnce(&mut [u8; 32]) -> Option<E>,
    {
        let mut bytes = [0u8; 32];
        match fill(&mut bytes) {
            Some(err) => Some(Err(err)),
            None => Some(Ok(signing_key_from_bytes(&bytes))),
        }
    }
}

/// Decoding a signing key cannot fail on the bytes: a fill that reports no error
/// always gives a signing key whose encoding is the 32 bytes it left.
pub proof fn lemma_signing_key_decode_total<F, E>(fill: F, r: Option<Result<SigningKey, E>>)
    where
        F: FnOnce(&mut [u8; 32]) -> Option<E>,
    requires
        forall|b: &mut [u8; 32], reported: Option<E>|
            #[trigger] fill.ensures((b,), reported) ==> reported is None,
        exists|b: &mut [u8; 32], reported: Option<E>|
            #[trigger] fill.ensures((b,), reported) && conversion_outcome(reported, final(b)@, r),
    ensures
        exists|b: &mut [u8; 32], reported: Option<E>|
            #[trigger] fill.ensures((b,), reported) && (r matches Some(Ok(v)) && v.encoding() == final(b)@),
{
    lemma_total_decode::<SigningKey, F, E>(fill, r);
}

} // verus!
