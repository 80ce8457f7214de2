use vstd::prelude::*;
use ed25519_dalek::VerifyingKey;
use crate::dalek::{
    is_point_encoding, verifying_key_encoding, verifying_key_from_bytes, verifying_key_to_bytes,
};
use crate::repr::ReprBytes;

verus! {

impl ReprBytes for VerifyingKey {
    type Bytes = [u8; 32];

    open spec fn byte_len() -> nat {
        32
    }

    open spec fn encoding(&self) -> Seq<u8> {
        verifying_key_encoding(*self)
    }

    open spec fn accepts(bytes: Seq<u8>) -> bool {
        is_point_encoding(bytes)
    }

    fn to_bytes(&self) -> (r: [u8; 32])
        ensures
            r@ == verifying_key_encoding(*self),
            is_point_encoding(r@),
    {
        verifying_key_to_bytes(self)
    }

    fn from_bytes<F, E>(fill: F) -> (r: Option<Result<VerifyingKey, E>>)
        where
            F: FnOnce(&mut [u8; 32]) -> Option<E>,
    {
        let mut bytes = [0u8; 32];
        let reported = fill(&mut bytes);
        match reported {
            Some(err) => Some(Err(err)),
            None => match verifying_key_from_bytes(&bytes) {
                Ok(k) => Some(Ok(k)),
                Err(_) => None,
            },
        }
    }
}

} // verus!
