use vstd::prelude::*;

verus! {

/// A value that converts losslessly to and from a fixed-size byte array.
///
/// Decoding does not take a byte array: it takes a fill, which is handed a
/// zeroed buffer to write the bytes into and reports either `None` (filled)
/// or an error of the caller's own type.
pub trait ReprBytes: Sized {
    /// The fixed-size byte array that holds the canonical encoding.
    type Bytes: View<V = Seq<u8>>;

    /// Number of bytes in the encoding.
    spec fn byte_len() -> nat;

    /// The canonical encoding of this value.
    spec fn encoding(&self) -> Seq<u8>;

    /// Whether a filled buffer decodes to a value of this type.
    spec fn accepts(bytes: Seq<u8>) -> bool;

    /// The canonical encoding; always of `byte_len()` bytes and always accepted.
    fn to_bytes(&self) -> (r: Self::Bytes)
        ensures
            r@ == self.encoding(),
            r@.len() == Self::byte_len(),
            Self::accepts(r@),
    ;

    /// Hands a zeroed buffer to `fill`. An error from `fill` is passed on as
    /// `Some(Err(e))`; otherwise the filled bytes decode to `Some(Ok(v))`, or
    /// to `None` where they are not an encoding of this type.
    fn from_bytes<F, E>(fill: F) -> (r: Option<Result<Self, E>>)
        where
            F: FnOnce(&mut Self::Bytes) -> Option<E>,
        requires
            forall|b: &mut Self::Bytes| fill.requires((b,)),
        ensures
            exists|b: &mut Self::Bytes, reported: Option<E>|
                #![trigger fill.ensures((b,), reported)]
                {
                    &&& fill.ensures((b,), reported)
                    &&& (*b)@ == Seq::new(Self::byte_len(), |i: int| 0u8)
                    &&& match reported {
                        Some(e) => r == Some(Result::<Self, E>::Err(e)),
                        None => if Self::accepts(final(b)@) {
                            r matches Some(Ok(v)) && v.encoding() == final(b)@
                        } else {
                            r is None
                        },
                    }
                },
    ;
}

/// What decoding returns, given what the fill reported and the bytes it left:
/// the fill's error unchanged; else a value whose encoding is exactly those
/// bytes where they are accepted, and `None` where they are not. This is the
/// outcome that `ReprBytes::from_bytes` states.
pub open spec fn conversion_outcome<T: ReprBytes, E>(
    reported: Option<E>,
    filled: Seq<u8>,
    r: Option<Result<T, E>>,
) -> bool {
    match reported {
        Some(e) => r == Some(Result::<T, E>::Err(e)),
        None => if T::accepts(filled) {
            r matches Some(Ok(v)) && v.encoding() == filled
        } else {
            r is None
        },
    }
}

/// Round trip: decoding, with a fill that writes what `to_bytes` gave for `v`
/// and reports no error, yields a value with the same encoding as `v`.
pub proof fn lemma_round_trip<T: ReprBytes, F, E>(v: T, serialized: T::Bytes, fill: F, r: Option<Result<T, E>>)
    where
        F: FnOnce(&mut T::Bytes) -> Option<E>,
    requires
        serialized@ == v.encoding(),
        T::accepts(serialized@),
        forall|b: &mut T::Bytes, reported: Option<E>|
            #[trigger] fill.ensures((b,), reported) ==> reported is None && final(b)@ == serialized@,
        exists|b: &mut T::Bytes, reported: Option<E>|
            #[trigger] fill.ensures((b,), reported) && conversion_outcome(reported, final(b)@, r),
    ensures
        r matches Some(Ok(w)) && w.encoding() == v.encoding(),
{
    let (b, reported) = choose|b: &mut T::Bytes, reported: Option<E>|
        fill.ensures((b,), reported) && conversion_outcome(reported, final(b)@, r);
}

/// An error that the fill reports comes back unchanged, whatever the bytes.
pub proof fn lemma_fill_error_passed_on<T: ReprBytes, F, E>(fill: F, err: E, r: Option<Result<T, E>>)
    where
        F: FnOnce(&mut T::Bytes) -> Option<E>,
    requires
        forall|b: &mut T::Bytes, reported: Option<E>|
            #[trigger] fill.ensures((b,), reported) ==> reported == Some(err),
        exists|b: &mut T::Bytes, reported: Option<E>|
            #[trigger] fill.ensures((b,), reported) && conversion_outcome(reported, final(b)@, r),
    ensures
        r == Some(Result::<T, E>::Err(err)),
{
    let (b, reported) = choose|b: &mut T::Bytes, reported: Option<E>|
        fill.ensures((b,), reported) && conversion_outcome(reported, final(b)@, r);
}

/// Bytes that are filled without error but not accepted give `None`: neither
/// an error nor a value.
pub proof fn lemma_rejected_bytes_give_none<T: ReprBytes, F, E>(fill: F, r: Option<Result<T, E>>)
    where
        F: FnOnce(&mut T::Bytes) -> Option<E>,
    requires
        forall|b: &mut T::Bytes, reported: Option<E>|
            #[trigger] fill.ensures((b,), reported) ==> reported is None && !T::accepts(final(b)@),
        exists|b: &mut T::Bytes, reported: Option<E>|
            #[trigger] fill.ensures((b,), reported) && conversion_outcome(reported, final(b)@, r),
    ensures
        r is None,
{
    let (b, reported) = choose|b: &mut T::Bytes, reported: Option<E>|
        fill.ensures((b,), reported) && conversion_outcome(reported, final(b)@, r);
}

/// Where every buffer is accepted, a fill that reports no error always
/// decodes, to a value whose encoding is the bytes it left.
pub proof fn lemma_total_decode<T: ReprBytes, F, E>(fill: F, r: Option<Result<T, E>>)
    where
        F: FnOnce(&mut T::Bytes) -> Option<E>,
    requires
        forall|bytes: Seq<u8>| #[trigger] T::accepts(bytes),
        forall|b: &mut T::Bytes, reported: Option<E>|
            #[trigger] fill.ensures((b,), reported) ==> reported is None,
        exists|b: &mut T::Bytes, reported: Option<E>|
            #[trigger] fill.ensures((b,), reported) && conversion_outcome(reported, final(b)@, r),
    ensures
        exists|b: &mut T::Bytes, reported: Option<E>|
            #[trigger] fill.ensures((b,), reported) && (r matches Some(Ok(v)) && v.encoding() == final(b)@),
{
    let (b, reported) = choose|b: &mut T::Bytes, reported: Option<E>|
        fill.ensures((b,), reported) && conversion_outcome(reported, final(b)@, r);
    assert(T::accepts(final(b)@));
}

} // verus!
