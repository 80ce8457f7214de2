use ed25519_dalek::{Signature, Signer, SigningKey, VerifyingKey};
use key_repr::repr::ReprBytes;

const RFC_SEED: [u8; 32] = [
    0x9d, 0x61, 0xb1, 0x9d, 0xef, 0xfd, 0x5a, 0x60, 0xba, 0x84, 0x4a, 0xf4, 0x92, 0xec, 0x2c, 0xc4,
    0x44, 0x49, 0xc5, 0x69, 0x7b, 0x32, 0x69, 0x19, 0x70, 0x3b, 0xac, 0x03, 0x1c, 0xae, 0x7f, 0x60,
];

const RFC_PUBLIC: [u8; 32] = [
    0xd7, 0x5a, 0x98, 0x01, 0x82, 0xb1, 0x0a, 0xb7, 0xd5, 0x4b, 0xfe, 0xd3, 0xc9, 0x64, 0x07, 0x3a,
    0x0e, 0xe1, 0x72, 0xf3, 0xda, 0xa6, 0x23, 0x25, 0xaf, 0x02, 0x1a, 0x68, 0xf7, 0x07, 0x51, 0x1a,
];

/// The y coordinate 2: no x on the curve goes with it.
fn off_curve() -> [u8; 32] {
    let mut b = [0u8; 32];
    b[0] = 2;
    b
}

fn signing_key() -> SigningKey {
    <SigningKey as ReprBytes>::from_bytes(|b: &mut [u8; 32]| -> Option<()> {
        *b = RFC_SEED;
        None
    })
    .unwrap()
    .unwrap()
}

#[test]
fn verifying_key_to_bytes_is_public_key() {
    let vk = signing_key().verifying_key();
    assert_eq!(<VerifyingKey as ReprBytes>::to_bytes(&vk), RFC_PUBLIC);
}

#[test]
fn verifying_key_round_trip() {
    let vk = signing_key().verifying_key();
    let bytes = <VerifyingKey as ReprBytes>::to_bytes(&vk);
    assert_eq!(bytes.len(), 32);
    let back = <VerifyingKey as ReprBytes>::from_bytes(move |b: &mut [u8; 32]| -> Option<String> {
        *b = bytes;
        None
    });
    assert_eq!(back, Some(Ok(vk)));
}

#[test]
fn verifying_key_from_public_bytes() {
    let back = <VerifyingKey as ReprBytes>::from_bytes(|b: &mut [u8; 32]| -> Option<()> {
        *b = RFC_PUBLIC;
        None
    });
    let vk = back.unwrap().unwrap();
    assert_eq!(vk.to_bytes(), RFC_PUBLIC);
}

#[test]
fn verifying_key_rejects_off_curve_bytes() {
    let back = <VerifyingKey as ReprBytes>::from_bytes(|b: &mut [u8; 32]| -> Option<String> {
        *b = off_curve();
        None
    });
    assert!(back.is_none());
}

#[test]
fn verifying_key_passes_fill_error_on() {
    let back = <VerifyingKey as ReprBytes>::from_bytes(|_b: &mut [u8; 32]| -> Option<String> {
        Some("stream ended".to_string())
    });
    assert_eq!(back, Some(Err("stream ended".to_string())));
}

#[test]
fn verifying_key_fill_error_wins_over_bad_bytes() {
    let back = <VerifyingKey as ReprBytes>::from_bytes(|b: &mut [u8; 32]| -> Option<u32> {
        *b = off_curve();
        Some(9)
    });
    assert_eq!(back, Some(Err(9)));
}

#[test]
fn fill_is_handed_zeroed_buffers() {
    let mut seen32 = Vec::new();
    let _ = <VerifyingKey as ReprBytes>::from_bytes(|b: &mut [u8; 32]| -> Option<()> {
        seen32.push(*b);
        Some(())
    });
    assert_eq!(seen32, vec![[0u8; 32]]);
    let mut seen64 = Vec::new();
    let _ = <Signature as ReprBytes>::from_bytes(|b: &mut [u8; 64]| -> Option<()> {
        seen64.extend_from_slice(b);
        Some(())
    });
    assert_eq!(seen64, vec![0u8; 64]);
}

#[test]
fn signing_key_round_trip() {
    let sk = signing_key();
    let bytes = <SigningKey as ReprBytes>::to_bytes(&sk);
    assert_eq!(bytes, RFC_SEED);
    let back = <SigningKey as ReprBytes>::from_bytes(move |b: &mut [u8; 32]| -> Option<String> {
        *b = bytes;
        None
    });
    let back = back.unwrap().unwrap();
    assert!(back == sk);
    assert_eq!(back.verifying_key().to_bytes(), RFC_PUBLIC);
}

#[test]
fn signing_key_accepts_any_bytes() {
    for fill_byte in [0x00u8, 0x02, 0x7f, 0xff] {
        let back = <SigningKey as ReprBytes>::from_bytes(|b: &mut [u8; 32]| -> Option<String> {
            *b = [fill_byte; 32];
            None
        });
        let sk = back.unwrap().unwrap();
        assert_eq!(<SigningKey as ReprBytes>::to_bytes(&sk), [fill_byte; 32]);
    }
}

#[test]
fn signing_key_passes_fill_error_on() {
    let back = <SigningKey as ReprBytes>::from_bytes(|_b: &mut [u8; 32]| -> Option<&'static str> {
        Some("short read")
    });
    assert!(matches!(back, Some(Err("short read"))));
}

#[test]
fn signature_round_trip() {
    let sig = signing_key().sign(b"file chunk");
    let bytes = <Signature as ReprBytes>::to_bytes(&sig);
    assert_eq!(bytes.len(), 64);
    assert_eq!(bytes, sig.to_bytes());
    let back = <Signature as ReprBytes>::from_bytes(move |b: &mut [u8; 64]| -> Option<String> {
        *b = bytes;
        None
    });
    assert_eq!(back, Some(Ok(sig)));
    let vk = signing_key().verifying_key();
    assert!(vk.verify_strict(b"file chunk", &back.unwrap().unwrap()).is_ok());
}

#[test]
fn signature_accepts_any_bytes() {
    let mut raw = [0u8; 64];
    for (i, x) in raw.iter_mut().enumerate() {
        *x = (i as u8).wrapping_mul(37);
    }
    let back = <Signature as ReprBytes>::from_bytes(move |b: &mut [u8; 64]| -> Option<String> {
        *b = raw;
        None
    });
    let sig = back.unwrap().unwrap();
    assert_eq!(<Signature as ReprBytes>::to_bytes(&sig), raw);
    let vk = signing_key().verifying_key();
    assert!(vk.verify_strict(b"file chunk", &sig).is_err());
}

#[test]
fn signature_passes_fill_error_on() {
    let back = <Signature as ReprBytes>::from_bytes(|_b: &mut [u8; 64]| -> Option<Vec<u8>> {
        Some(vec![1, 2, 3])
    });
    assert_eq!(back, Some(Err(vec![1, 2, 3])));
}

