use branka::compress::CompressMethod;
use branka::radix62::{radix62_decode, radix62_encode};
use branka::{Branka, BrankaError};

fn key_a() -> Vec<u8> {
    (0u8..32).collect()
}

fn key_b() -> Vec<u8> {
    (100u8..132).collect()
}

#[test]
fn roundtrip_empty_payload() {
    let codec = Branka::new(&key_a(), 3000);
    let tok = codec.encode_at(&[], 1000);
    assert_eq!(codec.decode_at(&tok, 1000).unwrap(), Vec::<u8>::new());
}

#[test]
fn roundtrip_various_lengths() {
    let codec = Branka::new(&key_a(), 3000);
    for n in 0..48usize {
        let payload: Vec<u8> = (0..n).map(|i| (i * 7 + 3) as u8).collect();
        let tok = codec.encode_bytes(&payload);
        assert_eq!(codec.decode_bytes(&tok).unwrap(), payload);
    }
}

#[test]
fn roundtrip_synthetic_timestamp() {
    let codec = Branka::new(&key_a(), 60);
    let payload = b"Hello, world!".to_vec();
    let tok = codec.encode_at(&payload, 123_456_789);
    assert_eq!(codec.decode_at(&tok, 123_456_789).unwrap(), payload);
}

#[test]
fn expiry_boundary() {
    let now: u32 = 1_000_000;
    let ttl: u32 = 300;
    let codec = Branka::new(&key_a(), ttl);
    let payload = b"ticket".to_vec();

    let tok_now = codec.encode_at(&payload, now);
    assert_eq!(codec.decode_at(&tok_now, now).unwrap(), payload);

    let tok_edge = codec.encode_at(&payload, now + ttl);
    assert_eq!(codec.decode_at(&tok_edge, now).unwrap(), payload);

    let tok_over = codec.encode_at(&payload, now + ttl + 1);
    assert_eq!(codec.decode_at(&tok_over, now), Err(BrankaError::Expired));
}

#[test]
fn invalid_chars_rejected() {
    let codec = Branka::new(&key_a(), 3000);
    assert_eq!(
        codec.decode_at("abc!def", 0),
        Err(BrankaError::InvalidBase62)
    );
    assert_eq!(
        codec.decode_bytes("to~ken"),
        Err(BrankaError::InvalidBase62)
    );
    assert_eq!(codec.decode_at("caf\u{e9}", 0), Err(BrankaError::InvalidBase62));
}

#[test]
fn short_blob_rejected() {
    let codec = Branka::new(&key_a(), 3000);
    let short = radix62_encode(&[0xBAu8; 10]);
    assert_eq!(codec.decode_at(&short, 0), Err(BrankaError::InvalidDataLength));
    assert_eq!(codec.decode_at("", 0), Err(BrankaError::InvalidDataLength));
}

#[test]
fn version_gate() {
    let codec = Branka::new(&key_a(), 3000);
    let tok = codec.encode_at(b"payload", 1000);
    let mut blob = radix62_decode(&tok).unwrap();
    blob[0] = 0x00;
    let forged = radix62_encode(&blob);
    assert_eq!(codec.decode_at(&forged, 1000), Err(BrankaError::InvalidVersion));
}

#[test]
fn tamper_any_bit_fails_authentication() {
    let codec = Branka::new(&key_a(), 3000);
    let tok = codec.encode_at(b"Hello", 1000);
    let blob = radix62_decode(&tok).unwrap();
    // Byte 0 is the version byte: its flips trip the version gate first.
    for i in 1..blob.len() {
        for bit in 0..8 {
            let mut tampered = blob.clone();
            tampered[i] ^= 1 << bit;
            let forged = radix62_encode(&tampered);
            assert_eq!(
                codec.decode_at(&forged, 1000),
                Err(BrankaError::InvalidData),
                "bit {} of byte {} slipped through",
                bit,
                i
            );
        }
    }
}

#[test]
fn version_byte_any_flip_rejected() {
    let codec = Branka::new(&key_a(), 3000);
    let tok = codec.encode_at(b"Hello", 1000);
    let blob = radix62_decode(&tok).unwrap();
    for bit in 0..8 {
        let mut tampered = blob.clone();
        tampered[0] ^= 1 << bit;
        let forged = radix62_encode(&tampered);
        assert_eq!(codec.decode_at(&forged, 1000), Err(BrankaError::InvalidVersion));
    }
}

#[test]
fn wrong_key_fails() {
    let issuer = Branka::new(&key_a(), 3000);
    let other = Branka::new(&key_b(), 3000);
    let tok = issuer.encode_at(b"secret", 1000);
    assert_eq!(other.decode_at(&tok, 1000), Err(BrankaError::InvalidData));
}

#[test]
fn nonce_is_fresh_per_encode() {
    let codec = Branka::new(&key_a(), 3000);
    let tok1 = codec.encode_at(b"same payload", 1000);
    let tok2 = codec.encode_at(b"same payload", 1000);
    assert_ne!(tok1, tok2);
}

#[test]
fn transcoder_roundtrip() {
    let cases: Vec<Vec<u8>> = vec![
        vec![],
        vec![0],
        vec![0, 0],
        vec![0, 0, 0, 1],
        vec![1, 0, 0, 0],
        vec![255],
        vec![255, 255, 255, 255],
        (0u8..=255).collect(),
    ];
    for bytes in cases {
        let text = radix62_encode(&bytes);
        assert_eq!(radix62_decode(&text).unwrap(), bytes, "case {:?}", bytes);
    }
}

#[test]
fn transcoder_exact_values() {
    assert_eq!(radix62_encode(&[]), "");
    assert_eq!(radix62_encode(&[0]), "0");
    assert_eq!(radix62_encode(&[1]), "1");
    assert_eq!(radix62_encode(&[61]), "z");
    assert_eq!(radix62_encode(&[62]), "10");
    assert_eq!(radix62_encode(&[0, 0, 255]), "0047");
    assert_eq!(radix62_decode("0047").unwrap(), vec![0, 0, 255]);
    assert_eq!(radix62_decode("z").unwrap(), vec![61]);
}

#[test]
fn compression_roundtrips() {
    let codec = Branka::new(&key_a(), 3000);
    let methods = [CompressMethod::Gzip, CompressMethod::Zlib, CompressMethod::Deflate];
    let repetitive: Vec<u8> = b"all work and no play ".repeat(20);
    let payloads: Vec<Vec<u8>> = vec![Vec::new(), b"x".to_vec(), repetitive];
    for m in methods {
        for level in [0u32, 1, 6, 9] {
            for payload in &payloads {
                let tok = codec.encode_compressed(payload, m, level).unwrap();
                assert_eq!(
                    codec.decode_compressed(&tok, m).unwrap(),
                    payload.clone(),
                    "method {:?} level {}",
                    m,
                    level
                );
            }
        }
    }
}

#[test]
fn compression_method_mismatch_fails() {
    let codec = Branka::new(&key_a(), 3000);
    let tok = codec
        .encode_compressed(b"framed payload", CompressMethod::Gzip, 6)
        .unwrap();
    assert_eq!(
        codec.decode_compressed(&tok, CompressMethod::Zlib),
        Err(BrankaError::InvalidData)
    );
}

#[test]
fn compressed_token_decodes_raw_to_compressed_bytes() {
    let codec = Branka::new(&key_a(), 3000);
    let payload = b"see the framing".to_vec();
    let tok = codec
        .encode_compressed_at(&payload, CompressMethod::Gzip, 6, 1000)
        .unwrap();
    let sealed = codec.decode_at(&tok, 1000).unwrap();
    // The sealed bytes are the gzip form, not the payload itself.
    assert_ne!(sealed, payload);
    assert_eq!(&sealed[..2], &[0x1f, 0x8b]);
}
