use spatial_hasher::{DecryptError, Point3D, RotationAxis, Spha256};

fn point(x: f64, y: f64, z: f64) -> Point3D {
    Point3D { x: x.to_bits(), y: y.to_bits(), z: z.to_bits() }
}

fn axis(x: f64, y: f64, z: f64) -> RotationAxis {
    RotationAxis { x: x.to_bits(), y: y.to_bits(), z: z.to_bits() }
}

fn sample() -> Spha256 {
    Spha256::new(point(1.0, 2.0, 3.0), axis(0.0, 1.0, 0.0), 10, 0.1f64.to_bits())
}

#[test]
fn test_encryption_decryption() {
    let point = Point3D {
        x: 1.0f64.to_bits(),
        y: 2.0f64.to_bits(),
        z: 3.0f64.to_bits(),
    };
    let axis = RotationAxis {
        x: 0.0f64.to_bits(),
        y: 1.0f64.to_bits(),
        z: 0.0f64.to_bits(),
    };
    let hasher = Spha256::new(point, axis, 10, 0.1f64.to_bits());

    let data = b"Test Data";
    let encrypted = hasher.encrypt(data);

    let decrypted = hasher.decrypt(&encrypted).expect("Decryption failed");

    assert_eq!(data, &decrypted[..]);
}

#[test]
fn hello_world_seals_twice_and_opens() {
    let h = sample();
    let data = b"Hello, World!";
    let a = h.encrypt(data);
    let b = h.encrypt(data);
    assert_ne!(a, b);
    assert_eq!(a.len(), 12 + data.len() + 16);
    assert_eq!(h.decrypt(&a).unwrap(), data.to_vec());
    assert_eq!(h.decrypt(&b).unwrap(), data.to_vec());
}

#[test]
fn empty_message_round_trips() {
    let h = sample();
    let sealed = h.encrypt(b"");
    assert_eq!(sealed.len(), 28);
    assert_eq!(h.decrypt(&sealed).unwrap(), Vec::<u8>::new());
}

#[test]
fn derived_key_matches_sha256_of_le_encoding() {
    let expected: [u8; 32] = [
        140, 156, 184, 220, 55, 255, 213, 118, 13, 168, 210, 128, 241, 116, 67, 147, 93, 121, 29,
        15, 182, 241, 36, 110, 192, 180, 163, 129, 182, 231, 57, 196,
    ];
    assert_eq!(sample().generate_key(), expected);
}

#[test]
fn key_derivation_is_deterministic() {
    assert_eq!(sample().generate_key(), sample().generate_key());
}

#[test]
fn every_field_changes_the_key() {
    let base = sample().generate_key();
    let ulp = |v: f64| f64::from_bits(v.to_bits() + 1);
    let variants = [
        Spha256::new(point(ulp(1.0), 2.0, 3.0), axis(0.0, 1.0, 0.0), 10, 0.1f64.to_bits()),
        Spha256::new(point(1.0, ulp(2.0), 3.0), axis(0.0, 1.0, 0.0), 10, 0.1f64.to_bits()),
        Spha256::new(point(1.0, 2.0, ulp(3.0)), axis(0.0, 1.0, 0.0), 10, 0.1f64.to_bits()),
        Spha256::new(point(1.0, 2.0, 3.0), axis(ulp(0.0), 1.0, 0.0), 10, 0.1f64.to_bits()),
        Spha256::new(point(1.0, 2.0, 3.0), axis(0.0, ulp(1.0), 0.0), 10, 0.1f64.to_bits()),
        Spha256::new(point(1.0, 2.0, 3.0), axis(0.0, 1.0, -0.0), 10, 0.1f64.to_bits()),
        Spha256::new(point(1.0, 2.0, 3.0), axis(0.0, 1.0, 0.0), 11, 0.1f64.to_bits()),
        Spha256::new(point(1.0, 2.0, 3.0), axis(0.0, 1.0, 0.0), 10, ulp(0.1).to_bits()),
    ];
    for v in variants.iter() {
        assert_ne!(v.generate_key(), base);
    }
}

#[test]
fn flipping_any_bit_fails_authentication() {
    let h = sample();
    let sealed = h.encrypt(b"Hello, World!");
    for i in 0..sealed.len() {
        for bit in 0..8 {
            let mut t = sealed.clone();
            t[i] ^= 1u8 << bit;
            assert_eq!(h.decrypt(&t), Err(DecryptError::AuthenticationFailed));
        }
    }
}

#[test]
fn short_payload_is_malformed() {
    let h = sample();
    for n in 0..12 {
        assert_eq!(h.decrypt(&vec![0u8; n]), Err(DecryptError::MalformedPayload));
    }
    assert_eq!(h.decrypt(&[0u8; 12]), Err(DecryptError::AuthenticationFailed));
    assert_eq!(h.decrypt(&[0u8; 40]), Err(DecryptError::AuthenticationFailed));
}

#[test]
fn other_parameters_cannot_open() {
    let sealed = sample().encrypt(b"Hello, World!");
    let other = Spha256::new(point(1.0, 2.0, 3.0), axis(0.0, 1.0, 0.0), 11, 0.1f64.to_bits());
    assert_eq!(other.decrypt(&sealed), Err(DecryptError::AuthenticationFailed));
}

#[test]
fn seal_with_fixed_nonce_matches_chacha20poly1305() {
    let nonce: [u8; 12] = [0, 1, 2, 3, 4, 5, 6, 7, 8, 9, 10, 11];
    let sealed = sample().seal_with_nonce(b"Hello, World!", &nonce);
    let body: [u8; 29] = [
        172, 228, 192, 213, 91, 4, 83, 36, 128, 121, 80, 244, 29, 39, 20, 71, 96, 20, 32, 64, 112,
        64, 68, 136, 106, 76, 189, 186, 183,
    ];
    assert_eq!(&sealed[..12], &nonce[..]);
    assert_eq!(&sealed[12..], &body[..]);
    assert_eq!(sample().decrypt(&sealed).unwrap(), b"Hello, World!".to_vec());
}

#[test]
fn stream_variant_round_trips() {
    let h = sample();
    let data = b"Test Data";
    let c = h.stream_encrypt(data);
    assert_eq!(c.len(), data.len());
    assert_ne!(&c[..], &data[..]);
    assert_eq!(h.stream_decrypt(&c), data.to_vec());
}

#[test]
fn stream_variant_is_deterministic_and_keyed() {
    let h = sample();
    let data = b"Test Data";
    assert_eq!(h.stream_encrypt(data), h.stream_encrypt(data));
    let other = Spha256::new(point(1.0, 2.0, 3.0), axis(0.0, 1.0, 0.0), 11, 0.1f64.to_bits());
    assert_ne!(other.stream_encrypt(data), h.stream_encrypt(data));
    assert_eq!(h.stream_encrypt(b""), Vec::<u8>::new());
}

#[test]
fn stream_variant_accepts_any_input() {
    let h = sample();
    let garbage = vec![0xffu8; 5];
    assert_eq!(h.stream_decrypt(&garbage).len(), 5);
}

#[test]
fn parameters_are_kept() {
    let p = sample().parameters();
    assert_eq!(p.point, point(1.0, 2.0, 3.0));
    assert_eq!(p.rotation_axis, axis(0.0, 1.0, 0.0));
    assert_eq!(p.iterations, 10);
    assert_eq!(p.strength, 0.1f64.to_bits());
}

#[test]
fn payload_without_room_for_a_tag_fails_authentication() {
    let h = sample();
    for n in 12..28 {
        assert_eq!(h.decrypt(&vec![7u8; n]), Err(DecryptError::AuthenticationFailed));
    }
}

#[test]
fn opened_plaintext_is_payload_minus_nonce_and_tag() {
    let h = sample();
    for n in [0usize, 1, 15, 16, 17, 64, 100] {
        let data = vec![0xabu8; n];
        let sealed = h.encrypt(&data);
        assert_eq!(sealed.len(), n + 28);
        let opened = h.decrypt(&sealed).unwrap();
        assert_eq!(opened.len(), sealed.len() - 28);
        assert_eq!(opened, data);
    }
}
