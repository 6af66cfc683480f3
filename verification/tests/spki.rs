use simple_provider_adapter::der::spki_to_subject_public_key;
use simple_provider_adapter::errors::PkeyError;
use simple_provider_adapter::spki::{build_ec_spki, build_rsa_spki, ec_curve_oid_der};

const P256_OID: [u8; 10] = [0x06, 0x08, 0x2a, 0x86, 0x48, 0xce, 0x3d, 0x03, 0x01, 0x07];
const P384_OID: [u8; 7] = [0x06, 0x05, 0x2b, 0x81, 0x04, 0x00, 0x22];
const P521_OID: [u8; 7] = [0x06, 0x05, 0x2b, 0x81, 0x04, 0x00, 0x23];

#[test]
fn curve_oids_for_every_alias() {
    for name in ["prime256v1", "P-256", "secp256r1"] {
        assert_eq!(ec_curve_oid_der(name), Some(&P256_OID[..]));
    }
    for name in ["secp384r1", "P-384"] {
        assert_eq!(ec_curve_oid_der(name), Some(&P384_OID[..]));
    }
    for name in ["secp521r1", "P-521"] {
        assert_eq!(ec_curve_oid_der(name), Some(&P521_OID[..]));
    }
}

#[test]
fn curve_oid_unknown_names() {
    assert_eq!(ec_curve_oid_der("p-256"), None);
    assert_eq!(ec_curve_oid_der("secp256k1"), None);
    assert_eq!(ec_curve_oid_der(""), None);
    assert_eq!(ec_curve_oid_der("P-2566"), None);
}

#[test]
fn ec_spki_p256_has_the_standard_prefix() {
    let mut point = vec![0x04u8];
    point.extend((1..=64).map(|i| i as u8));
    let spki = build_ec_spki("P-256", &point).unwrap();
    let prefix: [u8; 26] = [
        0x30, 0x59, 0x30, 0x13, 0x06, 0x07, 0x2a, 0x86, 0x48, 0xce, 0x3d, 0x02, 0x01, 0x06, 0x08,
        0x2a, 0x86, 0x48, 0xce, 0x3d, 0x03, 0x01, 0x07, 0x03, 0x42, 0x00,
    ];
    assert_eq!(spki.len(), 91);
    assert_eq!(&spki[..26], &prefix[..]);
    assert_eq!(&spki[26..], &point[..]);
}

#[test]
fn ec_spki_small_point_exact_bytes() {
    let spki = build_ec_spki("P-384", &[4, 1, 2]).unwrap();
    assert_eq!(
        spki,
        vec![
            0x30, 0x18, 0x30, 0x10, 0x06, 0x07, 0x2a, 0x86, 0x48, 0xce, 0x3d, 0x02, 0x01, 0x06,
            0x05, 0x2b, 0x81, 0x04, 0x00, 0x22, 0x03, 0x04, 0x00, 0x04, 0x01, 0x02
        ]
    );
}

#[test]
fn ec_spki_unknown_curve_is_refused() {
    assert_eq!(build_ec_spki("brainpoolP256r1", &[4, 1]), Err("unsupported EC curve for SPKI"));
}

#[test]
fn ec_spki_long_point_uses_long_length_forms() {
    // 200-byte point: BIT STRING content 201 bytes -> 0x81 form; outer > 255 -> 0x82 form.
    let point = vec![0xabu8; 200];
    let spki = build_ec_spki("P-521", &point).unwrap();
    assert_eq!(spki[0], 0x30);
    assert_eq!(spki[1], 0x81);
    let total = spki.len();
    assert_eq!(spki[2] as usize, total - 3);
    let point = vec![0x5au8; 1000];
    let spki = build_ec_spki("P-521", &point).unwrap();
    assert_eq!(&spki[..2], &[0x30, 0x82]);
    let content_len = ((spki[2] as usize) << 8) | spki[3] as usize;
    assert_eq!(content_len, spki.len() - 4);
    let point = vec![0x11u8; 70000];
    let spki = build_ec_spki("P-256", &point).unwrap();
    assert_eq!(&spki[..2], &[0x30, 0x83]);
    let content_len = ((spki[2] as usize) << 16) | ((spki[3] as usize) << 8) | spki[4] as usize;
    assert_eq!(content_len, spki.len() - 5);
}

#[test]
fn rsa_spki_exact_bytes() {
    let spki = build_rsa_spki(&[0x00, 0x00, 0xc5], &[0x01, 0x00, 0x01]);
    assert_eq!(
        spki,
        vec![
            0x30, 0x1d, 0x30, 0x0d, 0x06, 0x09, 0x2a, 0x86, 0x48, 0x86, 0xf7, 0x0d, 0x01, 0x01,
            0x01, 0x05, 0x00, 0x03, 0x0c, 0x00, 0x30, 0x09, 0x02, 0x02, 0x00, 0xc5, 0x02, 0x03,
            0x01, 0x00, 0x01
        ]
    );
}

#[test]
fn rsa_spki_empty_and_zero_inputs() {
    let spki = build_rsa_spki(&[], &[0x00, 0x00]);
    assert_eq!(
        spki,
        vec![
            0x30, 0x19, 0x30, 0x0d, 0x06, 0x09, 0x2a, 0x86, 0x48, 0x86, 0xf7, 0x0d, 0x01, 0x01,
            0x01, 0x05, 0x00, 0x03, 0x08, 0x00, 0x30, 0x05, 0x02, 0x00, 0x02, 0x01, 0x00
        ]
    );
}

#[test]
fn rsa_integer_is_canonical() {
    // Leading zeros are dropped and a sign byte added only where the top bit is set.
    let spki = build_rsa_spki(&[0x00, 0x7f, 0x01], &[0x03]);
    let key = spki_to_subject_public_key(&spki).unwrap();
    assert_eq!(key, vec![0x30, 0x07, 0x02, 0x02, 0x7f, 0x01, 0x02, 0x01, 0x03]);
    let spki = build_rsa_spki(&[0x00, 0x00, 0x80], &[0x03]);
    let key = spki_to_subject_public_key(&spki).unwrap();
    assert_eq!(key, vec![0x30, 0x07, 0x02, 0x02, 0x00, 0x80, 0x02, 0x01, 0x03]);
}

#[test]
fn strip_gives_back_the_ec_point() {
    for len in [0usize, 1, 65, 97, 133, 126, 127, 128, 300, 70000] {
        let point: Vec<u8> = (0..len).map(|i| (i * 7) as u8).collect();
        for curve in ["P-256", "P-384", "P-521"] {
            let spki = build_ec_spki(curve, &point).unwrap();
            assert_eq!(spki_to_subject_public_key(&spki).unwrap(), point);
        }
    }
}

#[test]
fn strip_gives_back_the_rsa_public_key() {
    let modulus: Vec<u8> = (0..256).map(|i| (255 - i) as u8).collect();
    let spki = build_rsa_spki(&modulus, &[0x01, 0x00, 0x01]);
    let key = spki_to_subject_public_key(&spki).unwrap();
    assert_eq!(key[0], 0x30);
    assert_eq!(&key[key.len() - 5..], &[0x02, 0x03, 0x01, 0x00, 0x01]);
    assert_eq!(&key[4..9], &[0x02, 0x82, 0x01, 0x01, 0x00]);
}

fn internal_message(r: Result<Vec<u8>, PkeyError>) -> String {
    match r {
        Err(PkeyError::Internal(m)) => m,
        other => panic!("unexpected {:?}", other),
    }
}

#[test]
fn strip_errors() {
    assert_eq!(internal_message(spki_to_subject_public_key(&[])), "SPKI: not a SEQUENCE");
    assert_eq!(internal_message(spki_to_subject_public_key(&[0x31, 0x00])), "SPKI: not a SEQUENCE");
    // Declared length longer than the buffer.
    assert_eq!(internal_message(spki_to_subject_public_key(&[0x30, 0x05, 0x30])), "SPKI: not a SEQUENCE");
    // Long form with zero length bytes.
    assert_eq!(internal_message(spki_to_subject_public_key(&[0x30, 0x80])), "SPKI: not a SEQUENCE");
    assert_eq!(
        internal_message(spki_to_subject_public_key(&[0x30, 0x02, 0x02, 0x00])),
        "SPKI: missing AlgorithmIdentifier"
    );
    assert_eq!(
        internal_message(spki_to_subject_public_key(&[0x30, 0x04, 0x30, 0x00, 0x04, 0x00])),
        "SPKI: missing BIT STRING"
    );
    assert_eq!(
        internal_message(spki_to_subject_public_key(&[0x30, 0x04, 0x30, 0x00, 0x03, 0x00])),
        "SPKI: empty BIT STRING"
    );
}

#[test]
fn strip_takes_everything_after_the_unused_bits_byte() {
    // The BIT STRING claims one byte, but the outer SEQUENCE holds two more.
    let spki = [0x30, 0x07, 0x30, 0x00, 0x03, 0x01, 0x00, 0xaa, 0xbb];
    assert_eq!(spki_to_subject_public_key(&spki).unwrap(), vec![0xaa, 0xbb]);
    // Long-form lengths are read too.
    let spki = [0x30, 0x81, 0x06, 0x30, 0x00, 0x03, 0x81, 0x01, 0x00];
    assert_eq!(spki_to_subject_public_key(&spki).unwrap(), Vec::<u8>::new());
}

#[test]
fn lengths_beyond_the_machine_word_are_refused() {
    // Nine length bytes worth 2^64: no buffer can hold that much content.
    let spki = [0x30, 0x89, 0x01, 0, 0, 0, 0, 0, 0, 0, 0, 0x00];
    assert_eq!(internal_message(spki_to_subject_public_key(&spki)), "SPKI: not a SEQUENCE");
    // Nine length bytes worth 2^64 + 5, followed by five bytes.
    let spki = [0x30, 0x89, 0x01, 0, 0, 0, 0, 0, 0, 0, 0x05, 0x30, 0x00, 0x03, 0x01, 0x00];
    assert_eq!(internal_message(spki_to_subject_public_key(&spki)), "SPKI: not a SEQUENCE");
    // Many length bytes with a small value are fine.
    let spki = [0x30, 0x86, 0, 0, 0, 0, 0, 0x05, 0x30, 0x00, 0x03, 0x01, 0x00];
    assert_eq!(spki_to_subject_public_key(&spki).unwrap(), Vec::<u8>::new());
}
