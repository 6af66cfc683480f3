use simple_provider_adapter::codec::{StubDecodeCtx, StubEncodeCtx};
use simple_provider_adapter::keymgmt;
use simple_provider_adapter::provider;
use simple_provider_adapter::digest::{digest_name_to_backend, DigestAlgorithm};
use simple_provider_adapter::errors::{backend_to_pkey, BackendError, PkeyError};
use simple_provider_adapter::keymgmt::{gen_init, EcKeyInfo, GenContext, KeyAlgorithm, KeyRecord, KeySelection, RsaKeyInfo};
use simple_provider_adapter::params::{
    has_explicit_digest, parse_digest_param, OsslParam, OsslParamKind, OsslParamValue,
};
use simple_provider_adapter::provider::{
    gettable_ctx_params, query_key_types, query_operation, query_operation_name, settable_ctx_params,
    Operation,
};
use simple_provider_adapter::signature::{finish_sign, AsymCipherContext, RsaPssParams, SignatureMechanism, SigningSession};
use simple_provider_adapter::spki::build_ec_spki;

fn p(key: &str, value: OsslParamValue) -> OsslParam {
    OsslParam { key: key.to_string(), value }
}

fn utf8(s: &str) -> OsslParamValue {
    OsslParamValue::Utf8String(s.to_string())
}

fn sel(private_key: bool, public_key: bool) -> KeySelection {
    KeySelection { private_key, public_key, domain_parameters: false, other_parameters: false }
}

fn ec_key(uri: &str, curve: &str) -> KeyRecord {
    KeyRecord::loaded(uri.to_string(), KeyAlgorithm::Ec(EcKeyInfo { curve: curve.to_string() }))
}

fn rsa_key(uri: &str, bits: u32) -> KeyRecord {
    KeyRecord::loaded(uri.to_string(), KeyAlgorithm::Rsa(RsaKeyInfo { modulus_bits: bits }))
}

#[test]
fn digest_names() {
    assert_eq!(digest_name_to_backend("sha256"), DigestAlgorithm::Sha256);
    assert_eq!(digest_name_to_backend("SHA1"), DigestAlgorithm::Sha1);
    assert_eq!(digest_name_to_backend("sha-1"), DigestAlgorithm::Sha1);
    assert_eq!(digest_name_to_backend("SHA2-224"), DigestAlgorithm::Sha224);
    assert_eq!(digest_name_to_backend("sha2-384"), DigestAlgorithm::Sha384);
    assert_eq!(digest_name_to_backend("Sha-512"), DigestAlgorithm::Sha512);
    assert_eq!(digest_name_to_backend("sha3s256"), DigestAlgorithm::Sha3S256);
    assert_eq!(digest_name_to_backend("SHA3S384"), DigestAlgorithm::Sha3S384);
    assert_eq!(digest_name_to_backend("sha3-s512"), DigestAlgorithm::Sha3S512);
    // "SHA3-256" normalizes to "SHA3256", which is not in the table.
    assert_eq!(digest_name_to_backend("SHA3-256"), DigestAlgorithm::Sha256);
    assert_eq!(digest_name_to_backend("md5"), DigestAlgorithm::Sha256);
    assert_eq!(digest_name_to_backend(""), DigestAlgorithm::Sha256);
    // Every "SHA2" is shortened, left to right.
    assert_eq!(digest_name_to_backend("SHA2SHA2"), DigestAlgorithm::Sha256);
}

#[test]
fn digest_param_first_utf8_wins() {
    let params = vec![
        p("properties", utf8("x")),
        p("digest", OsslParamValue::Integer(5)),
        p("digest", utf8("sha384")),
        p("digest", utf8("sha1")),
    ];
    assert_eq!(parse_digest_param(&params), DigestAlgorithm::Sha384);
    assert_eq!(parse_digest_param(&params[..2]), DigestAlgorithm::Sha256);
    assert!(has_explicit_digest(&params[..2]));
    assert!(!has_explicit_digest(&params[..1]));
    assert_eq!(parse_digest_param(&[]), DigestAlgorithm::Sha256);
}

#[test]
fn backend_errors_translate_with_their_message() {
    let m = || "m".to_string();
    assert_eq!(backend_to_pkey(BackendError::KeyNotFound(m())), PkeyError::InvalidKey(m()));
    assert_eq!(backend_to_pkey(BackendError::AlgorithmMismatch(m())), PkeyError::InvalidArgument(m()));
    assert_eq!(backend_to_pkey(BackendError::MechanismNotSupported(m())), PkeyError::NotSupported(m()));
    assert_eq!(backend_to_pkey(BackendError::AuthenticationFailed(m())), PkeyError::InvalidState(m()));
    assert_eq!(backend_to_pkey(BackendError::TransportError(m())), PkeyError::BackendError(m()));
    assert_eq!(backend_to_pkey(BackendError::Internal(m())), PkeyError::BackendError(m()));
}

#[test]
fn key_presence() {
    let empty = KeyRecord::new();
    assert!(!empty.has(sel(true, true)));
    let k = ec_key("pkcs11:a", "P-256");
    assert!(k.has(sel(false, true)));
    assert!(k.has(sel(true, false)));
    assert!(!k.has(sel(false, false)));
    let domain_only = KeySelection { private_key: false, public_key: false, domain_parameters: true, other_parameters: true };
    assert!(!k.has(domain_only));
    assert!(k.matches(&ec_key("pkcs11:a", "P-384")));
    assert!(!k.matches(&ec_key("pkcs11:b", "P-256")));
}

#[test]
fn load_reference_needs_utf8() {
    assert_eq!(KeyRecord::load_reference(b"pkcs11:token=x".to_vec()), Ok("pkcs11:token=x".to_string()));
    assert_eq!(
        KeyRecord::load_reference(vec![0xff, 0x00]),
        Err(PkeyError::InvalidArgument("wit-bridge load: reference is not UTF-8".to_string()))
    );
}

#[test]
fn import_uri_cases() {
    assert_eq!(
        KeyRecord::import_uri(&[p("other", utf8("x")), p("wit-bridge-uri", utf8("u1"))]),
        Ok("u1".to_string())
    );
    assert_eq!(
        KeyRecord::import_uri(&[p("wit-bridge-uri", OsslParamValue::OctetString(b"u2".to_vec()))]),
        Ok("u2".to_string())
    );
    assert_eq!(
        KeyRecord::import_uri(&[p("wit-bridge-uri", OsslParamValue::OctetString(vec![0xc3]))]),
        Err(PkeyError::InvalidArgument("wit-bridge-uri octet-string is not UTF-8".to_string()))
    );
    assert_eq!(
        KeyRecord::import_uri(&[p("wit-bridge-uri", OsslParamValue::UnsignedInteger(1)), p("wit-bridge-uri", utf8("u3"))]),
        Err(PkeyError::InvalidArgument("wit-bridge-uri must be utf8-string or octet-string".to_string()))
    );
    assert_eq!(
        KeyRecord::import_uri(&[p("uri", utf8("x"))]),
        Err(PkeyError::NotSupported("wit-bridge: import requires the `wit-bridge-uri` OSSL_PARAM".to_string()))
    );
}

#[test]
fn install_then_has() {
    let mut k = KeyRecord::new();
    let uri = KeyRecord::import_uri(&[p("wit-bridge-uri", utf8("u"))]).unwrap();
    k.install(uri, KeyAlgorithm::Rsa(RsaKeyInfo { modulus_bits: 3072 }));
    assert!(k.has(sel(false, true)));
    assert_eq!(k.uri, "u");
    let d = k.dup();
    assert_eq!(d, k);
}

#[test]
fn ec_params_p384_with_public_key() {
    let k = ec_key("u", "P-384");
    let out = k.get_params(Some(vec![1, 2, 3])).unwrap();
    assert_eq!(
        out,
        vec![
            p("group", utf8("P-384")),
            p("point-format", utf8("uncompressed")),
            p("encoding", utf8("named_curve")),
            p("group-nid", OsslParamValue::Integer(715)),
            p("bits", OsslParamValue::UnsignedInteger(384)),
            p("security-bits", OsslParamValue::UnsignedInteger(192)),
            p("max-size", OsslParamValue::UnsignedInteger(104)),
            p("encoded-public-key", OsslParamValue::OctetString(vec![1, 2, 3])),
        ]
    );
}

#[test]
fn ec_params_other_curves() {
    let out = ec_key("u", "secp521r1").get_params(None).unwrap();
    assert_eq!(out[3], p("group-nid", OsslParamValue::Integer(716)));
    assert_eq!(out[4], p("bits", OsslParamValue::UnsignedInteger(521)));
    assert_eq!(out[6], p("max-size", OsslParamValue::UnsignedInteger(139)));
    assert_eq!(out.len(), 7);
    // secp256r1 has no NID here, and unknown curves fall back to P-256 sizes.
    for curve in ["secp256r1", "brainpoolP256r1"] {
        let out = ec_key("u", curve).get_params(Some(vec![9])).unwrap();
        assert_eq!(out.len(), 7);
        assert_eq!(out[3], p("bits", OsslParamValue::UnsignedInteger(256)));
        assert_eq!(out[5], p("max-size", OsslParamValue::UnsignedInteger(72)));
        assert_eq!(out[6], p("encoded-public-key", OsslParamValue::OctetString(vec![9])));
    }
    let out = ec_key("u", "prime256v1").get_params(None).unwrap();
    assert_eq!(out[3], p("group-nid", OsslParamValue::Integer(415)));
}

#[test]
fn params_without_bound_key_skip_public_key() {
    let mut k = KeyRecord::new();
    k.algorithm = Some(KeyAlgorithm::Ec(EcKeyInfo { curve: "P-256".to_string() }));
    let out = k.get_params(Some(vec![1])).unwrap();
    assert_eq!(out.len(), 7);
    assert_eq!(KeyRecord::new().get_params(None).unwrap(), vec![]);
}

#[test]
fn rsa_params() {
    let out = rsa_key("u", 2048).get_params(Some(vec![1])).unwrap();
    assert_eq!(
        out,
        vec![
            p("bits", OsslParamValue::UnsignedInteger(2048)),
            p("max-size", OsslParamValue::UnsignedInteger(256)),
        ]
    );
}

#[test]
fn export_checks() {
    let k = ec_key("u", "P-256");
    assert_eq!(
        k.export_check(sel(true, true)),
        Err(PkeyError::NotSupported("wit-bridge: private key cannot be extracted".to_string()))
    );
    assert_eq!(k.export_check(sel(false, true)), Ok(()));
    assert_eq!(
        KeyRecord::new().export_check(sel(false, true)),
        Err(PkeyError::InvalidState("keydata has no backend key".to_string()))
    );
}

#[test]
fn export_params_ec() {
    let k = ec_key("u", "P-256");
    let point = vec![4u8, 7, 7];
    let spki = build_ec_spki("P-256", &point).unwrap();
    let out = k.export_params(Ok(spki)).unwrap();
    assert_eq!(
        out,
        vec![vec![
            p("encoded-pub-key", OsslParamValue::OctetString(point.clone())),
            p("pub", OsslParamValue::OctetString(point.clone())),
            p("group", utf8("P-256")),
            p("point-format", utf8("uncompressed")),
            p("encoding", utf8("named_curve")),
        ]]
    );
}

#[test]
fn export_params_rsa_and_errors() {
    let k = rsa_key("u", 2048);
    let spki = [0x30, 0x05, 0x30, 0x00, 0x03, 0x01, 0x00];
    assert_eq!(
        k.export_params(Ok(spki.to_vec())).unwrap(),
        vec![vec![
            p("encoded-pub-key", OsslParamValue::OctetString(vec![])),
            p("pub", OsslParamValue::OctetString(vec![])),
        ]]
    );
    assert_eq!(
        k.export_params(Err(BackendError::TransportError("down".to_string()))),
        Err(PkeyError::BackendError("down".to_string()))
    );
    assert_eq!(
        k.export_params(Ok(vec![0x04])),
        Err(PkeyError::Internal("SPKI: not a SEQUENCE".to_string()))
    );
}

#[test]
fn sign_before_init_is_refused() {
    let s = SigningSession::new();
    assert_eq!(
        s.sign_request(),
        Err(PkeyError::InvalidState("sign called before sign_init".to_string()))
    );
}

#[test]
fn sign_init_with_empty_key_is_refused() {
    let mut s = SigningSession::new();
    assert_eq!(
        s.sign_init(&KeyRecord::new(), &[]),
        Err(PkeyError::InvalidState("wit-bridge sign_init: keydata is empty".to_string()))
    );
    assert!(s.sign_request().is_err());
    assert_eq!(
        s.digest_sign_init(Some("sha256"), &KeyRecord::new(), &[]),
        Err(PkeyError::InvalidState("wit-bridge digest_sign_init: keydata is empty".to_string()))
    );
}

#[test]
fn sign_init_ec_uses_raw_ecdsa() {
    let mut s = SigningSession::new();
    s.sign_init(&ec_key("k1", "P-256"), &[p("digest", utf8("sha384"))]).unwrap();
    assert_eq!(
        s.sign_request(),
        Ok(("k1".to_string(), SignatureMechanism::Ecdsa(DigestAlgorithm::Raw)))
    );
}

#[test]
fn sign_init_rsa_uses_pss_with_last_params() {
    let mut s = SigningSession::new();
    let params = vec![
        p("digest", utf8("sha384")),
        p("saltlen", OsslParamValue::Integer(32)),
        p("saltlen", OsslParamValue::Integer(-1)),
        p("saltlen", OsslParamValue::UnsignedInteger(7)),
        p("digest", utf8("SHA2-512")),
    ];
    s.sign_init(&rsa_key("k2", 2048), &params).unwrap();
    let expected = SignatureMechanism::RsaPss(RsaPssParams {
        digest: DigestAlgorithm::Sha512,
        mgf1_digest: DigestAlgorithm::Sha512,
        salt_len: 32,
    });
    assert_eq!(s.sign_request(), Ok(("k2".to_string(), expected)));
    let mut s = SigningSession::new();
    s.sign_init(&rsa_key("k2", 2048), &[p("saltlen", OsslParamValue::Integer(0x1_0000_0005))]).unwrap();
    let expected = SignatureMechanism::RsaPss(RsaPssParams {
        digest: DigestAlgorithm::Sha256,
        mgf1_digest: DigestAlgorithm::Sha256,
        salt_len: 5,
    });
    assert_eq!(s.sign_request(), Ok(("k2".to_string(), expected)));
}

#[test]
fn digest_sign_streams_input() {
    let mut s = SigningSession::new();
    s.digest_sign_update(b"stale").unwrap();
    s.digest_sign_init(Some("SHA-384"), &ec_key("k3", "P-384"), &[]).unwrap();
    assert_eq!(
        s.sign_request(),
        Ok(("k3".to_string(), SignatureMechanism::Ecdsa(DigestAlgorithm::Sha384)))
    );
    s.digest_sign_update(b"hello ").unwrap();
    s.digest_sign_update(b"").unwrap();
    s.digest_sign_update(b"world").unwrap();
    assert_eq!(s.take_input(), b"hello world".to_vec());
    assert_eq!(s.take_input(), Vec::<u8>::new());
    let d = s.dup();
    assert_eq!(d.sign_request(), s.sign_request());
}

#[test]
fn digest_sign_init_rsa_and_default_digest() {
    let mut s = SigningSession::new();
    s.digest_sign_init(None, &rsa_key("k4", 4096), &[p("digest", utf8("sha1")), p("saltlen", OsslParamValue::Integer(20))]).unwrap();
    let expected = SignatureMechanism::RsaPss(RsaPssParams {
        digest: DigestAlgorithm::Sha256,
        mgf1_digest: DigestAlgorithm::Sha256,
        salt_len: 20,
    });
    assert_eq!(s.sign_request(), Ok(("k4".to_string(), expected)));
}

#[test]
fn finish_sign_translates_errors() {
    assert_eq!(finish_sign(Ok(vec![1, 2])), Ok(vec![1, 2]));
    assert_eq!(
        finish_sign(Err(BackendError::AuthenticationFailed("pin".to_string()))),
        Err(PkeyError::InvalidState("pin".to_string()))
    );
}

#[test]
fn provider_tables() {
    let (algs, no_cache) = query_operation(Operation::Keymgmt);
    assert!(!no_cache);
    assert_eq!(algs.len(), 2);
    assert_eq!(algs[0].algorithm_names, "EC");
    assert_eq!(algs[0].property_definition, "provider=wit-bridge");
    assert_eq!(algs[0].description.as_deref(), Some("EC keymgmt via wit-bridge"));
    assert_eq!(algs[1].algorithm_names, "RSA");
    assert_eq!(algs[1].description.as_deref(), Some("RSA keymgmt via wit-bridge"));
    let (algs, no_cache) = query_operation(Operation::Signature);
    assert!(!no_cache);
    assert_eq!(algs[0].algorithm_names, "ECDSA");
    assert_eq!(algs[1].algorithm_names, "RSA-PSS");
    assert_eq!(algs[1].description.as_deref(), Some("RSA-PSS via wit-bridge"));
    for op in [Operation::Digest, Operation::AsymCipher, Operation::Encoder, Operation::Keyexch] {
        let (algs, no_cache) = query_operation(op);
        assert!(algs.is_empty());
        assert!(no_cache);
    }
    assert_eq!(query_operation_name(Operation::Signature), Some("ECDSA".to_string()));
    assert_eq!(query_operation_name(Operation::Keyexch), Some("ECDH".to_string()));
    assert_eq!(query_operation_name(Operation::Keymgmt), None);
    assert_eq!(query_key_types(), vec!["EC".to_string()]);
}

#[test]
fn signature_ctx_descriptors() {
    let g: Vec<(String, OsslParamKind)> = gettable_ctx_params().into_iter().map(|d| (d.key, d.kind)).collect();
    assert_eq!(
        g,
        vec![
            ("digest".to_string(), OsslParamKind::Utf8String),
            ("pad-mode".to_string(), OsslParamKind::Utf8String),
            ("algorithm-id".to_string(), OsslParamKind::OctetString),
        ]
    );
    let s: Vec<(String, OsslParamKind)> = settable_ctx_params().into_iter().map(|d| (d.key, d.kind)).collect();
    assert_eq!(
        s,
        vec![
            ("digest".to_string(), OsslParamKind::Utf8String),
            ("properties".to_string(), OsslParamKind::Utf8String),
            ("pad-mode".to_string(), OsslParamKind::Utf8String),
            ("mgf1-digest".to_string(), OsslParamKind::Utf8String),
            ("mgf1-properties".to_string(), OsslParamKind::Utf8String),
            ("saltlen".to_string(), OsslParamKind::Integer),
        ]
    );
}

#[test]
fn encoder_and_decoder_stubs() {
    let e = StubEncodeCtx::new();
    assert_eq!(e.get_params(), Ok(vec![]));
    assert_eq!(e.set_ctx_params(&[p("x", utf8("y"))]), Ok(()));
    assert!(!StubEncodeCtx::does_selection(sel(true, true)));
    assert!(StubEncodeCtx::gettable_params().is_empty());
    assert_eq!(
        e.import_object(sel(false, true), &[]),
        Err(PkeyError::NotSupported("encoder.import-object".to_string()))
    );
    assert_eq!(
        e.encode(&KeyRecord::new(), sel(false, true)),
        Err(PkeyError::NotSupported("encoder.encode".to_string()))
    );
    let d = StubDecodeCtx::new();
    assert_eq!(d.get_params(), Ok(vec![]));
    assert_eq!(d.set_ctx_params(&[]), Ok(()));
    assert!(!StubDecodeCtx::does_selection(sel(false, true)));
    assert!(StubDecodeCtx::gettable_params().is_empty());
    assert_eq!(
        d.export_object(&KeyRecord::new()),
        Err(PkeyError::NotSupported("decoder.export-object".to_string()))
    );
}

#[test]
fn refused_operations() {
    let s = SigningSession::new();
    let k = ec_key("u", "P-256");
    let ns = |m: &str| Err(PkeyError::NotSupported(m.to_string()));
    assert_eq!(s.verify_init(&k, &[]), ns("wit-bridge: verify uses openssl's own public-key path"));
    assert_eq!(s.verify(&[1], &[2]), ns("wit-bridge: see verify_init"));
    assert_eq!(s.verify_recover_init(&k, &[]), ns("wit-bridge: verify_recover is RSA-only"));
    assert_eq!(s.verify_recover(&[1]), Err(PkeyError::NotSupported("wit-bridge: verify_recover is RSA-only".to_string())));
    assert_eq!(s.digest_verify_init(Some("sha256"), &k, &[]), ns("wit-bridge: see verify_init"));
    assert_eq!(s.digest_verify_update(&[1]), ns("wit-bridge: see verify_init"));
    assert_eq!(s.digest_verify_final(&[1]), ns("wit-bridge: see verify_init"));
    assert_eq!(s.digest_verify(&[1], &[2]), ns("wit-bridge: see verify_init"));
    assert_eq!(s.get_ctx_params(&[]), Ok(vec![]));
    assert_eq!(s.set_ctx_params(&[p("digest", utf8("sha1"))]), Ok(()));
    assert!(matches!(gen_init(sel(true, true), &[]), Err(PkeyError::NotSupported(m)) if m == "wit-bridge: keygen not supported"));
    let g = GenContext;
    assert_eq!(g.set_params(&[]), ns("phase-3 stub"));
    assert_eq!(g.set_template(&k), ns("phase-3 stub"));
    assert!(matches!(g.get_params(&[]), Err(PkeyError::NotSupported(_))));
    assert!(matches!(g.gen(), Err(PkeyError::NotSupported(_))));
    assert_eq!(k.set_params(&[]), Ok(()));
    assert_eq!(k.validate(sel(true, true)), Ok(()));
    let c = AsymCipherContext::new();
    assert!(c.dup().is_err());
    assert_eq!(c.encrypt_init(&k, &[]), ns("phase-3 stub"));
    assert_eq!(c.decrypt_init(&k, &[]), ns("phase-3 stub"));
    assert_eq!(c.encrypt(&[1]), Err(PkeyError::NotSupported("phase-3 stub".to_string())));
    assert_eq!(c.decrypt(&[1]), Err(PkeyError::NotSupported("phase-3 stub".to_string())));
    assert_eq!(c.get_ctx_params(&[]), Ok(vec![]));
    assert_eq!(c.set_ctx_params(&[]), Ok(()));
}

#[test]
fn digest_sign_final_hands_out_the_stream() {
    let mut s = SigningSession::new();
    s.digest_sign_update(b"early").unwrap();
    assert_eq!(
        s.digest_sign_final_request(),
        Err(PkeyError::InvalidState("sign called before sign_init".to_string()))
    );
    assert_eq!(s.take_input(), Vec::<u8>::new());
    s.digest_sign_init(Some("sha512"), &rsa_key("k5", 2048), &[p("saltlen", OsslParamValue::Integer(64))]).unwrap();
    s.digest_sign_update(b"ab").unwrap();
    s.digest_sign_update(b"cd").unwrap();
    let expected = SignatureMechanism::RsaPss(RsaPssParams {
        digest: DigestAlgorithm::Sha512,
        mgf1_digest: DigestAlgorithm::Sha512,
        salt_len: 64,
    });
    assert_eq!(s.digest_sign_final_request(), Ok(("k5".to_string(), expected, b"abcd".to_vec())));
    assert_eq!(s.digest_sign_final_request(), Ok(("k5".to_string(), expected, vec![])));
}

#[test]
fn empty_tables_and_no_op_answers() {
    assert!(provider::gettable_params().is_empty());
    assert_eq!(provider::get_params(&["x".to_string()]), Ok(vec![]));
    assert!(provider::get_reason_strings().is_empty());
    assert_eq!(provider::get_capabilities("TLS-GROUP"), Ok(vec![]));
    assert_eq!(provider::self_test(), Ok(()));
    provider::unquery_operation(Operation::Keymgmt, query_operation(Operation::Keymgmt).0);
    assert_eq!(
        provider::random_bytes(provider::RandomSource::Public, 16, 128),
        Err(PkeyError::NotSupported("wit-bridge: no RNG".to_string()))
    );
    assert!(keymgmt::gettable_params().is_empty());
    assert!(keymgmt::settable_params().is_empty());
    assert!(keymgmt::import_types(sel(false, true)).is_empty());
    assert!(keymgmt::export_types(sel(false, true)).is_empty());
    assert!(keymgmt::import_types_ex(sel(true, true)).is_empty());
    assert!(keymgmt::export_types_ex(sel(true, true)).is_empty());
    assert!(keymgmt::gen_settable_params().is_empty());
    assert!(keymgmt::gen_gettable_params().is_empty());
    let s = SigningSession::new();
    assert_eq!(s.get_ctx_md_params(&[]), Ok(vec![]));
    assert_eq!(s.set_ctx_md_params(&[]), Ok(()));
    assert!(s.gettable_ctx_md_params().is_empty());
    assert!(s.settable_ctx_md_params().is_empty());
    assert!(AsymCipherContext::gettable_ctx_params().is_empty());
    assert!(AsymCipherContext::settable_ctx_params().is_empty());
    assert!(StubEncodeCtx::settable_ctx_params().is_empty());
    assert!(StubDecodeCtx::settable_ctx_params().is_empty());
    assert_eq!(StubDecodeCtx::new().decode(&[0x30, 0x00], sel(false, true)), Ok(vec![]));
}
