//! Key management: what the adapter records per key, the parameters it
//! reports for a key, and the decisions of load, import, export and dup.
//! The backend's key handle itself lives with the caller; this module is
//! told whether one is bound and is handed what the backend returned.
use vstd::prelude::*;
use vstd::string::StringExecFns;
use vstd::utf8::{valid_utf8, decode_utf8};
use crate::text::str_eq;
use crate::errors::{PkeyError, PkeyErrorKind, BackendError, pkey_error, backend_to_pkey, spec_backend_to_pkey};
use crate::params::{param_value, param_value_from, OsslParam, OsslParamDescriptor, OsslParamValue, ValueModel, ParamModel, param, params_model, make_param};
use crate::der::{subject_public_key, spki_fault_message, spki_to_subject_public_key};

verus! {

/// EC key details the backend reports.
#[derive(Clone, Debug, PartialEq, Eq)]
pub struct EcKeyInfo {
    pub curve: String,
}

/// RSA key details the backend reports.
#[derive(Clone, Debug, PartialEq, Eq)]
pub struct RsaKeyInfo {
    pub modulus_bits: u32,
}

/// The algorithm of a backend key.
#[derive(Clone, Debug, PartialEq, Eq)]
pub enum KeyAlgorithm {
    Ec(EcKeyInfo),
    Rsa(RsaKeyInfo),
}

/// The mathematical content of a key algorithm.
pub enum AlgorithmModel {
    Ec(Seq<char>),
    Rsa(u32),
}

impl View for KeyAlgorithm {
    type V = AlgorithmModel;

    open spec fn view(&self) -> AlgorithmModel {
        match self {
            KeyAlgorithm::Ec(info) => AlgorithmModel::Ec(info.curve@),
            KeyAlgorithm::Rsa(info) => AlgorithmModel::Rsa(info.modulus_bits),
        }
    }
}

/// The model of an optional algorithm.
pub open spec fn algorithm_model(a: Option<KeyAlgorithm>) -> Option<AlgorithmModel> {
    match a {
        Some(k) => Some(k@),
        None => None,
    }
}

impl KeyAlgorithm {
    /// A copy of this algorithm.
    pub fn duplicate(&self) -> (r: KeyAlgorithm)
        ensures
            r@ == self@,
    {
        match self {
            KeyAlgorithm::Ec(info) => KeyAlgorithm::Ec(EcKeyInfo { curve: info.curve.clone() }),
            KeyAlgorithm::Rsa(info) => KeyAlgorithm::Rsa(RsaKeyInfo { modulus_bits: info.modulus_bits }),
        }
    }
}

/// Which parts of a key an operation is about.
#[derive(Clone, Copy, Debug, PartialEq, Eq, Structural)]
pub struct KeySelection {
    pub private_key: bool,
    pub public_key: bool,
    pub domain_parameters: bool,
    pub other_parameters: bool,
}

/// OpenSSL's NID for the named curves it knows by number; -1 otherwise.
pub open spec fn curve_nid(curve: Seq<char>) -> i64 {
    if curve == "prime256v1"@ || curve == "P-256"@ {
        415
    } else if curve == "secp384r1"@ || curve == "P-384"@ {
        715
    } else if curve == "secp521r1"@ || curve == "P-521"@ {
        716
    } else {
        -1i64
    }
}

/// Key size in bits and largest DER ECDSA signature in bytes for a
/// curve; the P-256 figures for curves not listed.
pub open spec fn curve_sizes(curve: Seq<char>) -> (u32, u64) {
    if curve == "P-256"@ || curve == "prime256v1"@ {
        (256, 72)
    } else if curve == "P-384"@ || curve == "secp384r1"@ {
        (384, 104)
    } else if curve == "P-521"@ || curve == "secp521r1"@ {
        (521, 139)
    } else {
        (256, 72)
    }
}

/// The parameters reported for an EC key on `curve`, with the encoded
/// public key where one was obtained.
pub open spec fn ec_key_params(curve: Seq<char>, spki: Option<Seq<u8>>) -> Seq<ParamModel> {
    let base = seq![
        param("group"@, ValueModel::Utf8String(curve)),
        param("point-format"@, ValueModel::Utf8String("uncompressed"@)),
        param("encoding"@, ValueModel::Utf8String("named_curve"@)),
    ];
    let nid = curve_nid(curve);
    let with_nid = if nid > 0 {
        base.push(param("group-nid"@, ValueModel::Integer(nid)))
    } else {
        base
    };
    let bits = curve_sizes(curve).0;
    let max_sig = curve_sizes(curve).1;
    let sized = with_nid + seq![
        param("bits"@, ValueModel::UnsignedInteger(bits as u64)),
        param("security-bits"@, ValueModel::UnsignedInteger((bits / 2) as u64)),
        param("max-size"@, ValueModel::UnsignedInteger(max_sig)),
    ];
    match spki {
        Some(b) => sized.push(param("encoded-public-key"@, ValueModel::OctetString(b))),
        None => sized,
    }
}

/// The parameters reported for an RSA key with a modulus of `bits` bits.
pub open spec fn rsa_key_params(bits: u32) -> Seq<ParamModel> {
    seq![
        param("bits"@, ValueModel::UnsignedInteger(bits as u64)),
        param("max-size"@, ValueModel::UnsignedInteger((bits / 8) as u64)),
    ]
}

/// The parameters reported for a key of the given algorithm.
pub open spec fn key_params(alg: Option<AlgorithmModel>, spki: Option<Seq<u8>>) -> Seq<ParamModel> {
    match alg {
        Some(AlgorithmModel::Ec(curve)) => ec_key_params(curve, spki),
        Some(AlgorithmModel::Rsa(bits)) => rsa_key_params(bits),
        None => Seq::empty(),
    }
}

/// The content of optional bytes.
pub open spec fn opt_bytes(o: Option<Vec<u8>>) -> Option<Seq<u8>> {
    match o {
        Some(b) => Some(b@),
        None => None,
    }
}

fn push_param(out: &mut Vec<OsslParam>, key: &str, value: OsslParamValue)
    ensures
        params_model(final(out)@) == params_model(old(out)@).push(param(key@, value@)),
{
    let p = make_param(key, value);
    out.push(p);
    assert(params_model(out@) =~= params_model(old(out)@).push(param(key@, value@)));
}

fn utf8_value(s: &str) -> (v: OsslParamValue)
    ensures
        v@ == ValueModel::Utf8String(s@),
{
    OsslParamValue::Utf8String(String::from_str(s))
}

fn ec_params(curve: &String, spki: Option<Vec<u8>>) -> (out: Vec<OsslParam>)
    ensures
        params_model(out@) == ec_key_params(curve@, opt_bytes(spki)),
{
    let ghost spki_m = opt_bytes(spki);
    let mut out: Vec<OsslParam> = Vec::new();
    push_param(&mut out, "group", OsslParamValue::Utf8String(curve.clone()));
    push_param(&mut out, "point-format", utf8_value("uncompressed"));
    push_param(&mut out, "encoding", utf8_value("named_curve"));
    let c = curve.as_str();
    let nid: i64 = if str_eq(c, "prime256v1") || str_eq(c, "P-256") {
        415
    } else if str_eq(c, "secp384r1") || str_eq(c, "P-384") {
        715
    } else if str_eq(c, "secp521r1") || str_eq(c, "P-521") {
        716
    } else {
        -1i64
    };
    if nid > 0 {
        push_param(&mut out, "group-nid", OsslParamValue::Integer(nid));
    }
    let (bits, max_sig): (u32, u64) = if str_eq(c, "P-256") || str_eq(c, "prime256v1") {
        (256, 72)
    } else if str_eq(c, "P-384") || str_eq(c, "secp384r1") {
        (384, 104)
    } else if str_eq(c, "P-521") || str_eq(c, "secp521r1") {
        (521, 139)
    } else {
        (256, 72)
    };
    push_param(&mut out, "bits", OsslParamValue::UnsignedInteger(bits as u64));
    push_param(&mut out, "security-bits", OsslParamValue::UnsignedInteger(bits as u64 / 2));
    push_param(&mut out, "max-size", OsslParamValue::UnsignedInteger(max_sig));
    match spki {
        Some(b) => {
            push_param(&mut out, "encoded-public-key", OsslParamValue::OctetString(b));
        },
        None => {},
    }
    assert(params_model(out@) =~= ec_key_params(curve@, spki_m));
    out
}


/// `String::from_utf8` of std: the bytes as a `String` where they are
/// valid UTF-8, nothing otherwise. The contract claims what std documents:
/// success exactly on valid UTF-8, and then the decoded characters.
#[verifier::external_body]
fn string_from_utf8(bytes: Vec<u8>) -> (r: Option<String>)
    ensures
        r is Some <==> valid_utf8(bytes@),
        r matches Some(s) ==> s@ == decode_utf8(bytes@),
{
    match String::from_utf8(bytes) {
        Ok(s) => Some(s),
        Err(_) => None,
    }
}

/// What the adapter records per key: the URI it was loaded from, whether
/// a backend key handle is bound, and the algorithm the backend reported.
#[derive(Clone, Debug, PartialEq, Eq)]
pub struct KeyRecord {
    pub uri: String,
    pub bound: bool,
    pub algorithm: Option<KeyAlgorithm>,
}

/// The mathematical content of a key record.
pub struct KeyRecordModel {
    pub uri: Seq<char>,
    pub bound: bool,
    pub algorithm: Option<AlgorithmModel>,
}

impl View for KeyRecord {
    type V = KeyRecordModel;

    open spec fn view(&self) -> KeyRecordModel {
        KeyRecordModel { uri: self.uri@, bound: self.bound, algorithm: algorithm_model(self.algorithm) }
    }
}

/// The outcome of import for a parameter list: the URI to bind, or the
/// error reported.
pub open spec fn import_outcome(ps: Seq<ParamModel>) -> Result<Seq<char>, (PkeyErrorKind, Seq<char>)> {
    match first_uri_value(ps) {
        None => Err(
            (
                PkeyErrorKind::NotSupported,
                "wit-bridge: import requires the `wit-bridge-uri` OSSL_PARAM"@,
            ),
        ),
        Some(ValueModel::Utf8String(s)) => Ok(s),
        Some(ValueModel::OctetString(b)) => if valid_utf8(b) {
            Ok(decode_utf8(b))
        } else {
            Err((PkeyErrorKind::InvalidArgument, "wit-bridge-uri octet-string is not UTF-8"@))
        },
        Some(_) => Err(
            (PkeyErrorKind::InvalidArgument, "wit-bridge-uri must be utf8-string or octet-string"@),
        ),
    }
}

/// The value of the first "wit-bridge-uri" parameter, if any.
pub open spec fn first_uri_value(ps: Seq<ParamModel>) -> Option<ValueModel>
    decreases ps.len(),
{
    if ps.len() == 0 {
        None
    } else if ps[0].key == "wit-bridge-uri"@ {
        Some(ps[0].value)
    } else {
        first_uri_value(ps.skip(1))
    }
}

/// The parameter list export reports for the subject-public-key bytes of
/// a key: the bytes under both names OpenSSL asks by, and for EC keys the
/// curve and its encoding.
pub open spec fn export_list(encoded: Seq<u8>, alg: Option<AlgorithmModel>) -> Seq<ParamModel> {
    let base = seq![
        param("encoded-pub-key"@, ValueModel::OctetString(encoded)),
        param("pub"@, ValueModel::OctetString(encoded)),
    ];
    match alg {
        Some(AlgorithmModel::Ec(curve)) => base + seq![
            param("group"@, ValueModel::Utf8String(curve)),
            param("point-format"@, ValueModel::Utf8String("uncompressed"@)),
            param("encoding"@, ValueModel::Utf8String("named_curve"@)),
        ],
        _ => base,
    }
}

/// The model of an error result.
pub open spec fn err_model<T>(r: Result<T, PkeyError>) -> (PkeyErrorKind, Seq<char>) {
    r->Err_0.model()
}

impl KeyRecord {
    /// An empty record: no URI, no key, no algorithm.
    pub fn new() -> (r: KeyRecord)
        ensures
            r@.uri == Seq::<char>::empty(),
            !r@.bound,
            r@.algorithm is None,
    {
        KeyRecord { uri: String::new(), bound: false, algorithm: None }
    }

    /// The record of a key just bound from `uri`, with the algorithm the
    /// backend reported for it.
    pub fn loaded(uri: String, algorithm: KeyAlgorithm) -> (r: KeyRecord)
        ensures
            r@.uri == uri@,
            r@.bound,
            r@.algorithm == Some(algorithm@),
    {
        KeyRecord { uri, bound: true, algorithm: Some(algorithm) }
    }

    /// The URI named by a load reference: the reference bytes must be UTF-8.
    pub fn load_reference(reference: Vec<u8>) -> (r: Result<String, PkeyError>)
        ensures
            valid_utf8(reference@) ==> (r matches Ok(s) && s@ == decode_utf8(reference@)),
            !valid_utf8(reference@) ==> r is Err && err_model(r) == (
                PkeyErrorKind::InvalidArgument,
                "wit-bridge load: reference is not UTF-8"@,
            ),
    {
        match string_from_utf8(reference) {
            Some(s) => Ok(s),
            None => Err(
                pkey_error(PkeyErrorKind::InvalidArgument, "wit-bridge load: reference is not UTF-8"),
            ),
        }
    }

    /// Whether the key is present for a selection: a backend key must be
    /// bound and the selection must ask for the private or the public key.
    pub fn has(&self, selection: KeySelection) -> (r: bool)
        ensures
            r == (self.bound && (selection.private_key || selection.public_key)),
    {
        if !self.bound {
            return false;
        }
        selection.private_key || selection.public_key
    }

    /// Two records stand for the same key when their URIs agree.
    pub fn matches(&self, other: &KeyRecord) -> (r: bool)
        ensures
            r == (self.uri@ == other.uri@),
    {
        self.uri == other.uri
    }

    /// The URI an import binds: the first "wit-bridge-uri" parameter, as
    /// UTF-8 text or as octets that are valid UTF-8.
    pub fn import_uri(params: &[OsslParam]) -> (r: Result<String, PkeyError>)
        ensures
            match import_outcome(params_model(params@)) {
                Ok(uri) => r matches Ok(s) && s@ == uri,
                Err(e) => r is Err && err_model(r) == e,
            },
    {
        let n = params.len();
        let mut i: usize = 0;
        assert(params_model(params@).skip(0) =~= params_model(params@));
        while i < n
            invariant
                n == params@.len(),
                i <= n,
                first_uri_value(params_model(params@)) == first_uri_value(
                    params_model(params@).skip(i as int),
                ),
            decreases n - i,
        {
            let p = &params[i];
            let ghost rest = params_model(params@).skip(i as int);
            assert(rest[0] == p@);
            assert(rest.skip(1) =~= params_model(params@).skip(i + 1));
            if str_eq(p.key.as_str(), "wit-bridge-uri") {
                return match &p.value {
                    OsslParamValue::Utf8String(s) => Ok(s.clone()),
                    OsslParamValue::OctetString(b) => match string_from_utf8(b.clone()) {
                        Some(s) => Ok(s),
                        None => Err(
                            pkey_error(
                                PkeyErrorKind::InvalidArgument,
                                "wit-bridge-uri octet-string is not UTF-8",
                            ),
                        ),
                    },
                    _ => Err(
                        pkey_error(
                            PkeyErrorKind::InvalidArgument,
                            "wit-bridge-uri must be utf8-string or octet-string",
                        ),
                    ),
                };
            }
            i = i + 1;
        }
        assert(params_model(params@).skip(n as int) =~= Seq::<ParamModel>::empty());
        Err(
            pkey_error(
                PkeyErrorKind::NotSupported,
                "wit-bridge: import requires the `wit-bridge-uri` OSSL_PARAM",
            ),
        )
    }

    /// Bind the key an import resolved.
    pub fn install(&mut self, uri: String, algorithm: KeyAlgorithm)
        ensures
            final(self)@.uri == uri@,
            final(self)@.bound,
            final(self)@.algorithm == Some(algorithm@),
    {
        self.uri = uri;
        self.bound = true;
        self.algorithm = Some(algorithm);
    }

    /// The parameters OpenSSL reads for this key. `public_key_info` is the
    /// SubjectPublicKeyInfo the backend gave for the bound key, where it
    /// gave one; it is used for EC keys with a bound backend key only.
    pub fn get_params(&self, public_key_info: Option<Vec<u8>>) -> (r: Result<Vec<OsslParam>, PkeyError>)
        ensures
            r matches Ok(v) && params_model(v@) == key_params(
                self@.algorithm,
                if self.bound {
                    opt_bytes(public_key_info)
                } else {
                    None
                },
            ),
    {
        match &self.algorithm {
            Some(KeyAlgorithm::Ec(info)) => {
                let spki = if self.bound {
                    public_key_info
                } else {
                    None
                };
                Ok(ec_params(&info.curve, spki))
            },
            Some(KeyAlgorithm::Rsa(info)) => {
                let mut out: Vec<OsslParam> = Vec::new();
                push_param(&mut out, "bits", OsslParamValue::UnsignedInteger(info.modulus_bits as u64));
                push_param(
                    &mut out,
                    "max-size",
                    OsslParamValue::UnsignedInteger((info.modulus_bits / 8) as u64),
                );
                assert(params_model(out@) =~= rsa_key_params(info.modulus_bits));
                Ok(out)
            },
            None => {
                let out: Vec<OsslParam> = Vec::new();
                assert(params_model(out@) =~= Seq::<ParamModel>::empty());
                Ok(out)
            },
        }
    }

    /// Whether export may go ahead for a selection: the private key never
    /// leaves the backend, and a backend key must be bound.
    pub fn export_check(&self, selection: KeySelection) -> (r: Result<(), PkeyError>)
        ensures
            selection.private_key ==> r is Err && err_model(r) == (
                PkeyErrorKind::NotSupported,
                "wit-bridge: private key cannot be extracted"@,
            ),
            !selection.private_key && !self.bound ==> r is Err && err_model(r) == (
                PkeyErrorKind::InvalidState,
                "keydata has no backend key"@,
            ),
            !selection.private_key && self.bound ==> r is Ok,
    {
        if selection.private_key {
            return Err(
                pkey_error(PkeyErrorKind::NotSupported, "wit-bridge: private key cannot be extracted"),
            );
        }
        if !self.bound {
            return Err(pkey_error(PkeyErrorKind::InvalidState, "keydata has no backend key"));
        }
        Ok(())
    }

    /// The export parameters, given what the backend returned for the
    /// key's SubjectPublicKeyInfo: its subject-public-key bytes under
    /// "encoded-pub-key" and "pub", and for EC keys the curve and encoding.
    pub fn export_params(&self, public_key_info: Result<Vec<u8>, BackendError>) -> (r: Result<
        Vec<Vec<OsslParam>>,
        PkeyError,
    >)
        ensures
            match public_key_info {
                Err(e) => r is Err && err_model(r) == spec_backend_to_pkey(e),
                Ok(spki) => match subject_public_key(spki@) {
                    Err(f) => r is Err && err_model(r) == (
                        PkeyErrorKind::Internal,
                        spki_fault_message(f),
                    ),
                    Ok(encoded) => r matches Ok(lists) && lists@.len() == 1 && params_model(
                        lists@[0]@,
                    ) == export_list(encoded, self@.algorithm),
                },
            },
    {
        let spki = match public_key_info {
            Ok(b) => b,
            Err(e) => return Err(backend_to_pkey(e)),
        };
        let encoded = match spki_to_subject_public_key(spki.as_slice()) {
            Ok(v) => v,
            Err(e) => return Err(e),
        };
        let ghost enc = encoded@;
        let mut out: Vec<OsslParam> = Vec::new();
        push_param(&mut out, "encoded-pub-key", OsslParamValue::OctetString(encoded.clone()));
        push_param(&mut out, "pub", OsslParamValue::OctetString(encoded));
        match &self.algorithm {
            Some(KeyAlgorithm::Ec(info)) => {
                push_param(&mut out, "group", OsslParamValue::Utf8String(info.curve.clone()));
                push_param(&mut out, "point-format", utf8_value("uncompressed"));
                push_param(&mut out, "encoding", utf8_value("named_curve"));
            },
            _ => {},
        }
        assert(params_model(out@) =~= export_list(enc, self@.algorithm));
        let mut lists: Vec<Vec<OsslParam>> = Vec::new();
        lists.push(out);
        Ok(lists)
    }

    /// Key parameters are accepted and ignored.
    pub fn set_params(&self, _params: &[OsslParam]) -> (r: Result<(), PkeyError>)
        ensures
            r is Ok,
    {
        Ok(())
    }

    /// Validation is left to the backend: every key passes.
    pub fn validate(&self, _selection: KeySelection) -> (r: Result<(), PkeyError>)
        ensures
            r is Ok,
    {
        Ok(())
    }

    /// A fresh record for the same key: same URI, a newly bound backend
    /// key, and the cached algorithm.
    pub fn dup(&self) -> (r: KeyRecord)
        ensures
            r@.uri == self@.uri,
            r@.bound,
            r@.algorithm == self@.algorithm,
    {
        let algorithm = match &self.algorithm {
            Some(a) => Some(a.duplicate()),
            None => None,
        };
        KeyRecord { uri: self.uri.clone(), bound: true, algorithm }
    }
}


/// Key parameters offered for reading in general: none listed.
pub fn gettable_params() -> (r: Vec<OsslParamDescriptor>)
    ensures
        r@.len() == 0,
{
    Vec::new()
}

/// Key parameters offered for setting: none listed.
pub fn settable_params() -> (r: Vec<OsslParamDescriptor>)
    ensures
        r@.len() == 0,
{
    Vec::new()
}

/// Parameters import takes for a selection: none listed.
pub fn import_types(_selection: KeySelection) -> (r: Vec<OsslParamDescriptor>)
    ensures
        r@.len() == 0,
{
    Vec::new()
}

/// Parameters export gives for a selection: none listed.
pub fn export_types(_selection: KeySelection) -> (r: Vec<OsslParamDescriptor>)
    ensures
        r@.len() == 0,
{
    Vec::new()
}

/// Parameters import takes for a selection: none listed.
pub fn import_types_ex(_selection: KeySelection) -> (r: Vec<OsslParamDescriptor>)
    ensures
        r@.len() == 0,
{
    Vec::new()
}

/// Parameters export gives for a selection: none listed.
pub fn export_types_ex(_selection: KeySelection) -> (r: Vec<OsslParamDescriptor>)
    ensures
        r@.len() == 0,
{
    Vec::new()
}

/// Key generation parameters that can be set: none.
pub fn gen_settable_params() -> (r: Vec<OsslParamDescriptor>)
    ensures
        r@.len() == 0,
{
    Vec::new()
}

/// Key generation parameters that can be read: none.
pub fn gen_gettable_params() -> (r: Vec<OsslParamDescriptor>)
    ensures
        r@.len() == 0,
{
    Vec::new()
}

/// Key generation is not offered.
pub fn gen_init(_selection: KeySelection, _params: &[OsslParam]) -> (r: Result<GenContext, PkeyError>)
    ensures
        r is Err && err_model(r) == (PkeyErrorKind::NotSupported, "wit-bridge: keygen not supported"@),
{
    Err(pkey_error(PkeyErrorKind::NotSupported, "wit-bridge: keygen not supported"))
}

/// Key generation context; every operation on it is refused.
#[derive(Debug)]
pub struct GenContext;

impl GenContext {
    pub fn set_template(&self, _template: &KeyRecord) -> (r: Result<(), PkeyError>)
        ensures
            r is Err && err_model(r) == (PkeyErrorKind::NotSupported, "phase-3 stub"@),
    {
        Err(pkey_error(PkeyErrorKind::NotSupported, "phase-3 stub"))
    }

    pub fn set_params(&self, _params: &[OsslParam]) -> (r: Result<(), PkeyError>)
        ensures
            r is Err && err_model(r) == (PkeyErrorKind::NotSupported, "phase-3 stub"@),
    {
        Err(pkey_error(PkeyErrorKind::NotSupported, "phase-3 stub"))
    }

    pub fn get_params(&self, _keys: &[String]) -> (r: Result<Vec<OsslParam>, PkeyError>)
        ensures
            r is Err && err_model(r) == (PkeyErrorKind::NotSupported, "phase-3 stub"@),
    {
        Err(pkey_error(PkeyErrorKind::NotSupported, "phase-3 stub"))
    }

    pub fn gen(&self) -> (r: Result<KeyRecord, PkeyError>)
        ensures
            r is Err && err_model(r) == (PkeyErrorKind::NotSupported, "phase-3 stub"@),
    {
        Err(pkey_error(PkeyErrorKind::NotSupported, "phase-3 stub"))
    }
}


proof fn reveal_param_names()
    ensures
        "group"@.len() == 5,
        "point-format"@.len() == 12,
        "encoding"@.len() == 8,
        "group-nid"@.len() == 9,
        "bits"@.len() == 4,
        "security-bits"@.len() == 13,
        "max-size"@.len() == 8,
        "encoded-public-key"@.len() == 18,
        "encoded-pub-key"@.len() == 15,
        "pub"@.len() == 3,
        "encoding"@ != "max-size"@,
{
    reveal_strlit("group");
    reveal_strlit("point-format");
    reveal_strlit("encoding");
    reveal_strlit("group-nid");
    reveal_strlit("bits");
    reveal_strlit("security-bits");
    reveal_strlit("max-size");
    reveal_strlit("encoded-public-key");
    reveal_strlit("encoded-pub-key");
    reveal_strlit("pub");
    assert("encoding"@[0] != "max-size"@[0]);
}

proof fn reveal_curve_names()
    ensures
        "P-256"@ != "P-384"@,
        "P-256"@ != "P-521"@,
        "P-384"@ != "P-521"@,
        "secp256r1"@ != "secp384r1"@,
        "secp256r1"@ != "secp521r1"@,
        "secp384r1"@ != "secp521r1"@,
        "P-256"@.len() == 5,
        "P-384"@.len() == 5,
        "P-521"@.len() == 5,
        "prime256v1"@.len() == 10,
        "secp256r1"@.len() == 9,
        "secp384r1"@.len() == 9,
        "secp521r1"@.len() == 9,
{
    reveal_strlit("P-256");
    reveal_strlit("P-384");
    reveal_strlit("P-521");
    reveal_strlit("prime256v1");
    reveal_strlit("secp256r1");
    reveal_strlit("secp384r1");
    reveal_strlit("secp521r1");
    assert("P-256"@[2] != "P-384"@[2]);
    assert("P-256"@[2] != "P-521"@[2]);
    assert("P-384"@[2] != "P-521"@[2]);
    assert("secp256r1"@[4] != "secp384r1"@[4]);
    assert("secp256r1"@[4] != "secp521r1"@[4]);
    assert("secp384r1"@[4] != "secp521r1"@[4]);
}

/// The sizes reported for an EC key belong to its curve, whichever name
/// the curve is recorded under: P-256/prime256v1 (and secp256r1) report 256
/// bits, 128 security bits and 72-byte signatures; P-384/secp384r1 report
/// 384, 192 and 104; P-521/secp521r1 report 521, 260 and 139. The group
/// reported is the recorded curve name, the NID agrees with the sizes, and
/// the encoded public key is reported exactly when one was obtained.
pub proof fn lemma_ec_key_params_follow_curve(curve: Seq<char>, spki: Option<Seq<u8>>)
    ensures
        ({
            let ps = key_params(Some(AlgorithmModel::Ec(curve)), spki);
            let sizes = |bits: u64, sec: u64, max: u64|
                param_value(ps, "bits"@) == Some(ValueModel::UnsignedInteger(bits)) && param_value(
                    ps,
                    "security-bits"@,
                ) == Some(ValueModel::UnsignedInteger(sec)) && param_value(ps, "max-size"@) == Some(
                    ValueModel::UnsignedInteger(max),
                );
            &&& param_value(ps, "group"@) == Some(ValueModel::Utf8String(curve))
            &&& param_value(ps, "point-format"@) == Some(ValueModel::Utf8String("uncompressed"@))
            &&& (curve == "P-521"@ || curve == "secp521r1"@) ==> sizes(521, 260, 139)
                && param_value(ps, "group-nid"@) == Some(ValueModel::Integer(716))
            &&& (curve == "P-384"@ || curve == "secp384r1"@) ==> sizes(384, 192, 104)
                && param_value(ps, "group-nid"@) == Some(ValueModel::Integer(715))
            &&& (curve == "P-256"@ || curve == "prime256v1"@) ==> sizes(256, 128, 72)
                && param_value(ps, "group-nid"@) == Some(ValueModel::Integer(415))
            &&& curve == "secp256r1"@ ==> sizes(256, 128, 72) && param_value(ps, "group-nid"@)
                is None
            &&& param_value(ps, "group-nid"@) == Some(ValueModel::Integer(716)) ==> sizes(521, 260, 139)
            &&& param_value(ps, "group-nid"@) == Some(ValueModel::Integer(715)) ==> sizes(384, 192, 104)
            &&& param_value(ps, "group-nid"@) == Some(ValueModel::Integer(415)) ==> sizes(256, 128, 72)
            &&& param_value(ps, "encoded-public-key"@) == match spki {
                Some(b) => Some(ValueModel::OctetString(b)),
                None => None,
            }
        }),
{
    reveal_param_names();
    reveal_curve_names();
    reveal_with_fuel(param_value_from, 10);
    let ps = key_params(Some(AlgorithmModel::Ec(curve)), spki);
    assert(ps.len() >= 6);
    assert(ps.skip(1).len() >= 5);
}

/// An RSA key reports its modulus size as "bits" and a largest signature of
/// that many bits rounded down to bytes, with no curve and no public key;
/// a record without an algorithm reports nothing.
pub proof fn lemma_rsa_key_params(bits: u32, spki: Option<Seq<u8>>)
    ensures
        ({
            let ps = key_params(Some(AlgorithmModel::Rsa(bits)), spki);
            &&& param_value(ps, "bits"@) == Some(ValueModel::UnsignedInteger(bits as u64))
            &&& param_value(ps, "max-size"@) == Some(ValueModel::UnsignedInteger((bits / 8) as u64))
            &&& param_value(ps, "group"@) is None
            &&& param_value(ps, "encoded-public-key"@) is None
        }),
        key_params(None, spki).len() == 0,
{
    reveal_param_names();
    reveal_with_fuel(param_value_from, 4);
}

/// Export reports, for every key, the subject-public-key bytes it was
/// given under both "encoded-pub-key" and "pub"; for an EC key it also
/// reports the key's recorded curve as "group", and for any other key no
/// group at all.
pub proof fn lemma_export_reports_key(encoded: Seq<u8>, alg: Option<AlgorithmModel>)
    ensures
        ({
            let ps = export_list(encoded, alg);
            &&& param_value(ps, "encoded-pub-key"@) == Some(ValueModel::OctetString(encoded))
            &&& param_value(ps, "pub"@) == Some(ValueModel::OctetString(encoded))
            &&& match alg {
                Some(AlgorithmModel::Ec(curve)) => param_value(ps, "group"@) == Some(
                    ValueModel::Utf8String(curve),
                ) && param_value(ps, "encoding"@) == Some(ValueModel::Utf8String("named_curve"@)),
                _ => param_value(ps, "group"@) is None,
            }
        }),
{
    reveal_param_names();
    reveal_with_fuel(param_value_from, 7);
}

} // verus!
