//! What the provider advertises to OpenSSL: the algorithms per operation,
//! the signature algorithm a key type is used with, and the signature
//! context parameters it accepts and reports.
use vstd::prelude::*;
use vstd::string::StringExecFns;
use crate::params::{OsslParam, OsslParamDescriptor, OsslParamKind, descriptors_model};
use crate::errors::{PkeyError, PkeyErrorKind, pkey_error};
use crate::keymgmt::{err_model, AlgorithmModel};
use crate::params::ParamModel;
use crate::signature::{SignatureMechanism, sign_mechanism, digest_sign_mechanism};

verus! {

/// The operation classes OpenSSL asks a provider about.
#[derive(Clone, Copy, Debug, PartialEq, Eq, Structural)]
pub enum Operation {
    Digest,
    Cipher,
    Mac,
    Kdf,
    Rand,
    Keymgmt,
    Keyexch,
    Signature,
    AsymCipher,
    Kem,
    Encoder,
    Decoder,
    Store,
}

/// One algorithm entry of a dispatch table.
#[derive(Clone, Debug, PartialEq, Eq)]
pub struct OsslAlgorithm {
    pub algorithm_names: String,
    pub property_definition: String,
    pub description: Option<String>,
}

/// Names, property definition and description of an algorithm entry.
pub struct AlgorithmEntry {
    pub names: Seq<char>,
    pub properties: Seq<char>,
    pub description: Option<Seq<char>>,
}

impl View for OsslAlgorithm {
    type V = AlgorithmEntry;

    open spec fn view(&self) -> AlgorithmEntry {
        AlgorithmEntry {
            names: self.algorithm_names@,
            properties: self.property_definition@,
            description: match self.description {
                Some(d) => Some(d@),
                None => None,
            },
        }
    }
}

/// An entry of this provider, offered under "provider=wit-bridge".
pub open spec fn entry(names: Seq<char>, description: Seq<char>) -> AlgorithmEntry {
    AlgorithmEntry { names, properties: "provider=wit-bridge"@, description: Some(description) }
}

/// The algorithms offered for an operation, and whether OpenSSL must not
/// cache the answer: EC and RSA key management, ECDSA and RSA-PSS
/// signatures, nothing else.
pub open spec fn offered(op: Operation) -> (Seq<AlgorithmEntry>, bool) {
    match op {
        Operation::Keymgmt => (
            seq![
                entry("EC"@, "EC keymgmt via wit-bridge"@),
                entry("RSA"@, "RSA keymgmt via wit-bridge"@),
            ],
            false,
        ),
        Operation::Signature => (
            seq![
                entry("ECDSA"@, "ECDSA via wit-bridge"@),
                entry("RSA-PSS"@, "RSA-PSS via wit-bridge"@),
            ],
            false,
        ),
        _ => (Seq::empty(), true),
    }
}

fn make_entry(names: &str, description: &str) -> (a: OsslAlgorithm)
    ensures
        a@ == entry(names@, description@),
{
    OsslAlgorithm {
        algorithm_names: String::from_str(names),
        property_definition: String::from_str("provider=wit-bridge"),
        description: Some(String::from_str(description)),
    }
}

/// The dispatch table answer for an operation.
pub fn query_operation(op: Operation) -> (r: (Vec<OsslAlgorithm>, bool))
    ensures
        r.0@.map_values(|a: OsslAlgorithm| a@) == offered(op).0,
        r.1 == offered(op).1,
{
    match op {
        Operation::Keymgmt => {
            let mut v: Vec<OsslAlgorithm> = Vec::new();
            v.push(make_entry("EC", "EC keymgmt via wit-bridge"));
            v.push(make_entry("RSA", "RSA keymgmt via wit-bridge"));
            assert(v@.map_values(|a: OsslAlgorithm| a@) =~= offered(op).0);
            (v, false)
        },
        Operation::Signature => {
            let mut v: Vec<OsslAlgorithm> = Vec::new();
            v.push(make_entry("ECDSA", "ECDSA via wit-bridge"));
            v.push(make_entry("RSA-PSS", "RSA-PSS via wit-bridge"));
            assert(v@.map_values(|a: OsslAlgorithm| a@) =~= offered(op).0);
            (v, false)
        },
        _ => {
            let v: Vec<OsslAlgorithm> = Vec::new();
            assert(v@.map_values(|a: OsslAlgorithm| a@) =~= offered(op).0);
            (v, true)
        },
    }
}

/// The algorithm OpenSSL fetches for an operation on this provider's
/// keys: "ECDSA" for signatures, "ECDH" for key exchange.
pub open spec fn operation_name(op: Operation) -> Option<Seq<char>> {
    match op {
        Operation::Signature => Some("ECDSA"@),
        Operation::Keyexch => Some("ECDH"@),
        _ => None,
    }
}

/// The algorithm name OpenSSL should fetch for an operation on a key.
pub fn query_operation_name(op: Operation) -> (r: Option<String>)
    ensures
        match operation_name(op) {
            Some(n) => r matches Some(s) && s@ == n,
            None => r is None,
        },
{
    match op {
        Operation::Signature => Some(String::from_str("ECDSA")),
        Operation::Keyexch => Some(String::from_str("ECDH")),
        _ => None,
    }
}

/// The key types the signature implementation takes.
pub fn query_key_types() -> (r: Vec<String>)
    ensures
        r@.len() == 1,
        r@[0]@ == "EC"@,
{
    let mut v: Vec<String> = Vec::new();
    v.push(String::from_str("EC"));
    v
}

/// The signature context parameters that can be read back.
pub open spec fn gettable_signature_params() -> Seq<(Seq<char>, OsslParamKind)> {
    seq![
        ("digest"@, OsslParamKind::Utf8String),
        ("pad-mode"@, OsslParamKind::Utf8String),
        ("algorithm-id"@, OsslParamKind::OctetString),
    ]
}

/// The signature context parameters that can be set: those TLS and X.509
/// set while initialising a signature, for ECDSA and RSA-PSS alike.
pub open spec fn settable_signature_params() -> Seq<(Seq<char>, OsslParamKind)> {
    seq![
        ("digest"@, OsslParamKind::Utf8String),
        ("properties"@, OsslParamKind::Utf8String),
        ("pad-mode"@, OsslParamKind::Utf8String),
        ("mgf1-digest"@, OsslParamKind::Utf8String),
        ("mgf1-properties"@, OsslParamKind::Utf8String),
        ("saltlen"@, OsslParamKind::Integer),
    ]
}

fn push_descriptor(out: &mut Vec<OsslParamDescriptor>, key: &str, kind: OsslParamKind)
    ensures
        descriptors_model(final(out)@) == descriptors_model(old(out)@).push((key@, kind)),
{
    out.push(OsslParamDescriptor { key: String::from_str(key), kind });
    assert(descriptors_model(out@) =~= descriptors_model(old(out)@).push((key@, kind)));
}

/// Descriptors of the readable signature context parameters.
pub fn gettable_ctx_params() -> (r: Vec<OsslParamDescriptor>)
    ensures
        descriptors_model(r@) == gettable_signature_params(),
{
    let mut v: Vec<OsslParamDescriptor> = Vec::new();
    assert(descriptors_model(v@) =~= Seq::<(Seq<char>, OsslParamKind)>::empty());
    push_descriptor(&mut v, "digest", OsslParamKind::Utf8String);
    push_descriptor(&mut v, "pad-mode", OsslParamKind::Utf8String);
    push_descriptor(&mut v, "algorithm-id", OsslParamKind::OctetString);
    assert(descriptors_model(v@) =~= gettable_signature_params());
    v
}

/// Descriptors of the settable signature context parameters.
pub fn settable_ctx_params() -> (r: Vec<OsslParamDescriptor>)
    ensures
        descriptors_model(r@) == settable_signature_params(),
{
    let mut v: Vec<OsslParamDescriptor> = Vec::new();
    assert(descriptors_model(v@) =~= Seq::<(Seq<char>, OsslParamKind)>::empty());
    push_descriptor(&mut v, "digest", OsslParamKind::Utf8String);
    push_descriptor(&mut v, "properties", OsslParamKind::Utf8String);
    push_descriptor(&mut v, "pad-mode", OsslParamKind::Utf8String);
    push_descriptor(&mut v, "mgf1-digest", OsslParamKind::Utf8String);
    push_descriptor(&mut v, "mgf1-properties", OsslParamKind::Utf8String);
    push_descriptor(&mut v, "saltlen", OsslParamKind::Integer);
    assert(descriptors_model(v@) =~= settable_signature_params());
    v
}

/// Which random generator a request for random bytes addresses.
#[derive(Clone, Copy, Debug, PartialEq, Eq, Structural)]
pub enum RandomSource {
    Public,
    Private,
}

/// A reason code and its text.
#[derive(Clone, Debug, PartialEq, Eq)]
pub struct OsslReasonString {
    pub id: u32,
    pub text: String,
}

/// Provider-level parameters offered: none.
pub fn gettable_params() -> (r: Vec<OsslParamDescriptor>)
    ensures
        r@.len() == 0,
{
    Vec::new()
}

/// Provider-level parameters read back: none.
pub fn get_params(_keys: &[String]) -> (r: Result<Vec<OsslParam>, PkeyError>)
    ensures
        r matches Ok(v) && v@.len() == 0,
{
    Ok(Vec::new())
}

/// Handing back a dispatch table needs no work.
pub fn unquery_operation(_op: Operation, _algorithms: Vec<OsslAlgorithm>) {
}

/// Reason strings: none.
pub fn get_reason_strings() -> (r: Vec<OsslReasonString>)
    ensures
        r@.len() == 0,
{
    Vec::new()
}

/// Capabilities: none, for every capability name.
pub fn get_capabilities(_capability: &str) -> (r: Result<Vec<Vec<OsslParam>>, PkeyError>)
    ensures
        r matches Ok(v) && v@.len() == 0,
{
    Ok(Vec::new())
}

/// The self test passes.
pub fn self_test() -> (r: Result<(), PkeyError>)
    ensures
        r is Ok,
{
    Ok(())
}

/// The provider has no random generator; every request is refused.
pub fn random_bytes(_which: RandomSource, _n: u64, _strength: u32) -> (r: Result<Vec<u8>, PkeyError>)
    ensures
        r is Err && err_model(r) == (PkeyErrorKind::NotSupported, "wit-bridge: no RNG"@),
{
    Err(pkey_error(PkeyErrorKind::NotSupported, "wit-bridge: no RNG"))
}


/// The signature table offers exactly two algorithms, ECDSA and RSA-PSS,
/// and each is the one signing carries out for a key type the key
/// management table offers: EC keys always sign with ECDSA and RSA keys
/// always with RSA-PSS, whatever digest and parameters are given.
pub proof fn lemma_signature_table_matches_mechanisms()
    ensures
        offered(Operation::Signature).0.len() == 2,
        offered(Operation::Signature).0[0].names == "ECDSA"@,
        offered(Operation::Signature).0[1].names == "RSA-PSS"@,
        offered(Operation::Keymgmt).0.len() == 2,
        offered(Operation::Keymgmt).0[0].names == "EC"@,
        offered(Operation::Keymgmt).0[1].names == "RSA"@,
        forall|curve: Seq<char>, ps: Seq<ParamModel>|
            #[trigger] sign_mechanism(Some(AlgorithmModel::Ec(curve)), ps) is Ecdsa,
        forall|curve: Seq<char>, ps: Seq<ParamModel>, md: Option<Seq<char>>|
            #[trigger] digest_sign_mechanism(Some(AlgorithmModel::Ec(curve)), md, ps) is Ecdsa,
        forall|bits: u32, ps: Seq<ParamModel>|
            #[trigger] sign_mechanism(Some(AlgorithmModel::Rsa(bits)), ps) is RsaPss,
        forall|bits: u32, ps: Seq<ParamModel>, md: Option<Seq<char>>|
            #[trigger] digest_sign_mechanism(Some(AlgorithmModel::Rsa(bits)), md, ps) is RsaPss,
{
}

} // verus!
