//! Signature operations: choosing the backend mechanism from the bound key
//! and OpenSSL's parameters, and the state a signing session keeps between
//! calls. The backend's sign call itself is made by the caller with the
//! URI and mechanism `sign_request` hands out.
use vstd::prelude::*;
use crate::text::str_eq;
use crate::digest::{DigestAlgorithm, digest_for_name, digest_name_to_backend};
use crate::errors::{PkeyError, PkeyErrorKind, BackendError, pkey_error, backend_to_pkey, spec_backend_to_pkey};
use crate::params::{OsslParam, OsslParamDescriptor, OsslParamValue, ParamModel, params_model};
use crate::keymgmt::{KeyRecord, KeyAlgorithm, AlgorithmModel, err_model};

verus! {

/// RSA-PSS parameters handed to the backend.
#[derive(Clone, Copy, Debug, PartialEq, Eq, Structural)]
pub struct RsaPssParams {
    pub digest: DigestAlgorithm,
    pub mgf1_digest: DigestAlgorithm,
    pub salt_len: u32,
}

/// The mechanism the backend signs with.
#[derive(Clone, Copy, Debug, PartialEq, Eq, Structural)]
pub enum SignatureMechanism {
    Ecdsa(DigestAlgorithm),
    RsaPss(RsaPssParams),
}

/// The text of the last UTF-8 "digest" parameter, if any.
pub open spec fn last_digest_name(ps: Seq<ParamModel>) -> Option<Seq<char>>
    decreases ps.len(),
{
    if ps.len() == 0 {
        None
    } else if ps.last().key == "digest"@ && ps.last().value is Utf8String {
        Some(ps.last().value->Utf8String_0)
    } else {
        last_digest_name(ps.drop_last())
    }
}

/// The salt length of the last non-negative integer "saltlen" parameter,
/// kept to its low 32 bits; 0 (the digest length) where there is none.
pub open spec fn salt_len_param(ps: Seq<ParamModel>) -> u32
    decreases ps.len(),
{
    if ps.len() == 0 {
        0
    } else if ps.last().key == "saltlen"@ && ps.last().value is Integer
        && ps.last().value->Integer_0 >= 0 {
        ps.last().value->Integer_0 as u32
    } else {
        salt_len_param(ps.drop_last())
    }
}

/// The digest an optional name stands for; SHA-256 without a name.
pub open spec fn digest_or_default(name: Option<Seq<char>>) -> DigestAlgorithm {
    match name {
        Some(n) => digest_for_name(n),
        None => DigestAlgorithm::Sha256,
    }
}

/// RSA-PSS with the same digest for the message and for MGF1.
pub open spec fn pss(digest: DigestAlgorithm, salt_len: u32) -> SignatureMechanism {
    SignatureMechanism::RsaPss(RsaPssParams { digest, mgf1_digest: digest, salt_len })
}

/// The mechanism `sign_init` picks: RSA keys sign with RSA-PSS under the
/// last "digest" and "saltlen" parameters, every other key with ECDSA over
/// pre-hashed input.
pub open spec fn sign_mechanism(alg: Option<AlgorithmModel>, ps: Seq<ParamModel>) -> SignatureMechanism {
    match alg {
        Some(AlgorithmModel::Rsa(_)) => pss(digest_or_default(last_digest_name(ps)), salt_len_param(ps)),
        _ => SignatureMechanism::Ecdsa(DigestAlgorithm::Raw),
    }
}

/// The mechanism `digest_sign_init` picks for the requested digest: RSA
/// keys sign with RSA-PSS under that digest and the last "saltlen"
/// parameter, every other key with ECDSA under that digest.
pub open spec fn digest_sign_mechanism(
    alg: Option<AlgorithmModel>,
    md: Option<Seq<char>>,
    ps: Seq<ParamModel>,
) -> SignatureMechanism {
    let digest = digest_or_default(md);
    match alg {
        Some(AlgorithmModel::Rsa(_)) => pss(digest, salt_len_param(ps)),
        _ => SignatureMechanism::Ecdsa(digest),
    }
}

fn scan_sign_params(params: &[OsslParam]) -> (r: (DigestAlgorithm, u32))
    ensures
        r.0 == digest_or_default(last_digest_name(params_model(params@))),
        r.1 == salt_len_param(params_model(params@)),
{
    let n = params.len();
    let mut digest = DigestAlgorithm::Sha256;
    let mut salt_len: u32 = 0;
    let mut i: usize = 0;
    assert(params_model(params@).take(0) =~= Seq::<ParamModel>::empty());
    while i < n
        invariant
            n == params@.len(),
            i <= n,
            digest == digest_or_default(last_digest_name(params_model(params@).take(i as int))),
            salt_len == salt_len_param(params_model(params@).take(i as int)),
        decreases n - i,
    {
        let p = &params[i];
        let ghost pre = params_model(params@).take(i + 1);
        assert(pre.drop_last() =~= params_model(params@).take(i as int));
        assert(pre.last() == p@);
        proof {
            reveal_strlit("digest");
            reveal_strlit("saltlen");
            assert("digest"@.len() == 6);
            assert("saltlen"@.len() == 7);
        }
        if str_eq(p.key.as_str(), "digest") {
            if let OsslParamValue::Utf8String(s) = &p.value {
                digest = digest_name_to_backend(s.as_str());
            }
        } else if str_eq(p.key.as_str(), "saltlen") {
            if let OsslParamValue::Integer(v) = &p.value {
                if *v >= 0 {
                    salt_len = #[verifier::truncate] (*v as u32);
                }
            }
        }
        i = i + 1;
    }
    assert(params_model(params@).take(n as int) =~= params_model(params@));
    (digest, salt_len)
}

/// The state of one signing session.
pub struct SigningSession {
    uri: Option<String>,
    mech: Option<SignatureMechanism>,
    update_buf: Vec<u8>,
}

/// The mathematical content of a signing session.
pub struct SessionModel {
    pub uri: Option<Seq<char>>,
    pub mech: Option<SignatureMechanism>,
    pub buffer: Seq<u8>,
}

pub open spec fn opt_string(o: Option<String>) -> Option<Seq<char>> {
    match o {
        Some(s) => Some(s@),
        None => None,
    }
}

impl View for SigningSession {
    type V = SessionModel;

    closed spec fn view(&self) -> SessionModel {
        SessionModel { uri: opt_string(self.uri), mech: self.mech, buffer: self.update_buf@ }
    }
}

/// The model of an optional string slice.
pub open spec fn opt_str(o: Option<&str>) -> Option<Seq<char>> {
    match o {
        Some(s) => Some(s@),
        None => None,
    }
}

/// The session after `data` is fed to it.
pub open spec fn after_update(m: SessionModel, data: Seq<u8>) -> SessionModel {
    SessionModel { buffer: m.buffer + data, ..m }
}

/// The session after each chunk is fed to it in turn.
pub open spec fn after_updates(m: SessionModel, chunks: Seq<Seq<u8>>) -> SessionModel
    decreases chunks.len(),
{
    if chunks.len() == 0 {
        m
    } else {
        after_update(after_updates(m, chunks.drop_last()), chunks.last())
    }
}

/// The backend call a streamed signature ends in: the key URI, the
/// mechanism and the buffered input; none before an init.
pub open spec fn final_request(m: SessionModel) -> Option<(Seq<char>, SignatureMechanism, Seq<u8>)> {
    if m.uri is Some && m.mech is Some {
        Some((m.uri->Some_0, m.mech->Some_0, m.buffer))
    } else {
        None
    }
}

/// Streamed signing signs exactly what was fed since the init: starting
/// from the empty buffer an init leaves, the buffer after any number of
/// updates is their concatenation, the key and mechanism stay as the init
/// set them, and the final step asks the backend to sign that
/// concatenation with that key and mechanism.
pub proof fn lemma_streamed_input(m: SessionModel, chunks: Seq<Seq<u8>>)
    requires
        m.buffer == Seq::<u8>::empty(),
    ensures
        after_updates(m, chunks).buffer == chunks.flatten(),
        after_updates(m, chunks).uri == m.uri,
        after_updates(m, chunks).mech == m.mech,
        (m.uri is Some && m.mech is Some) ==> final_request(after_updates(m, chunks)) == Some(
            (m.uri->Some_0, m.mech->Some_0, chunks.flatten()),
        ),
    decreases chunks.len(),
{
    if chunks.len() > 0 {
        lemma_streamed_input(m, chunks.drop_last());
        chunks.lemma_flatten_and_flatten_alt_are_equivalent();
        chunks.drop_last().lemma_flatten_and_flatten_alt_are_equivalent();
    } else {
        assert(chunks.flatten() =~= Seq::<u8>::empty());
    }
}

impl SigningSession {
    /// A session with no key, no mechanism and nothing buffered.
    pub fn new() -> (r: SigningSession)
        ensures
            r@.uri is None,
            r@.mech is None,
            r@.buffer == Seq::<u8>::empty(),
    {
        SigningSession { uri: None, mech: None, update_buf: Vec::new() }
    }

    /// A copy of this session.
    pub fn dup(&self) -> (r: SigningSession)
        ensures
            r@ == self@,
    {
        let uri = match &self.uri {
            Some(s) => Some(s.clone()),
            None => None,
        };
        let r = SigningSession { uri, mech: self.mech, update_buf: self.update_buf.clone() };
        assert(r.update_buf@ =~= self.update_buf@);
        r
    }

    /// Bind the session to a key for one-shot signing. A record without a
    /// URI is refused and leaves the session as it was.
    pub fn sign_init(&mut self, key: &KeyRecord, params: &[OsslParam]) -> (r: Result<(), PkeyError>)
        ensures
            key@.uri.len() == 0 ==> r is Err && err_model(r) == (
                PkeyErrorKind::InvalidState,
                "wit-bridge sign_init: keydata is empty"@,
            ) && final(self)@ == old(self)@,
            key@.uri.len() != 0 ==> r is Ok && final(self)@ == (SessionModel {
                uri: Some(key@.uri),
                mech: Some(sign_mechanism(key@.algorithm, params_model(params@))),
                buffer: old(self)@.buffer,
            }),
    {
        if key.uri.as_str().is_empty() {
            return Err(
                pkey_error(PkeyErrorKind::InvalidState, "wit-bridge sign_init: keydata is empty"),
            );
        }
        let mech = match &key.algorithm {
            Some(KeyAlgorithm::Rsa(_)) => {
                let (digest, salt_len) = scan_sign_params(params);
                SignatureMechanism::RsaPss(RsaPssParams { digest, mgf1_digest: digest, salt_len })
            },
            _ => SignatureMechanism::Ecdsa(DigestAlgorithm::Raw),
        };
        self.uri = Some(key.uri.clone());
        self.mech = Some(mech);
        Ok(())
    }

    /// Bind the session to a key for streamed signing with digest `md`
    /// (SHA-256 when none is given), and empty the buffer. A record
    /// without a URI is refused and leaves the session as it was.
    pub fn digest_sign_init(&mut self, md: Option<&str>, key: &KeyRecord, params: &[OsslParam]) -> (r:
        Result<(), PkeyError>)
        ensures
            key@.uri.len() == 0 ==> r is Err && err_model(r) == (
                PkeyErrorKind::InvalidState,
                "wit-bridge digest_sign_init: keydata is empty"@,
            ) && final(self)@ == old(self)@,
            key@.uri.len() != 0 ==> r is Ok && final(self)@ == (SessionModel {
                uri: Some(key@.uri),
                mech: Some(digest_sign_mechanism(key@.algorithm, opt_str(md), params_model(params@))),
                buffer: Seq::empty(),
            }),
    {
        if key.uri.as_str().is_empty() {
            return Err(
                pkey_error(
                    PkeyErrorKind::InvalidState,
                    "wit-bridge digest_sign_init: keydata is empty",
                ),
            );
        }
        let digest = match md {
            Some(name) => digest_name_to_backend(name),
            None => DigestAlgorithm::Sha256,
        };
        let mech = match &key.algorithm {
            Some(KeyAlgorithm::Rsa(_)) => {
                let (_d, salt_len) = scan_sign_params(params);
                SignatureMechanism::RsaPss(RsaPssParams { digest, mgf1_digest: digest, salt_len })
            },
            _ => SignatureMechanism::Ecdsa(digest),
        };
        self.uri = Some(key.uri.clone());
        self.mech = Some(mech);
        self.update_buf.clear();
        Ok(())
    }

    /// Append data to the streamed input.
    pub fn digest_sign_update(&mut self, data: &[u8]) -> (r: Result<(), PkeyError>)
        ensures
            r is Ok,
            final(self)@ == after_update(old(self)@, data@),
    {
        self.update_buf.extend_from_slice(data);
        assert(self.update_buf@ =~= old(self)@.buffer + data@);
        Ok(())
    }

    /// Take the streamed input out of the session, leaving the buffer empty.
    pub fn take_input(&mut self) -> (r: Vec<u8>)
        ensures
            r@ == old(self)@.buffer,
            final(self)@ == (SessionModel { buffer: Seq::empty(), ..old(self)@ }),
    {
        let mut taken: Vec<u8> = Vec::new();
        std::mem::swap(&mut taken, &mut self.update_buf);
        taken
    }

    /// Verification is left to OpenSSL's own public-key code.
    pub fn verify_init(&self, _key: &KeyRecord, _params: &[OsslParam]) -> (r: Result<(), PkeyError>)
        ensures
            r is Err && err_model(r) == (
                PkeyErrorKind::NotSupported,
                "wit-bridge: verify uses openssl's own public-key path"@,
            ),
    {
        Err(
            pkey_error(
                PkeyErrorKind::NotSupported,
                "wit-bridge: verify uses openssl's own public-key path",
            ),
        )
    }

    pub fn verify(&self, _sig: &[u8], _tbs: &[u8]) -> (r: Result<(), PkeyError>)
        ensures
            r is Err && err_model(r) == (PkeyErrorKind::NotSupported, "wit-bridge: see verify_init"@),
    {
        Err(pkey_error(PkeyErrorKind::NotSupported, "wit-bridge: see verify_init"))
    }

    pub fn verify_recover_init(&self, _key: &KeyRecord, _params: &[OsslParam]) -> (r: Result<
        (),
        PkeyError,
    >)
        ensures
            r is Err && err_model(r) == (
                PkeyErrorKind::NotSupported,
                "wit-bridge: verify_recover is RSA-only"@,
            ),
    {
        Err(pkey_error(PkeyErrorKind::NotSupported, "wit-bridge: verify_recover is RSA-only"))
    }

    pub fn verify_recover(&self, _sig: &[u8]) -> (r: Result<Vec<u8>, PkeyError>)
        ensures
            r is Err && err_model(r) == (
                PkeyErrorKind::NotSupported,
                "wit-bridge: verify_recover is RSA-only"@,
            ),
    {
        Err(pkey_error(PkeyErrorKind::NotSupported, "wit-bridge: verify_recover is RSA-only"))
    }

    pub fn digest_verify_init(
        &self,
        _md: Option<&str>,
        _key: &KeyRecord,
        _params: &[OsslParam],
    ) -> (r: Result<(), PkeyError>)
        ensures
            r is Err && err_model(r) == (PkeyErrorKind::NotSupported, "wit-bridge: see verify_init"@),
    {
        Err(pkey_error(PkeyErrorKind::NotSupported, "wit-bridge: see verify_init"))
    }

    pub fn digest_verify_update(&self, _data: &[u8]) -> (r: Result<(), PkeyError>)
        ensures
            r is Err && err_model(r) == (PkeyErrorKind::NotSupported, "wit-bridge: see verify_init"@),
    {
        Err(pkey_error(PkeyErrorKind::NotSupported, "wit-bridge: see verify_init"))
    }

    pub fn digest_verify_final(&self, _sig: &[u8]) -> (r: Result<(), PkeyError>)
        ensures
            r is Err && err_model(r) == (PkeyErrorKind::NotSupported, "wit-bridge: see verify_init"@),
    {
        Err(pkey_error(PkeyErrorKind::NotSupported, "wit-bridge: see verify_init"))
    }

    pub fn digest_verify(&self, _sig: &[u8], _tbs: &[u8]) -> (r: Result<(), PkeyError>)
        ensures
            r is Err && err_model(r) == (PkeyErrorKind::NotSupported, "wit-bridge: see verify_init"@),
    {
        Err(pkey_error(PkeyErrorKind::NotSupported, "wit-bridge: see verify_init"))
    }

    /// Context parameters read back: none.
    pub fn get_ctx_params(&self, _keys: &[String]) -> (r: Result<Vec<OsslParam>, PkeyError>)
        ensures
            r matches Ok(v) && v@.len() == 0,
    {
        Ok(Vec::new())
    }

    /// Context parameters are accepted and ignored.
    pub fn set_ctx_params(&self, _params: &[OsslParam]) -> (r: Result<(), PkeyError>)
        ensures
            r is Ok,
    {
        Ok(())
    }

    /// Digest context parameters read back: none.
    pub fn get_ctx_md_params(&self, _keys: &[String]) -> (r: Result<Vec<OsslParam>, PkeyError>)
        ensures
            r matches Ok(v) && v@.len() == 0,
    {
        Ok(Vec::new())
    }

    /// Digest context parameters are accepted and ignored.
    pub fn set_ctx_md_params(&self, _params: &[OsslParam]) -> (r: Result<(), PkeyError>)
        ensures
            r is Ok,
    {
        Ok(())
    }

    /// Digest context parameters that can be read: none.
    pub fn gettable_ctx_md_params(&self) -> (r: Vec<OsslParamDescriptor>)
        ensures
            r@.len() == 0,
    {
        Vec::new()
    }

    /// Digest context parameters that can be set: none.
    pub fn settable_ctx_md_params(&self) -> (r: Vec<OsslParamDescriptor>)
        ensures
            r@.len() == 0,
    {
        Vec::new()
    }

    /// End a streamed signature: the buffered input leaves the session in
    /// every case, and the key URI, mechanism and that input are handed out
    /// for the backend's sign call; refused before an init.
    pub fn digest_sign_final_request(&mut self) -> (r: Result<
        (String, SignatureMechanism, Vec<u8>),
        PkeyError,
    >)
        ensures
            final(self)@ == (SessionModel { buffer: Seq::empty(), ..old(self)@ }),
            match final_request(old(self)@) {
                Some((uri, mech, tbs)) => r matches Ok((u, m, t)) && u@ == uri && m == mech && t@
                    == tbs,
                None => r is Err && err_model(r) == (
                    PkeyErrorKind::InvalidState,
                    "sign called before sign_init"@,
                ),
            },
    {
        let tbs = self.take_input();
        match self.sign_request() {
            Ok((uri, mech)) => Ok((uri, mech, tbs)),
            Err(e) => Err(e),
        }
    }

    /// The key URI and mechanism to sign with; refused before an init.
    pub fn sign_request(&self) -> (r: Result<(String, SignatureMechanism), PkeyError>)
        ensures
            (self@.uri is Some && self@.mech is Some) ==> (r matches Ok((uri, mech)) && uri@
                == self@.uri->Some_0 && mech == self@.mech->Some_0),
            !(self@.uri is Some && self@.mech is Some) ==> r is Err && err_model(r) == (
                PkeyErrorKind::InvalidState,
                "sign called before sign_init"@,
            ),
    {
        let uri = match &self.uri {
            Some(u) => u.clone(),
            None => return Err(
                pkey_error(PkeyErrorKind::InvalidState, "sign called before sign_init"),
            ),
        };
        let mech = match self.mech {
            Some(m) => m,
            None => return Err(
                pkey_error(PkeyErrorKind::InvalidState, "sign called before sign_init"),
            ),
        };
        Ok((uri, mech))
    }
}

/// State of an asymmetric-cipher operation; the provider does not
/// encrypt or decrypt yet, so every operation is refused.
#[derive(Debug)]
pub struct AsymCipherContext;

impl AsymCipherContext {
    pub fn new() -> (r: AsymCipherContext) {
        AsymCipherContext
    }

    /// Cipher context parameters that can be read: none.
    pub fn gettable_ctx_params() -> (r: Vec<OsslParamDescriptor>)
        ensures
            r@.len() == 0,
    {
        Vec::new()
    }

    /// Cipher context parameters that can be set: none.
    pub fn settable_ctx_params() -> (r: Vec<OsslParamDescriptor>)
        ensures
            r@.len() == 0,
    {
        Vec::new()
    }

    pub fn dup(&self) -> (r: Result<AsymCipherContext, PkeyError>)
        ensures
            r is Err && err_model(r) == (PkeyErrorKind::NotSupported, "phase-3 stub"@),
    {
        Err(pkey_error(PkeyErrorKind::NotSupported, "phase-3 stub"))
    }

    pub fn encrypt_init(&self, _key: &KeyRecord, _params: &[OsslParam]) -> (r: Result<(), PkeyError>)
        ensures
            r is Err && err_model(r) == (PkeyErrorKind::NotSupported, "phase-3 stub"@),
    {
        Err(pkey_error(PkeyErrorKind::NotSupported, "phase-3 stub"))
    }

    pub fn encrypt(&self, _plaintext: &[u8]) -> (r: Result<Vec<u8>, PkeyError>)
        ensures
            r is Err && err_model(r) == (PkeyErrorKind::NotSupported, "phase-3 stub"@),
    {
        Err(pkey_error(PkeyErrorKind::NotSupported, "phase-3 stub"))
    }

    pub fn decrypt_init(&self, _key: &KeyRecord, _params: &[OsslParam]) -> (r: Result<(), PkeyError>)
        ensures
            r is Err && err_model(r) == (PkeyErrorKind::NotSupported, "phase-3 stub"@),
    {
        Err(pkey_error(PkeyErrorKind::NotSupported, "phase-3 stub"))
    }

    pub fn decrypt(&self, _ciphertext: &[u8]) -> (r: Result<Vec<u8>, PkeyError>)
        ensures
            r is Err && err_model(r) == (PkeyErrorKind::NotSupported, "phase-3 stub"@),
    {
        Err(pkey_error(PkeyErrorKind::NotSupported, "phase-3 stub"))
    }

    pub fn get_ctx_params(&self, _keys: &[String]) -> (r: Result<Vec<OsslParam>, PkeyError>)
        ensures
            r matches Ok(v) && v@.len() == 0,
    {
        Ok(Vec::new())
    }

    pub fn set_ctx_params(&self, _params: &[OsslParam]) -> (r: Result<(), PkeyError>)
        ensures
            r is Ok,
    {
        Ok(())
    }
}

/// The signature result reported to OpenSSL for what the backend's sign
/// call returned: the signature itself, or the backend error translated.
pub fn finish_sign(result: Result<Vec<u8>, BackendError>) -> (r: Result<Vec<u8>, PkeyError>)
    ensures
        match result {
            Ok(sig) => r matches Ok(s) && s@ == sig@,
            Err(e) => r is Err && err_model(r) == spec_backend_to_pkey(e),
        },
{
    match result {
        Ok(sig) => Ok(sig),
        Err(e) => Err(backend_to_pkey(e)),
    }
}


/// Whether a parameter sets the RSA-PSS salt length: a non-negative
/// integer named "saltlen".
pub open spec fn sets_salt_len(p: ParamModel) -> bool {
    p.key == "saltlen"@ && p.value is Integer && p.value->Integer_0 >= 0
}

/// The salt length RSA-PSS signing uses: 0 (the digest's length) when no
/// parameter sets one, otherwise the value of the last parameter that
/// does, kept to its low 32 bits; the same for one-shot and streamed
/// signing, whatever digest is chosen.
pub proof fn lemma_salt_len(bits: u32, ps: Seq<ParamModel>, md: Option<Seq<char>>)
    ensures
        (forall|i: int| 0 <= i < ps.len() ==> !sets_salt_len(#[trigger] ps[i])) ==> {
            &&& salt_len_param(ps) == 0
            &&& sign_mechanism(Some(AlgorithmModel::Rsa(bits)), ps) matches SignatureMechanism::RsaPss(
                p,
            ) && p.salt_len == 0
            &&& digest_sign_mechanism(Some(AlgorithmModel::Rsa(bits)), md, ps) matches SignatureMechanism::RsaPss(
                p,
            ) && p.salt_len == 0
        },
        forall|i: int|
            0 <= i < ps.len() && sets_salt_len(#[trigger] ps[i]) && (forall|j: int|
                i < j < ps.len() ==> !sets_salt_len(#[trigger] ps[j])) ==> salt_len_param(ps)
                == ps[i].value->Integer_0 as u32,
    decreases ps.len(),
{
    if ps.len() > 0 {
        let q = ps.drop_last();
        lemma_salt_len(bits, q, md);
        assert forall|i: int|
            0 <= i < ps.len() && sets_salt_len(#[trigger] ps[i]) && (forall|j: int|
                i < j < ps.len() ==> !sets_salt_len(#[trigger] ps[j])) implies salt_len_param(ps)
            == ps[i].value->Integer_0 as u32 by {
            if i < ps.len() - 1 {
                assert(!sets_salt_len(ps[ps.len() - 1]));
                assert(q[i] == ps[i]);
                assert forall|j: int| i < j < q.len() implies !sets_salt_len(#[trigger] q[j]) by {
                    assert(q[j] == ps[j]);
                }
            }
        }
        if forall|i: int| 0 <= i < ps.len() ==> !sets_salt_len(#[trigger] ps[i]) {
            assert forall|i: int| 0 <= i < q.len() implies !sets_salt_len(#[trigger] q[i]) by {
                assert(q[i] == ps[i]);
            }
            assert(!sets_salt_len(ps[ps.len() - 1]));
        }
    }
}


/// Whether a parameter names a digest: UTF-8 text under "digest".
pub open spec fn names_digest(p: ParamModel) -> bool {
    p.key == "digest"@ && p.value is Utf8String
}

/// The digests RSA-PSS signs with: one-shot signing uses the digest the
/// last "digest" parameter names, SHA-256 when none does; streamed signing
/// uses the digest requested at init, SHA-256 when none is, and the
/// parameters do not change it. MGF1 always uses the same digest as the
/// message.
pub proof fn lemma_pss_digests(bits: u32, ps: Seq<ParamModel>, qs: Seq<ParamModel>, md: Option<Seq<char>>)
    ensures
        sign_mechanism(Some(AlgorithmModel::Rsa(bits)), ps) matches SignatureMechanism::RsaPss(p)
            && p.mgf1_digest == p.digest,
        (forall|i: int| 0 <= i < ps.len() ==> !names_digest(#[trigger] ps[i])) ==> sign_mechanism(
            Some(AlgorithmModel::Rsa(bits)),
            ps,
        )->RsaPss_0.digest == DigestAlgorithm::Sha256,
        forall|i: int|
            0 <= i < ps.len() && names_digest(#[trigger] ps[i]) && (forall|j: int|
                i < j < ps.len() ==> !names_digest(#[trigger] ps[j])) ==> sign_mechanism(
                Some(AlgorithmModel::Rsa(bits)),
                ps,
            )->RsaPss_0.digest == digest_for_name(ps[i].value->Utf8String_0),
        digest_sign_mechanism(Some(AlgorithmModel::Rsa(bits)), md, ps) matches SignatureMechanism::RsaPss(
            p,
        ) && p.mgf1_digest == p.digest,
        digest_sign_mechanism(Some(AlgorithmModel::Rsa(bits)), md, ps)->RsaPss_0.digest
            == digest_sign_mechanism(Some(AlgorithmModel::Rsa(bits)), md, qs)->RsaPss_0.digest,
        md is None ==> digest_sign_mechanism(Some(AlgorithmModel::Rsa(bits)), md, ps)->RsaPss_0.digest
            == DigestAlgorithm::Sha256,
{
    lemma_last_digest_name(ps);
}

proof fn lemma_last_digest_name(ps: Seq<ParamModel>)
    ensures
        (forall|i: int| 0 <= i < ps.len() ==> !names_digest(#[trigger] ps[i])) ==> last_digest_name(
            ps,
        ) is None,
        forall|i: int|
            0 <= i < ps.len() && names_digest(#[trigger] ps[i]) && (forall|j: int|
                i < j < ps.len() ==> !names_digest(#[trigger] ps[j])) ==> last_digest_name(ps)
                == Some(ps[i].value->Utf8String_0),
    decreases ps.len(),
{
    if ps.len() > 0 {
        let q = ps.drop_last();
        lemma_last_digest_name(q);
        assert forall|i: int|
            0 <= i < ps.len() && names_digest(#[trigger] ps[i]) && (forall|j: int|
                i < j < ps.len() ==> !names_digest(#[trigger] ps[j])) implies last_digest_name(ps)
            == Some(ps[i].value->Utf8String_0) by {
            if i < ps.len() - 1 {
                assert(!names_digest(ps[ps.len() - 1]));
                assert(q[i] == ps[i]);
                assert forall|j: int| i < j < q.len() implies !names_digest(#[trigger] q[j]) by {
                    assert(q[j] == ps[j]);
                }
            }
        }
        if forall|i: int| 0 <= i < ps.len() ==> !names_digest(#[trigger] ps[i]) {
            assert forall|i: int| 0 <= i < q.len() implies !names_digest(#[trigger] q[i]) by {
                assert(q[i] == ps[i]);
            }
            assert(!names_digest(ps[ps.len() - 1]));
        }
    }
}

} // verus!
