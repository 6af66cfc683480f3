//! Minimal hand-written DER assembly for SubjectPublicKeyInfo: EC keys from a
//! named curve plus a raw SEC1 point, RSA keys from a raw big-endian modulus
//! and public exponent.
use vstd::prelude::*;
use crate::text::str_eq;
use crate::der::{
    pow256, byte_of, tlv, be_nat, lemma_be_nat_leading_zero, subject_public_key,
    lemma_subject_public_key_roundtrip, SpkiFault,
};

verus! {

fn shifted_byte(len: usize, k: usize) -> (b: u8)
    requires
        k <= 3,
    ensures
        b == byte_of(len as nat, k as nat),
{
    reveal_with_fuel(pow256, 4);
    assert(pow256(0) == 1 && pow256(1) == 256 && pow256(2) == 65536 && pow256(3) == 16777216);
    let r: usize = if k == 0 {
        assert((len & 0xff) == len % 256) by (bit_vector);
        len & 0xff
    } else if k == 1 {
        assert(((len >> 8) & 0xff) == (len / 256) % 256) by (bit_vector);
        (len >> 8) & 0xff
    } else if k == 2 {
        assert(((len >> 16) & 0xff) == (len / 65536) % 256) by (bit_vector);
        (len >> 16) & 0xff
    } else {
        assert(((len >> 24) & 0xff) == (len / 16777216) % 256) by (bit_vector);
        (len >> 24) & 0xff
    };
    assert(r == (len as nat / pow256(k as nat)) % 256);
    r as u8
}

/// Wrap `content` in a DER TLV with the given tag.
fn wrap(tag: u8, content: &[u8]) -> (out: Vec<u8>)
    ensures
        out@ == tlv(tag, content@),
{
    let mut out: Vec<u8> = Vec::new();
    out.push(tag);
    let len = content.len();
    if len < 0x80 {
        out.push(len as u8);
    } else if len < 0x100 {
        out.push(0x81);
        out.push(len as u8);
    } else if len < 0x10000 {
        out.push(0x82);
        out.push(shifted_byte(len, 1));
        out.push(shifted_byte(len, 0));
    } else if len < 0x1000000 {
        out.push(0x83);
        out.push(shifted_byte(len, 2));
        out.push(shifted_byte(len, 1));
        out.push(shifted_byte(len, 0));
    } else {
        out.push(0x84);
        out.push(shifted_byte(len, 3));
        out.push(shifted_byte(len, 2));
        out.push(shifted_byte(len, 1));
        out.push(shifted_byte(len, 0));
    }
    out.extend_from_slice(content);
    proof {
        assert(out@ =~= tlv(tag, content@));
    }
    out
}

/// DER tag of a SEQUENCE.
pub const TAG_SEQUENCE: u8 = 0x30;
/// DER tag of a BIT STRING.
pub const TAG_BIT_STRING: u8 = 0x03;
/// DER tag of an INTEGER.
pub const TAG_INTEGER: u8 = 0x02;

/// id-ecPublicKey -- 1.2.840.10045.2.1
const OID_ID_EC_PUBLIC_KEY: [u8; 9] = [0x06, 0x07, 0x2a, 0x86, 0x48, 0xce, 0x3d, 0x02, 0x01];

/// rsaEncryption -- 1.2.840.113549.1.1.1
const OID_RSA_ENCRYPTION: [u8; 11] = [
    0x06, 0x09, 0x2a, 0x86, 0x48, 0x86, 0xf7, 0x0d, 0x01, 0x01, 0x01,
];

const DER_NULL: [u8; 2] = [0x05, 0x00];

/// prime256v1 / P-256 / secp256r1 -- 1.2.840.10045.3.1.7
const OID_P256: [u8; 10] = [0x06, 0x08, 0x2a, 0x86, 0x48, 0xce, 0x3d, 0x03, 0x01, 0x07];

/// secp384r1 / P-384 -- 1.3.132.0.34
const OID_P384: [u8; 7] = [0x06, 0x05, 0x2b, 0x81, 0x04, 0x00, 0x22];

/// secp521r1 / P-521 -- 1.3.132.0.35
const OID_P521: [u8; 7] = [0x06, 0x05, 0x2b, 0x81, 0x04, 0x00, 0x23];

pub open spec fn oid_id_ec_public_key() -> Seq<u8> {
    seq![0x06u8, 0x07, 0x2a, 0x86, 0x48, 0xce, 0x3d, 0x02, 0x01]
}

pub open spec fn oid_rsa_encryption() -> Seq<u8> {
    seq![0x06u8, 0x09, 0x2a, 0x86, 0x48, 0x86, 0xf7, 0x0d, 0x01, 0x01, 0x01]
}

pub open spec fn der_null() -> Seq<u8> {
    seq![0x05u8, 0x00]
}

pub open spec fn oid_p256() -> Seq<u8> {
    seq![0x06u8, 0x08, 0x2a, 0x86, 0x48, 0xce, 0x3d, 0x03, 0x01, 0x07]
}

pub open spec fn oid_p384() -> Seq<u8> {
    seq![0x06u8, 0x05, 0x2b, 0x81, 0x04, 0x00, 0x22]
}

pub open spec fn oid_p521() -> Seq<u8> {
    seq![0x06u8, 0x05, 0x2b, 0x81, 0x04, 0x00, 0x23]
}

/// The DER OID (tag and length included) for each curve name this module
/// knows; `None` for every other name.
pub open spec fn curve_oid(name: Seq<char>) -> Option<Seq<u8>> {
    if name == "prime256v1"@ || name == "P-256"@ || name == "secp256r1"@ {
        Some(oid_p256())
    } else if name == "secp384r1"@ || name == "P-384"@ {
        Some(oid_p384())
    } else if name == "secp521r1"@ || name == "P-521"@ {
        Some(oid_p521())
    } else {
        None
    }
}

/// `s` without its leading zero bytes, keeping at least one byte.
pub open spec fn strip_leading_zeros(s: Seq<u8>) -> Seq<u8>
    decreases s.len(),
{
    if s.len() > 1 && s[0] == 0 {
        strip_leading_zeros(s.drop_first())
    } else {
        s
    }
}

/// Content octets of the DER INTEGER for the unsigned big-endian number
/// `s`: leading zeros dropped, one zero byte put back in front where the
/// top bit would otherwise read as a sign.
pub open spec fn integer_content(s: Seq<u8>) -> Seq<u8> {
    let t = strip_leading_zeros(s);
    if t.len() > 0 && t[0] >= 0x80 {
        seq![0u8] + t
    } else {
        t
    }
}

/// BIT STRING with no unused bits around `content`.
pub open spec fn bit_string(content: Seq<u8>) -> Seq<u8> {
    tlv(0x03, seq![0u8] + content)
}

/// The EC SubjectPublicKeyInfo for a curve OID and a SEC1 point.
pub open spec fn ec_spki(curve: Seq<u8>, point: Seq<u8>) -> Seq<u8> {
    tlv(0x30, tlv(0x30, oid_id_ec_public_key() + curve) + bit_string(point))
}

/// The RSAPublicKey SEQUENCE for a modulus and a public exponent.
pub open spec fn rsa_public_key(modulus: Seq<u8>, exponent: Seq<u8>) -> Seq<u8> {
    tlv(0x30, tlv(0x02, integer_content(modulus)) + tlv(0x02, integer_content(exponent)))
}

/// The RSA SubjectPublicKeyInfo for a modulus and a public exponent.
pub open spec fn rsa_spki(modulus: Seq<u8>, exponent: Seq<u8>) -> Seq<u8> {
    tlv(
        0x30,
        tlv(0x30, oid_rsa_encryption() + der_null()) + bit_string(
            rsa_public_key(modulus, exponent),
        ),
    )
}

fn der_seq(content: &[u8]) -> (out: Vec<u8>)
    ensures
        out@ == tlv(0x30, content@),
{
    wrap(TAG_SEQUENCE, content)
}

fn der_bit_string(content: &[u8]) -> (out: Vec<u8>)
    ensures
        out@ == bit_string(content@),
{
    let mut body: Vec<u8> = Vec::new();
    body.push(0x00);
    body.extend_from_slice(content);
    assert(body@ =~= seq![0u8] + content@);
    wrap(TAG_BIT_STRING, body.as_slice())
}

fn der_integer(big_endian: &[u8]) -> (out: Vec<u8>)
    ensures
        out@ == tlv(0x02, integer_content(big_endian@)),
{
    let n = big_endian.len();
    let mut start: usize = 0;
    assert(big_endian@.subrange(0, n as int) =~= big_endian@);
    while start + 1 < n && big_endian[start] == 0
        invariant
            n == big_endian@.len(),
            start == 0 || start < n,
            strip_leading_zeros(big_endian@) == strip_leading_zeros(
                big_endian@.subrange(start as int, n as int),
            ),
        decreases n - start,
    {
        let ghost sub = big_endian@.subrange(start as int, n as int);
        assert(sub.drop_first() =~= big_endian@.subrange(start + 1, n as int));
        start = start + 1;
    }
    let trimmed = vstd::slice::slice_subrange(big_endian, start, n);
    assert(trimmed@ == strip_leading_zeros(big_endian@));
    let mut body: Vec<u8> = Vec::new();
    if trimmed.len() > 0 && trimmed[0] & 0x80 != 0 {
        body.push(0x00);
    }
    body.extend_from_slice(trimmed);
    proof {
        if trimmed@.len() > 0 {
            let b0 = trimmed@[0];
            assert(b0 & 0x80 != 0 <==> b0 >= 0x80) by (bit_vector);
        }
        assert(body@ =~= integer_content(big_endian@));
    }
    wrap(TAG_INTEGER, body.as_slice())
}

/// DER OID for the named EC curves OpenSSL exports via the "group"
/// parameter. Returns `None` for curves not handled here; the caller
/// should then fail rather than produce garbage.
pub fn ec_curve_oid_der(name: &str) -> (r: Option<&'static [u8]>)
    ensures
        r matches Some(o) ==> curve_oid(name@) == Some(o@),
        r is None ==> curve_oid(name@) is None,
{
    if str_eq(name, "prime256v1") || str_eq(name, "P-256") || str_eq(name, "secp256r1") {
        let o: &'static [u8] = &OID_P256;
        assert(o@ == oid_p256());
        Some(o)
    } else if str_eq(name, "secp384r1") || str_eq(name, "P-384") {
        let o: &'static [u8] = &OID_P384;
        assert(o@ == oid_p384());
        Some(o)
    } else if str_eq(name, "secp521r1") || str_eq(name, "P-521") {
        let o: &'static [u8] = &OID_P521;
        assert(o@ == oid_p521());
        Some(o)
    } else {
        None
    }
}

/// The error text of `build_ec_spki` for a curve without an OID here.
pub open spec fn unsupported_curve_message() -> Seq<char> {
    "unsupported EC curve for SPKI"@
}

/// Build an EC SubjectPublicKeyInfo from a curve name and a raw SEC1
/// uncompressed point (`0x04 || X || Y`).
pub fn build_ec_spki(curve: &str, sec1_point: &[u8]) -> (r: Result<Vec<u8>, &'static str>)
    ensures
        match curve_oid(curve@) {
            Some(oid) => r matches Ok(v) && v@ == ec_spki(oid, sec1_point@),
            None => r matches Err(e) && e@ == unsupported_curve_message(),
        },
{
    let oid = match ec_curve_oid_der(curve) {
        Some(o) => o,
        None => return Err("unsupported EC curve for SPKI"),
    };
    let ec_oid: &[u8] = &OID_ID_EC_PUBLIC_KEY;
    assert(ec_oid@ == oid_id_ec_public_key());
    let mut alg_id: Vec<u8> = Vec::new();
    alg_id.extend_from_slice(ec_oid);
    alg_id.extend_from_slice(oid);
    assert(alg_id@ =~= oid_id_ec_public_key() + oid@);
    let alg = der_seq(alg_id.as_slice());
    let bits = der_bit_string(sec1_point);
    let mut spki: Vec<u8> = Vec::new();
    spki.extend_from_slice(alg.as_slice());
    spki.extend_from_slice(bits.as_slice());
    assert(spki@ =~= alg@ + bits@);
    Ok(der_seq(spki.as_slice()))
}

/// Build an RSA SubjectPublicKeyInfo from a raw big-endian modulus and
/// public exponent. Both inputs are unsigned magnitudes without an INTEGER
/// header; the INTEGER encoding makes them canonical.
pub fn build_rsa_spki(modulus: &[u8], public_exponent: &[u8]) -> (out: Vec<u8>)
    ensures
        out@ == rsa_spki(modulus@, public_exponent@),
{
    let m = der_integer(modulus);
    let e = der_integer(public_exponent);
    let mut rsa_pub: Vec<u8> = Vec::new();
    rsa_pub.extend_from_slice(m.as_slice());
    rsa_pub.extend_from_slice(e.as_slice());
    assert(rsa_pub@ =~= m@ + e@);
    let rsa_pub_seq = der_seq(rsa_pub.as_slice());

    let rsa_oid: &[u8] = &OID_RSA_ENCRYPTION;
    let null: &[u8] = &DER_NULL;
    assert(rsa_oid@ == oid_rsa_encryption());
    assert(null@ == der_null());
    let mut alg_id: Vec<u8> = Vec::new();
    alg_id.extend_from_slice(rsa_oid);
    alg_id.extend_from_slice(null);
    assert(alg_id@ =~= oid_rsa_encryption() + der_null());
    let alg = der_seq(alg_id.as_slice());

    let bits = der_bit_string(rsa_pub_seq.as_slice());

    let mut spki: Vec<u8> = Vec::new();
    spki.extend_from_slice(alg.as_slice());
    spki.extend_from_slice(bits.as_slice());
    assert(spki@ =~= alg@ + bits@);
    der_seq(spki.as_slice())
}

/// The INTEGER content built for a non-empty unsigned number is its
/// canonical DER form: it has the same value, it reads as non-negative,
/// and no leading byte could be dropped.
pub proof fn lemma_integer_content_canonical(s: Seq<u8>)
    requires
        s.len() > 0,
    ensures
        be_nat(integer_content(s)) == be_nat(s),
        integer_content(s).len() > 0,
        integer_content(s)[0] < 0x80,
        !(integer_content(s).len() > 1 && integer_content(s)[0] == 0 && integer_content(s)[1]
            < 0x80),
{
    lemma_strip_leading_zeros(s);
    let t = strip_leading_zeros(s);
    if t[0] >= 0x80 {
        lemma_be_nat_leading_zero(t);
        assert((seq![0u8] + t)[1] == t[0]);
    }
}

proof fn lemma_strip_leading_zeros(s: Seq<u8>)
    requires
        s.len() > 0,
    ensures
        be_nat(strip_leading_zeros(s)) == be_nat(s),
        strip_leading_zeros(s).len() > 0,
        strip_leading_zeros(s).len() > 1 ==> strip_leading_zeros(s)[0] != 0,
    decreases s.len(),
{
    if s.len() > 1 && s[0] == 0 {
        lemma_strip_leading_zeros(s.drop_first());
        assert(s =~= seq![0u8] + s.drop_first());
        lemma_be_nat_leading_zero(s.drop_first());
    }
}


/// Taking apart an EC SubjectPublicKeyInfo built here gives back the SEC1
/// point it was built from, for every supported curve and every point
/// shorter than 0xffff_0000 bytes.
pub proof fn lemma_ec_spki_roundtrip(curve: Seq<char>, point: Seq<u8>)
    requires
        curve_oid(curve) is Some,
        point.len() <= 0xffff_0000,
    ensures
        subject_public_key(ec_spki(curve_oid(curve).unwrap(), point)) == Ok::<Seq<u8>, SpkiFault>(
            point,
        ),
{
    let oid = curve_oid(curve).unwrap();
    lemma_subject_public_key_roundtrip(oid_id_ec_public_key() + oid, point);
}

/// Taking apart an RSA SubjectPublicKeyInfo built here gives back the
/// RSAPublicKey SEQUENCE of the modulus and exponent, for all inputs
/// shorter than 0xffff_0000 bytes together.
pub proof fn lemma_rsa_spki_roundtrip(modulus: Seq<u8>, exponent: Seq<u8>)
    requires
        modulus.len() + exponent.len() <= 0xffff_0000,
    ensures
        subject_public_key(rsa_spki(modulus, exponent)) == Ok::<Seq<u8>, SpkiFault>(
            rsa_public_key(modulus, exponent),
        ),
{
    lemma_integer_content_len(modulus);
    lemma_integer_content_len(exponent);
    let m = tlv(0x02, integer_content(modulus));
    let e = tlv(0x02, integer_content(exponent));
    lemma_tlv_len(0x02, integer_content(modulus));
    lemma_tlv_len(0x02, integer_content(exponent));
    lemma_tlv_len(0x30, m + e);
    lemma_subject_public_key_roundtrip(oid_rsa_encryption() + der_null(), rsa_public_key(modulus, exponent));
}

proof fn lemma_tlv_len(tag: u8, content: Seq<u8>)
    ensures
        tlv(tag, content).len() <= content.len() + 6,
{
}

proof fn lemma_integer_content_len(s: Seq<u8>)
    ensures
        integer_content(s).len() <= s.len() + 1,
{
    lemma_strip_len(s);
}

proof fn lemma_strip_len(s: Seq<u8>)
    ensures
        strip_leading_zeros(s).len() <= s.len(),
    decreases s.len(),
{
    if s.len() > 1 && s[0] == 0 {
        lemma_strip_len(s.drop_first());
    }
}

} // verus!
