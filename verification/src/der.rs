//! The DER model shared by the SPKI builder and the header reader:
//! length octets, tag-length-value triples, and big-endian numbers.
use vstd::prelude::*;
use vstd::slice::slice_subrange;
use crate::errors::{PkeyError, PkeyErrorKind, pkey_error};

verus! {

pub open spec fn pow256(k: nat) -> nat
    decreases k,
{
    if k == 0 { 1 } else { 256 * pow256((k - 1) as nat) }
}

/// The `k`-th least significant byte of `n`.
pub open spec fn byte_of(n: nat, k: nat) -> u8 {
    ((n / pow256(k)) % 256) as u8
}

/// DER length octets for a content length `n`: short form below 0x80,
/// otherwise long form with one to four big-endian length bytes (the
/// four-byte form keeps the low four bytes of `n`).
pub open spec fn der_length_octets(n: nat) -> Seq<u8> {
    if n < 0x80 {
        seq![n as u8]
    } else if n < 0x100 {
        seq![0x81u8, n as u8]
    } else if n < 0x10000 {
        seq![0x82u8, byte_of(n, 1), byte_of(n, 0)]
    } else if n < 0x1000000 {
        seq![0x83u8, byte_of(n, 2), byte_of(n, 1), byte_of(n, 0)]
    } else {
        seq![0x84u8, byte_of(n, 3), byte_of(n, 2), byte_of(n, 1), byte_of(n, 0)]
    }
}

/// A DER tag-length-value triple.
pub open spec fn tlv(tag: u8, content: Seq<u8>) -> Seq<u8> {
    seq![tag] + der_length_octets(content.len()) + content
}

/// The unsigned number whose big-endian bytes are `s`.
pub open spec fn be_nat(s: Seq<u8>) -> nat
    decreases s.len(),
{
    if s.len() == 0 {
        0
    } else {
        be_nat(s.drop_last()) * 256 + s.last() as nat
    }
}

/// Leading zero bytes do not change a big-endian number.
pub proof fn lemma_be_nat_leading_zero(t: Seq<u8>)
    ensures
        be_nat(seq![0u8] + t) == be_nat(t),
    decreases t.len(),
{
    let z = seq![0u8] + t;
    if t.len() > 0 {
        assert(z.drop_last() =~= seq![0u8] + t.drop_last());
        assert(z.last() == t.last());
        lemma_be_nat_leading_zero(t.drop_last());
    } else {
        assert(z.drop_last() =~= Seq::<u8>::empty());
        assert(be_nat(z.drop_last()) == 0);
    }
}


/// A big-endian number is at least the number of any of its prefixes.
pub proof fn lemma_be_nat_prefix(s: Seq<u8>, j: int)
    requires
        0 <= j <= s.len(),
    ensures
        be_nat(s.take(j)) <= be_nat(s),
    decreases s.len() - j,
{
    if j < s.len() {
        let t = s.take(j + 1);
        assert(t.drop_last() =~= s.take(j));
        lemma_be_nat_prefix(s, j + 1);
    } else {
        assert(s.take(j) =~= s);
    }
}

/// The content length and header length of the DER header at the start of
/// `buf`, without looking at the tag.
pub open spec fn der_header(buf: Seq<u8>) -> Option<(nat, nat)> {
    if buf.len() < 2 {
        None
    } else if buf[1] < 0x80 {
        Some((buf[1] as nat, 2))
    } else {
        let nb = (buf[1] - 0x80) as nat;
        if nb == 0 || buf.len() < 2 + nb {
            None
        } else {
            Some((be_nat(buf.subrange(2, 2 + nb as int)), 2 + nb))
        }
    }
}

/// Content length and header length of a TLV with tag `tag` at the start
/// of `buf` whose content lies entirely inside `buf`.
pub open spec fn tlv_header(buf: Seq<u8>, tag: u8) -> Option<(nat, nat)> {
    if buf.len() >= 2 && buf[0] == tag {
        match der_header(buf) {
            Some((len, hdr)) => if hdr + len <= buf.len() {
                Some((len, hdr))
            } else {
                None
            },
            None => None,
        }
    } else {
        None
    }
}

/// Read a DER tag and length header. Returns the content length and the
/// bytes from the end of the header to the end of `buf`.
fn read_tag_length(buf: &[u8], expected_tag: u8) -> (r: Option<(usize, &[u8])>)
    ensures
        match tlv_header(buf@, expected_tag) {
            Some((len, hdr)) => r matches Some((l, rest)) && l == len && rest@ == buf@.subrange(
                hdr as int,
                buf@.len() as int,
            ),
            None => r is None,
        },
{
    if buf.len() < 2 || buf[0] != expected_tag {
        return None;
    }
    let first = buf[1];
    let len: usize;
    let hdr: usize;
    if first & 0x80 == 0 {
        assert(first & 0x80 == 0 <==> first < 0x80) by (bit_vector);
        len = first as usize;
        hdr = 2;
    } else {
        assert(first & 0x80 != 0 ==> first >= 0x80 && (first & 0x7f) == first - 0x80) by (bit_vector);
        let nb = (first & 0x7f) as usize;
        if nb == 0 || buf.len() < 2 + nb {
            return None;
        }
        let mut v: usize = 0;
        let mut i: usize = 0;
        assert(buf@.subrange(2, 2) =~= Seq::<u8>::empty());
        while i < nb
            invariant
                nb + 2 <= buf.len(),
                buf.len() == buf@.len(),
                i <= nb,
                v as nat == be_nat(buf@.subrange(2, 2 + i)),
                buf@[1] >= 0x80,
                nb == buf@[1] - 0x80,
                nb != 0,
            decreases nb - i,
        {
            let b = buf[2 + i];
            let ghost t = buf@.subrange(2, 2 + i + 1);
            assert(t.drop_last() =~= buf@.subrange(2, 2 + i));
            assert(t.last() == b);
            let ghost all = buf@.subrange(2, 2 + nb as int);
            assert(all.take(i + 1) =~= t);
            let next = match v.checked_mul(256) {
                Some(w) => w.checked_add(b as usize),
                None => None,
            };
            v = match next {
                Some(x) => x,
                None => {
                    proof {
                        assert(be_nat(t) == be_nat(t.drop_last()) * 256 + t.last());
                        assert(be_nat(t) > usize::MAX);
                        lemma_be_nat_prefix(all, i + 1);
                        assert(be_nat(all) > buf@.len());
                        assert(der_header(buf@) == Some((be_nat(all), (2 + nb) as nat)));
                    }
                    return None;
                },
            };
            i = i + 1;
        }
        len = v;
        hdr = 2 + nb;
    }
    if len > buf.len() - hdr {
        return None;
    }
    Some((len, slice_subrange(buf, hdr, buf.len())))
}


/// Split a DER TLV with tag `expected_tag` off the front of `buf`,
/// returning the whole TLV and its content.
fn strip_tag_length(buf: &[u8], expected_tag: u8) -> (r: Option<(&[u8], &[u8])>)
    ensures
        match tlv_header(buf@, expected_tag) {
            Some((len, hdr)) => r matches Some((whole, body)) && whole@ == buf@.subrange(
                0,
                (hdr + len) as int,
            ) && body@ == buf@.subrange(hdr as int, (hdr + len) as int),
            None => r is None,
        },
{
    let (len, rest) = match read_tag_length(buf, expected_tag) {
        Some(p) => p,
        None => return None,
    };
    let hdr = buf.len() - rest.len();
    let whole = slice_subrange(buf, 0, hdr + len);
    let body = slice_subrange(rest, 0, len);
    assert(body@ =~= buf@.subrange(hdr as int, hdr + len));
    Some((whole, body))
}

/// Why a byte string is not a SubjectPublicKeyInfo this module can take apart.
pub enum SpkiFault {
    NotSequence,
    MissingAlgorithm,
    MissingBitString,
    EmptyBitString,
}

/// The message reported for each fault.
pub open spec fn spki_fault_message(f: SpkiFault) -> Seq<char> {
    match f {
        SpkiFault::NotSequence => "SPKI: not a SEQUENCE"@,
        SpkiFault::MissingAlgorithm => "SPKI: missing AlgorithmIdentifier"@,
        SpkiFault::MissingBitString => "SPKI: missing BIT STRING"@,
        SpkiFault::EmptyBitString => "SPKI: empty BIT STRING"@,
    }
}

/// The subject-public-key bytes of a SubjectPublicKeyInfo: inside the
/// outer SEQUENCE, skip the AlgorithmIdentifier SEQUENCE, then take what
/// follows the BIT STRING header and its unused-bits byte, up to the end
/// of the outer SEQUENCE.
pub open spec fn subject_public_key(spki: Seq<u8>) -> Result<Seq<u8>, SpkiFault> {
    match tlv_header(spki, 0x30) {
        None => Err(SpkiFault::NotSequence),
        Some((len, hdr)) => {
            let body = spki.subrange(hdr as int, (hdr + len) as int);
            match tlv_header(body, 0x30) {
                None => Err(SpkiFault::MissingAlgorithm),
                Some((alg_len, alg_hdr)) => {
                    let after = body.subrange((alg_hdr + alg_len) as int, body.len() as int);
                    match tlv_header(after, 0x03) {
                        None => Err(SpkiFault::MissingBitString),
                        Some((_, bs_hdr)) => {
                            let bits = after.subrange(bs_hdr as int, after.len() as int);
                            if bits.len() == 0 {
                                Err(SpkiFault::EmptyBitString)
                            } else {
                                Ok(bits.drop_first())
                            }
                        },
                    }
                },
            }
        },
    }
}

/// Strip a SubjectPublicKeyInfo down to the BIT STRING contents: the raw
/// subject-public-key bytes (the SEC1 point for EC, the RSAPublicKey DER
/// for RSA). The unused-bits byte is dropped unread.
pub fn spki_to_subject_public_key(spki: &[u8]) -> (r: Result<Vec<u8>, PkeyError>)
    ensures
        match subject_public_key(spki@) {
            Ok(key) => r matches Ok(v) && v@ == key,
            Err(f) => r matches Err(e) && e.model() == (PkeyErrorKind::Internal, spki_fault_message(f)),
        },
{
    let body = match strip_tag_length(spki, 0x30) {
        Some((_whole, body)) => body,
        None => return Err(pkey_error(PkeyErrorKind::Internal, "SPKI: not a SEQUENCE")),
    };
    let (alg_len, after_alg_hdr) = match read_tag_length(body, 0x30) {
        Some(p) => p,
        None => return Err(pkey_error(PkeyErrorKind::Internal, "SPKI: missing AlgorithmIdentifier")),
    };
    let after_alg = slice_subrange(after_alg_hdr, alg_len, after_alg_hdr.len());
    assert(after_alg@ =~= body@.subrange(body@.len() - after_alg_hdr@.len() + alg_len, body@.len() as int));
    let (_bs_len, bit_string_body) = match read_tag_length(after_alg, 0x03) {
        Some(p) => p,
        None => return Err(pkey_error(PkeyErrorKind::Internal, "SPKI: missing BIT STRING")),
    };
    if bit_string_body.len() == 0 {
        return Err(pkey_error(PkeyErrorKind::Internal, "SPKI: empty BIT STRING"));
    }
    let key = slice_subrange(bit_string_body, 1, bit_string_body.len());
    assert(key@ =~= bit_string_body@.drop_first());
    Ok(vstd::slice::slice_to_vec(key))
}


proof fn lemma_length_octets_value(n: nat)
    requires
        0x80 <= n <= 0xffff_ffff,
    ensures
        der_length_octets(n).len() >= 2,
        der_length_octets(n)[0] >= 0x81,
        ({
            let nb = (der_length_octets(n)[0] - 0x80) as nat;
            &&& 1 <= nb <= 4
            &&& der_length_octets(n).len() == 1 + nb
            &&& be_nat(der_length_octets(n).drop_first()) == n
        }),
{
    reveal_with_fuel(pow256, 4);
    let x = n as u64;
    let o = der_length_octets(n);
    let d = o.drop_first();
    let b0 = byte_of(n, 0);
    let b1 = byte_of(n, 1);
    let b2 = byte_of(n, 2);
    let b3 = byte_of(n, 3);
    assert(x == n);
    assert(pow256(0) == 1 && pow256(1) == 256 && pow256(2) == 65536 && pow256(3) == 16777216);
    assert(n / 1 == n);
    assert(b0 == x % 256);
    assert(b1 == x / 256 % 256);
    assert(b2 == x / 65536 % 256);
    assert(b3 == x / 16777216 % 256);
    if n < 0x100 {
        assert(d =~= seq![n as u8]);
        assert(d.drop_last() =~= Seq::<u8>::empty());
        assert(be_nat(d) == be_nat(d.drop_last()) * 256 + n);
    } else if n < 0x10000 {
        assert(d =~= seq![b1, b0]);
        lemma_be_nat_bytes(d);
        assert((x / 256 % 256) * 256 + x % 256 == x) by (bit_vector)
            requires
                x < 0x10000,
        ;
    } else if n < 0x1000000 {
        assert(d =~= seq![b2, b1, b0]);
        lemma_be_nat_bytes(d);
        assert(((x / 65536 % 256) * 256 + x / 256 % 256) * 256 + x % 256 == x) by (bit_vector)
            requires
                x < 0x1000000,
        ;
    } else {
        assert(d =~= seq![b3, b2, b1, b0]);
        lemma_be_nat_bytes(d);
        assert((((x / 16777216 % 256) * 256 + x / 65536 % 256) * 256 + x / 256 % 256) * 256 + x
            % 256 == x) by (bit_vector)
            requires
                x < 0x1_0000_0000,
        ;
    }
}

proof fn lemma_be_nat_bytes(d: Seq<u8>)
    requires
        1 <= d.len() <= 4,
    ensures
        d.len() == 1 ==> be_nat(d) == d[0],
        d.len() == 2 ==> be_nat(d) == d[0] * 256 + d[1],
        d.len() == 3 ==> be_nat(d) == (d[0] * 256 + d[1]) * 256 + d[2],
        d.len() == 4 ==> be_nat(d) == ((d[0] * 256 + d[1]) * 256 + d[2]) * 256 + d[3],
    decreases d.len(),
{
    let p = d.drop_last();
    if d.len() == 1 {
        assert(p =~= Seq::<u8>::empty());
    } else {
        lemma_be_nat_bytes(p);
    }
}

/// Reading the header of a TLV that was written with `tlv` gives back the
/// content length it was written with, the header ends where the content
/// starts, and the TLV and its content are what was written; whatever
/// follows the TLV does not matter. This holds
/// for every content shorter than 2^32 bytes, the range the four-byte
/// length form covers.
pub proof fn lemma_tlv_header_roundtrip(tag: u8, content: Seq<u8>, rest: Seq<u8>)
    requires
        content.len() <= 0xffff_ffff,
    ensures
        tlv_header(tlv(tag, content) + rest, tag) == Some(
            (content.len(), 1 + der_length_octets(content.len()).len()),
        ),
        ({
            let hdr = 1 + der_length_octets(content.len()).len();
            &&& (tlv(tag, content) + rest).subrange(hdr as int, (hdr + content.len()) as int) == content
            &&& (tlv(tag, content) + rest).subrange(0, (hdr + content.len()) as int) == tlv(tag, content)
        }),
{
    let n = content.len();
    let h = 1 + der_length_octets(n).len();
    assert((tlv(tag, content) + rest).subrange(h as int, (h + n) as int) =~= content);
    assert((tlv(tag, content) + rest).subrange(0, (h + n) as int) =~= tlv(tag, content));
    let o = der_length_octets(n);
    let buf = tlv(tag, content) + rest;
    assert(buf[0] == tag);
    assert(buf[1] == o[0]);
    if n < 0x80 {
        assert(o =~= seq![n as u8]);
    } else {
        lemma_length_octets_value(n);
        let nb = (o[0] - 0x80) as nat;
        assert(buf.subrange(2, 2 + nb as int) =~= o.drop_first());
    }
}

/// A SubjectPublicKeyInfo laid out as SEQUENCE { SEQUENCE { alg },
/// BIT STRING { 0, key } } gives back `key` when taken apart, for all
/// contents short enough for the four-byte length form.
pub proof fn lemma_subject_public_key_roundtrip(alg: Seq<u8>, key: Seq<u8>)
    requires
        alg.len() + key.len() <= 0xffff_ff00,
    ensures
        subject_public_key(tlv(0x30, tlv(0x30, alg) + tlv(0x03, seq![0u8] + key))) == Ok::<
            Seq<u8>,
            SpkiFault,
        >(key),
{
    let a = tlv(0x30, alg);
    let bits = seq![0u8] + key;
    let b = tlv(0x03, bits);
    let s = tlv(0x30, a + b);
    assert(s + Seq::<u8>::empty() =~= s);
    assert(b + Seq::<u8>::empty() =~= b);
    lemma_tlv_header_roundtrip(0x30, a + b, Seq::<u8>::empty());
    let h = 1 + der_length_octets((a + b).len()).len();
    assert(s.subrange(h as int, (h + (a + b).len()) as int) =~= a + b);
    lemma_tlv_header_roundtrip(0x30, alg, b);
    let ha = 1 + der_length_octets(alg.len()).len();
    assert((a + b).subrange((ha + alg.len()) as int, (a + b).len() as int) =~= b);
    lemma_tlv_header_roundtrip(0x03, bits, Seq::<u8>::empty());
    let hb = 1 + der_length_octets(bits.len()).len();
    assert(b.subrange(hb as int, b.len() as int) =~= bits);
    assert(bits.drop_first() =~= key);
}

} // verus!
