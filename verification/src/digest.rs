//! Digest names as OpenSSL spells them, mapped to the backend's digests.
use vstd::prelude::*;
use vstd::string::StrSliceExecFns;
use crate::text::chars_eq;

verus! {

/// The digests the key backend knows.
#[derive(Clone, Copy, Debug, PartialEq, Eq, Structural)]
pub enum DigestAlgorithm {
    Sha1,
    Sha224,
    Sha256,
    Sha384,
    Sha512,
    Sha3S256,
    Sha3S384,
    Sha3S512,
    Raw,
}

/// ASCII upper case of one character; other characters stay as they are.
pub open spec fn ascii_upper(c: char) -> char {
    if 'a' <= c <= 'z' {
        ((c as u32) - 32) as char
    } else {
        c
    }
}

fn upper_char(c: char) -> (u: char)
    ensures
        u == ascii_upper(c),
{
    if 'a' <= c && c <= 'z' {
        let b = (c as u8) - 32;
        b as char
    } else {
        c
    }
}


/// `s` in ASCII upper case with every '-' removed.
pub open spec fn upper_without_dashes(s: Seq<char>) -> Seq<char>
    decreases s.len(),
{
    if s.len() == 0 {
        Seq::empty()
    } else {
        let r = upper_without_dashes(s.drop_last());
        let c = ascii_upper(s.last());
        if c == '-' {
            r
        } else {
            r.push(c)
        }
    }
}

pub open spec fn sha2_chars() -> Seq<char> {
    seq!['S', 'H', 'A', '2']
}

pub open spec fn sha_chars() -> Seq<char> {
    seq!['S', 'H', 'A']
}

/// `s` with every "SHA2" replaced by "SHA", scanning left to right over
/// non-overlapping occurrences.
pub open spec fn replace_sha2(s: Seq<char>) -> Seq<char>
    decreases s.len(),
{
    if s.len() == 0 {
        s
    } else if s.len() >= 4 && s.take(4) == sha2_chars() {
        sha_chars() + replace_sha2(s.skip(4))
    } else {
        seq![s[0]] + replace_sha2(s.skip(1))
    }
}

/// The spelling a digest name is matched by: upper case, no dashes, and
/// "SHA2" shortened to "SHA" (so "sha2-256" and "SHA256" agree).
pub open spec fn normalized_digest_name(s: Seq<char>) -> Seq<char> {
    replace_sha2(upper_without_dashes(s))
}

/// The digest for a normalized name; SHA-256 for every name not listed.
pub open spec fn digest_for_normalized(n: Seq<char>) -> DigestAlgorithm {
    if n == "SHA1"@ {
        DigestAlgorithm::Sha1
    } else if n == "SHA224"@ {
        DigestAlgorithm::Sha224
    } else if n == "SHA256"@ {
        DigestAlgorithm::Sha256
    } else if n == "SHA384"@ {
        DigestAlgorithm::Sha384
    } else if n == "SHA512"@ {
        DigestAlgorithm::Sha512
    } else if n == "SHA3S256"@ {
        DigestAlgorithm::Sha3S256
    } else if n == "SHA3S384"@ {
        DigestAlgorithm::Sha3S384
    } else if n == "SHA3S512"@ {
        DigestAlgorithm::Sha3S512
    } else {
        DigestAlgorithm::Sha256
    }
}

/// The backend digest an OpenSSL digest name stands for.
pub open spec fn digest_for_name(s: Seq<char>) -> DigestAlgorithm {
    digest_for_normalized(normalized_digest_name(s))
}

fn upper_without_dashes_exec(s: &str) -> (v: Vec<char>)
    ensures
        v@ == upper_without_dashes(s@),
{
    let n = s.unicode_len();
    let mut v: Vec<char> = Vec::new();
    let mut i: usize = 0;
    assert(s@.take(0) =~= Seq::<char>::empty());
    while i < n
        invariant
            n == s@.len(),
            i <= n,
            v@ == upper_without_dashes(s@.take(i as int)),
        decreases n - i,
    {
        let c = upper_char(s.get_char(i));
        assert(s@.take(i + 1).drop_last() =~= s@.take(i as int));
        if c != '-' {
            v.push(c);
        }
        i = i + 1;
    }
    assert(s@.take(n as int) =~= s@);
    v
}

fn replace_sha2_exec(v: &Vec<char>) -> (out: Vec<char>)
    ensures
        out@ == replace_sha2(v@),
{
    let n = v.len();
    let mut out: Vec<char> = Vec::new();
    let mut i: usize = 0;
    assert(v@.skip(0) =~= v@);
    while i < n
        invariant
            n == v@.len(),
            i <= n,
            out@ + replace_sha2(v@.skip(i as int)) == replace_sha2(v@),
        decreases n - i,
    {
        let ghost rest = v@.skip(i as int);
        if n - i >= 4 && v[i] == 'S' && v[i + 1] == 'H' && v[i + 2] == 'A' && v[i + 3] == '2' {
            assert(rest.take(4) =~= sha2_chars());
            assert(rest.skip(4) =~= v@.skip(i + 4));
            out.push('S');
            out.push('H');
            out.push('A');
            assert(out@ + replace_sha2(v@.skip(i + 4)) =~= replace_sha2(v@));
            i = i + 4;
        } else {
            proof {
                if rest.len() >= 4 {
                    assert(rest.take(4)[0] == v@[i as int]);
                    assert(rest.take(4)[1] == v@[i + 1]);
                    assert(rest.take(4)[2] == v@[i + 2]);
                    assert(rest.take(4)[3] == v@[i + 3]);
                    assert(rest.take(4) != sha2_chars());
                }
            }
            assert(rest.skip(1) =~= v@.skip(i + 1));
            out.push(v[i]);
            assert(out@ + replace_sha2(v@.skip(i + 1)) =~= replace_sha2(v@));
            i = i + 1;
        }
    }
    assert(replace_sha2(v@.skip(n as int)) =~= Seq::<char>::empty());
    assert(out@ + Seq::<char>::empty() =~= out@);
    out
}

/// Map an OpenSSL digest name to the backend digest: case and dashes do
/// not matter, "SHA2-256" reads as "SHA256", and unknown names fall back
/// to SHA-256.
pub fn digest_name_to_backend(s: &str) -> (d: DigestAlgorithm)
    ensures
        d == digest_for_name(s@),
{
    let up = upper_without_dashes_exec(s);
    let norm = replace_sha2_exec(&up);
    if chars_eq(&norm, "SHA1") {
        DigestAlgorithm::Sha1
    } else if chars_eq(&norm, "SHA224") {
        DigestAlgorithm::Sha224
    } else if chars_eq(&norm, "SHA256") {
        DigestAlgorithm::Sha256
    } else if chars_eq(&norm, "SHA384") {
        DigestAlgorithm::Sha384
    } else if chars_eq(&norm, "SHA512") {
        DigestAlgorithm::Sha512
    } else if chars_eq(&norm, "SHA3S256") {
        DigestAlgorithm::Sha3S256
    } else if chars_eq(&norm, "SHA3S384") {
        DigestAlgorithm::Sha3S384
    } else if chars_eq(&norm, "SHA3S512") {
        DigestAlgorithm::Sha3S512
    } else {
        DigestAlgorithm::Sha256
    }
}


/// Digest names are matched without regard to ASCII case or dashes: two
/// names that agree once upper-cased with dashes removed name the same
/// digest.
pub proof fn lemma_digest_name_insensitive(s: Seq<char>, t: Seq<char>)
    requires
        upper_without_dashes(s) == upper_without_dashes(t),
    ensures
        digest_for_name(s) == digest_for_name(t),
{
}


proof fn lemma_replace_sha2_without_s(t: Seq<char>)
    requires
        forall|i: int| 0 <= i < t.len() ==> t[i] != 'S',
    ensures
        replace_sha2(t) == t,
    decreases t.len(),
{
    if t.len() > 0 {
        if t.len() >= 4 {
            assert(t.take(4)[0] != sha2_chars()[0]);
        }
        lemma_replace_sha2_without_s(t.skip(1));
        assert(seq![t[0]] + t.skip(1) =~= t);
    }
}

/// "SHA2" followed by characters that hold no 'S' reads as "SHA" followed
/// by those characters.
proof fn lemma_replace_sha2_prefix(t: Seq<char>)
    requires
        forall|i: int| 0 <= i < t.len() ==> t[i] != 'S',
    ensures
        replace_sha2(sha2_chars() + t) == sha_chars() + t,
{
    let u = sha2_chars() + t;
    assert(u.take(4) =~= sha2_chars());
    assert(u.skip(4) =~= t);
    lemma_replace_sha2_without_s(t);
}

/// A name already free of "SHA2" (its fourth character is not '2' and no
/// 'S' follows the first) is its own normal form.
proof fn lemma_replace_sha2_plain(u: Seq<char>)
    requires
        u.len() >= 4,
        u[0] == 'S',
        u[3] != '2',
        forall|i: int| 1 <= i < u.len() ==> u[i] != 'S',
    ensures
        replace_sha2(u) == u,
{
    assert(u.take(4)[3] != sha2_chars()[3]);
    lemma_replace_sha2_without_s(u.skip(1));
    assert(seq![u[0]] + u.skip(1) =~= u);
}

proof fn lemma_digest_table_names()
    ensures
        "SHA1"@ == seq!['S', 'H', 'A', '1'],
        "SHA224"@ == seq!['S', 'H', 'A', '2', '2', '4'],
        "SHA256"@ == seq!['S', 'H', 'A', '2', '5', '6'],
        "SHA384"@ == seq!['S', 'H', 'A', '3', '8', '4'],
        "SHA512"@ == seq!['S', 'H', 'A', '5', '1', '2'],
        "SHA3S256"@ == seq!['S', 'H', 'A', '3', 'S', '2', '5', '6'],
        "SHA3S384"@ == seq!['S', 'H', 'A', '3', 'S', '3', '8', '4'],
        "SHA3S512"@ == seq!['S', 'H', 'A', '3', 'S', '5', '1', '2'],
{
    reveal_strlit("SHA1");
    reveal_strlit("SHA224");
    reveal_strlit("SHA256");
    reveal_strlit("SHA384");
    reveal_strlit("SHA512");
    reveal_strlit("SHA3S256");
    reveal_strlit("SHA3S384");
    reveal_strlit("SHA3S512");
    assert("SHA1"@ =~= seq!['S', 'H', 'A', '1']);
    assert("SHA224"@ =~= seq!['S', 'H', 'A', '2', '2', '4']);
    assert("SHA256"@ =~= seq!['S', 'H', 'A', '2', '5', '6']);
    assert("SHA384"@ =~= seq!['S', 'H', 'A', '3', '8', '4']);
    assert("SHA512"@ =~= seq!['S', 'H', 'A', '5', '1', '2']);
    assert("SHA3S256"@ =~= seq!['S', 'H', 'A', '3', 'S', '2', '5', '6']);
    assert("SHA3S384"@ =~= seq!['S', 'H', 'A', '3', 'S', '3', '8', '4']);
    assert("SHA3S512"@ =~= seq!['S', 'H', 'A', '3', 'S', '5', '1', '2']);
}

/// Each digest other than the SHA-256 fallback is picked by exactly one
/// normalized name, so no name of one family reaches a digest of another:
/// a SHA-3 digest is chosen only for "SHA3S256", "SHA3S384" or "SHA3S512",
/// a SHA-2 digest other than SHA-256 only for its own "SHA224", "SHA384"
/// or "SHA512", SHA-1 only for "SHA1"; "SHA256" gives SHA-256, and the
/// pre-hashed `Raw` mode is never chosen by a name.
pub proof fn lemma_digest_names_pick_their_digest(s: Seq<char>)
    ensures
        digest_for_name(s) == DigestAlgorithm::Sha1 <==> normalized_digest_name(s) == "SHA1"@,
        digest_for_name(s) == DigestAlgorithm::Sha224 <==> normalized_digest_name(s) == "SHA224"@,
        digest_for_name(s) == DigestAlgorithm::Sha384 <==> normalized_digest_name(s) == "SHA384"@,
        digest_for_name(s) == DigestAlgorithm::Sha512 <==> normalized_digest_name(s) == "SHA512"@,
        digest_for_name(s) == DigestAlgorithm::Sha3S256 <==> normalized_digest_name(s)
            == "SHA3S256"@,
        digest_for_name(s) == DigestAlgorithm::Sha3S384 <==> normalized_digest_name(s)
            == "SHA3S384"@,
        digest_for_name(s) == DigestAlgorithm::Sha3S512 <==> normalized_digest_name(s)
            == "SHA3S512"@,
        normalized_digest_name(s) == "SHA256"@ ==> digest_for_name(s) == DigestAlgorithm::Sha256,
        digest_for_name(s) != DigestAlgorithm::Raw,
{
    lemma_digest_table_names();
    let n = normalized_digest_name(s);
    let t1 = seq!['S', 'H', 'A', '1'];
    let t224 = seq!['S', 'H', 'A', '2', '2', '4'];
    let t256 = seq!['S', 'H', 'A', '2', '5', '6'];
    let t384 = seq!['S', 'H', 'A', '3', '8', '4'];
    let t512 = seq!['S', 'H', 'A', '5', '1', '2'];
    let u256 = seq!['S', 'H', 'A', '3', 'S', '2', '5', '6'];
    let u384 = seq!['S', 'H', 'A', '3', 'S', '3', '8', '4'];
    let u512 = seq!['S', 'H', 'A', '3', 'S', '5', '1', '2'];
    if n == t224 {
        assert(n[4] != t256[4]);
    }
    if n == t256 {
        assert(n[4] != t224[4]);
    }
    if n == t384 {
        assert(n[3] != t224[3] && n[3] != t256[3]);
    }
    if n == t512 {
        assert(n[3] != t224[3] && n[3] != t256[3] && n[3] != t384[3]);
    }
    if n == u384 {
        assert(n[5] != u256[5]);
    }
    if n == u512 {
        assert(n[5] != u256[5] && n[5] != u384[5]);
    }
}

/// The SHA-2 spellings OpenSSL uses pick their own digests, with or
/// without dashes and in any ASCII case: "SHA2-224", "SHA2-256",
/// "SHA2-384" and "SHA2-512" give SHA-224, SHA-256, SHA-384 and SHA-512;
/// "SHA-384", "SHA-512" and "SHA-1" give SHA-384, SHA-512 and SHA-1; the
/// "SHA3-S" spellings give their SHA-3 digests.
pub proof fn lemma_sha_names(s: Seq<char>)
    ensures
        upper_without_dashes(s) == sha2_chars() + seq!['2', '2', '4'] ==> digest_for_name(s)
            == DigestAlgorithm::Sha224,
        upper_without_dashes(s) == sha2_chars() + seq!['2', '5', '6'] ==> digest_for_name(s)
            == DigestAlgorithm::Sha256,
        upper_without_dashes(s) == sha2_chars() + seq!['3', '8', '4'] ==> digest_for_name(s)
            == DigestAlgorithm::Sha384,
        upper_without_dashes(s) == sha2_chars() + seq!['5', '1', '2'] ==> digest_for_name(s)
            == DigestAlgorithm::Sha512,
        upper_without_dashes(s) == sha_chars() + seq!['3', '8', '4'] ==> digest_for_name(s)
            == DigestAlgorithm::Sha384,
        upper_without_dashes(s) == sha_chars() + seq!['5', '1', '2'] ==> digest_for_name(s)
            == DigestAlgorithm::Sha512,
        upper_without_dashes(s) == sha_chars() + seq!['1'] ==> digest_for_name(s)
            == DigestAlgorithm::Sha1,
        upper_without_dashes(s) == sha_chars() + seq!['3', 'S', '2', '5', '6'] ==> digest_for_name(s)
            == DigestAlgorithm::Sha3S256,
        upper_without_dashes(s) == sha_chars() + seq!['3', 'S', '3', '8', '4'] ==> digest_for_name(s)
            == DigestAlgorithm::Sha3S384,
        upper_without_dashes(s) == sha_chars() + seq!['3', 'S', '5', '1', '2'] ==> digest_for_name(s)
            == DigestAlgorithm::Sha3S512,
{
    lemma_digest_names_pick_their_digest(s);
    lemma_digest_table_names();
    let u = upper_without_dashes(s);
    let d224 = seq!['2', '2', '4'];
    let d256 = seq!['2', '5', '6'];
    let d384 = seq!['3', '8', '4'];
    let d512 = seq!['5', '1', '2'];
    if u == sha2_chars() + d224 {
        lemma_replace_sha2_prefix(d224);
        assert(sha_chars() + d224 =~= "SHA224"@);
    }
    if u == sha2_chars() + d256 {
        lemma_replace_sha2_prefix(d256);
        assert(sha_chars() + d256 =~= "SHA256"@);
    }
    if u == sha2_chars() + d384 {
        lemma_replace_sha2_prefix(d384);
        assert(sha_chars() + d384 =~= "SHA384"@);
    }
    if u == sha2_chars() + d512 {
        lemma_replace_sha2_prefix(d512);
        assert(sha_chars() + d512 =~= "SHA512"@);
    }
    if u == sha_chars() + d384 {
        lemma_replace_sha2_plain(u);
        assert(u =~= "SHA384"@);
    }
    if u == sha_chars() + d512 {
        lemma_replace_sha2_plain(u);
        assert(u =~= "SHA512"@);
    }
    if u == sha_chars() + seq!['1'] {
        lemma_replace_sha2_plain(u);
        assert(u =~= "SHA1"@);
    }
    if u == sha_chars() + seq!['3', 'S', '2', '5', '6'] {
        lemma_sha3_normal(seq!['2', '5', '6']);
        assert(sha_chars() + seq!['3', 'S'] + seq!['2', '5', '6'] =~= u);
        assert(u =~= "SHA3S256"@);
    }
    if u == sha_chars() + seq!['3', 'S', '3', '8', '4'] {
        lemma_sha3_normal(seq!['3', '8', '4']);
        assert(sha_chars() + seq!['3', 'S'] + seq!['3', '8', '4'] =~= u);
        assert(u =~= "SHA3S384"@);
    }
    if u == sha_chars() + seq!['3', 'S', '5', '1', '2'] {
        lemma_sha3_normal(seq!['5', '1', '2']);
        assert(sha_chars() + seq!['3', 'S'] + seq!['5', '1', '2'] =~= u);
        assert(u =~= "SHA3S512"@);
    }
}

/// Whether "SHA2" occurs in `u` at position `i`.
pub open spec fn sha2_at(u: Seq<char>, i: int) -> bool {
    0 <= i && i + 4 <= u.len() && u.subrange(i, i + 4) == sha2_chars()
}

proof fn lemma_replace_sha2_none(u: Seq<char>)
    requires
        forall|i: int| !#[trigger] sha2_at(u, i),
    ensures
        replace_sha2(u) == u,
    decreases u.len(),
{
    if u.len() > 0 {
        if u.len() >= 4 {
            assert(u.subrange(0, 4) =~= u.take(4));
        }
        let r = u.skip(1);
        if u.len() >= 4 {
            assert(!sha2_at(u, 0));
        }
        assert forall|i: int| !#[trigger] sha2_at(r, i) by {
            if 0 <= i && i + 4 <= r.len() {
                assert(r.subrange(i, i + 4) =~= u.subrange(i + 1, i + 5));
                assert(!sha2_at(u, i + 1));
            }
        }
        lemma_replace_sha2_none(r);
        assert(seq![u[0]] + r =~= u);
    }
}

/// The SHA-3 spellings "SHA3S" followed by three digits are their own
/// normal form.
proof fn lemma_sha3_normal(d: Seq<char>)
    requires
        d.len() == 3,
        forall|i: int| 0 <= i < 3 ==> d[i] != 'S' && d[i] != 'H' && d[i] != 'A',
    ensures
        replace_sha2(sha_chars() + seq!['3', 'S'] + d) == sha_chars() + seq!['3', 'S'] + d,
{
    let u = sha_chars() + seq!['3', 'S'] + d;
    assert forall|i: int| !#[trigger] sha2_at(u, i) by {
        if !(0 <= i && i + 4 <= u.len()) {
        } else if i == 0 {
            assert(u.subrange(i, i + 4)[3] != sha2_chars()[3]);
        } else if i == 4 {
            assert(u.subrange(i, i + 4)[1] != sha2_chars()[1]);
        } else {
            assert(u.subrange(i, i + 4)[0] != sha2_chars()[0]);
        }
    }
    lemma_replace_sha2_none(u);
}

} // verus!
