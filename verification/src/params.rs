//! OSSL_PARAM values as the provider interface carries them, and the
//! scans over parameter lists that the adapter makes.
use vstd::prelude::*;
use vstd::string::StringExecFns;
use crate::text::str_eq;
use crate::digest::{DigestAlgorithm, digest_for_name, digest_name_to_backend};

verus! {

/// The value of one parameter.
#[derive(Clone, Debug, PartialEq, Eq)]
pub enum OsslParamValue {
    Integer(i64),
    UnsignedInteger(u64),
    Utf8String(String),
    OctetString(Vec<u8>),
}

/// One named parameter.
#[derive(Clone, Debug, PartialEq, Eq)]
pub struct OsslParam {
    pub key: String,
    pub value: OsslParamValue,
}

/// The type a parameter descriptor announces.
#[derive(Clone, Copy, Debug, PartialEq, Eq, Structural)]
pub enum OsslParamKind {
    Integer,
    UnsignedInteger,
    Utf8String,
    OctetString,
}

/// A parameter name together with the type it takes.
#[derive(Clone, Debug, PartialEq, Eq)]
pub struct OsslParamDescriptor {
    pub key: String,
    pub kind: OsslParamKind,
}

/// The mathematical content of a parameter value.
pub enum ValueModel {
    Integer(i64),
    UnsignedInteger(u64),
    Utf8String(Seq<char>),
    OctetString(Seq<u8>),
}

/// The mathematical content of a parameter.
pub struct ParamModel {
    pub key: Seq<char>,
    pub value: ValueModel,
}

impl View for OsslParamValue {
    type V = ValueModel;

    open spec fn view(&self) -> ValueModel {
        match self {
            OsslParamValue::Integer(n) => ValueModel::Integer(*n),
            OsslParamValue::UnsignedInteger(n) => ValueModel::UnsignedInteger(*n),
            OsslParamValue::Utf8String(s) => ValueModel::Utf8String(s@),
            OsslParamValue::OctetString(b) => ValueModel::OctetString(b@),
        }
    }
}

impl View for OsslParam {
    type V = ParamModel;

    open spec fn view(&self) -> ParamModel {
        ParamModel { key: self.key@, value: self.value@ }
    }
}

impl View for OsslParamDescriptor {
    type V = (Seq<char>, OsslParamKind);

    open spec fn view(&self) -> (Seq<char>, OsslParamKind) {
        (self.key@, self.kind)
    }
}

/// The models of a list of parameters.
pub open spec fn params_model(ps: Seq<OsslParam>) -> Seq<ParamModel> {
    ps.map_values(|p: OsslParam| p@)
}

/// The models of a list of descriptors.
pub open spec fn descriptors_model(ds: Seq<OsslParamDescriptor>) -> Seq<(Seq<char>, OsslParamKind)> {
    ds.map_values(|d: OsslParamDescriptor| d@)
}

/// A parameter built from a key and a value.
pub open spec fn param(key: Seq<char>, value: ValueModel) -> ParamModel {
    ParamModel { key, value }
}

/// The value of the first parameter named `key`, if any: what OpenSSL
/// finds when it looks a parameter up by name.
pub open spec fn param_value(ps: Seq<ParamModel>, key: Seq<char>) -> Option<ValueModel> {
    param_value_from(ps, key, 0)
}

/// The value of the first parameter named `key` at or after position `i`.
pub open spec fn param_value_from(ps: Seq<ParamModel>, key: Seq<char>, i: int) -> Option<ValueModel>
    decreases ps.len() - i,
{
    if i < 0 || i >= ps.len() {
        None
    } else if ps[i].key == key {
        Some(ps[i].value)
    } else {
        param_value_from(ps, key, i + 1)
    }
}

/// The first UTF-8 "digest" parameter's text, if any.
pub open spec fn first_digest_name(ps: Seq<ParamModel>) -> Option<Seq<char>>
    decreases ps.len(),
{
    if ps.len() == 0 {
        None
    } else if ps[0].key == "digest"@ && ps[0].value is Utf8String {
        Some(ps[0].value->Utf8String_0)
    } else {
        first_digest_name(ps.skip(1))
    }
}

/// Build a parameter from a key and a value.
pub fn make_param(key: &str, value: OsslParamValue) -> (p: OsslParam)
    ensures
        p@ == param(key@, value@),
{
    OsslParam { key: String::from_str(key), value }
}

/// The digest the first UTF-8 "digest" parameter names; SHA-256 where
/// there is none.
pub fn parse_digest_param(params: &[OsslParam]) -> (d: DigestAlgorithm)
    ensures
        d == match first_digest_name(params_model(params@)) {
            Some(name) => digest_for_name(name),
            None => DigestAlgorithm::Sha256,
        },
{
    let n = params.len();
    let mut i: usize = 0;
    assert(params_model(params@).skip(0) =~= params_model(params@));
    while i < n
        invariant
            n == params@.len(),
            i <= n,
            first_digest_name(params_model(params@)) == first_digest_name(
                params_model(params@).skip(i as int),
            ),
        decreases n - i,
    {
        let p = &params[i];
        let ghost rest = params_model(params@).skip(i as int);
        assert(rest[0] == p@);
        assert(rest.skip(1) =~= params_model(params@).skip(i + 1));
        if str_eq(p.key.as_str(), "digest") {
            if let OsslParamValue::Utf8String(s) = &p.value {
                return digest_name_to_backend(s.as_str());
            }
        }
        i = i + 1;
    }
    assert(params_model(params@).skip(n as int) =~= Seq::<ParamModel>::empty());
    DigestAlgorithm::Sha256
}

/// Whether any parameter is named "digest".
pub fn has_explicit_digest(params: &[OsslParam]) -> (r: bool)
    ensures
        r == exists|i: int| 0 <= i < params@.len() && (#[trigger] params@[i]).key@ == "digest"@,
{
    let n = params.len();
    let mut i: usize = 0;
    while i < n
        invariant
            n == params@.len(),
            i <= n,
            forall|j: int| 0 <= j < i ==> (#[trigger] params@[j]).key@ != "digest"@,
        decreases n - i,
    {
        if str_eq(params[i].key.as_str(), "digest") {
            return true;
        }
        i = i + 1;
    }
    false
}

} // verus!
