//! Encoder and decoder contexts. The provider offers no encoder or decoder
//! algorithms, so these contexts only answer with empty parameter lists
//! and refusals.
use vstd::prelude::*;
use crate::errors::{PkeyError, PkeyErrorKind, pkey_error};
use crate::params::{OsslParam, OsslParamDescriptor};
use crate::keymgmt::{KeyRecord, KeySelection, err_model};

verus! {

/// An object a decoder recognised, described by its parameters.
#[derive(Clone, Debug, PartialEq, Eq)]
pub struct DecodedObject {
    pub params: Vec<OsslParam>,
}

/// Encoder context of this provider.
#[derive(Debug)]
pub struct StubEncodeCtx;

/// Decoder context of this provider.
#[derive(Debug)]
pub struct StubDecodeCtx;

impl StubEncodeCtx {
    pub fn new() -> (r: StubEncodeCtx) {
        StubEncodeCtx
    }

    /// Context parameters that can be set: none.
    pub fn settable_ctx_params() -> (r: Vec<OsslParamDescriptor>)
        ensures
            r@.len() == 0,
    {
        Vec::new()
    }

    /// Parameters the encoder reports: none.
    pub fn gettable_params() -> (r: Vec<OsslParamDescriptor>)
        ensures
            r@.len() == 0,
    {
        Vec::new()
    }

    /// Whether the encoder handles a selection: never.
    pub fn does_selection(_s: KeySelection) -> (r: bool)
        ensures
            !r,
    {
        false
    }

    pub fn get_params(&self) -> (r: Result<Vec<OsslParam>, PkeyError>)
        ensures
            r matches Ok(v) && v@.len() == 0,
    {
        Ok(Vec::new())
    }

    pub fn set_ctx_params(&self, _p: &[OsslParam]) -> (r: Result<(), PkeyError>)
        ensures
            r is Ok,
    {
        Ok(())
    }

    /// Importing an object through the encoder is refused.
    pub fn import_object(&self, _s: KeySelection, _p: &[OsslParam]) -> (r: Result<
        KeyRecord,
        PkeyError,
    >)
        ensures
            r is Err && err_model(r) == (PkeyErrorKind::NotSupported, "encoder.import-object"@),
    {
        Err(pkey_error(PkeyErrorKind::NotSupported, "encoder.import-object"))
    }

    /// Encoding is refused.
    pub fn encode(&self, _obj: &KeyRecord, _s: KeySelection) -> (r: Result<Vec<u8>, PkeyError>)
        ensures
            r is Err && err_model(r) == (PkeyErrorKind::NotSupported, "encoder.encode"@),
    {
        Err(pkey_error(PkeyErrorKind::NotSupported, "encoder.encode"))
    }
}

impl StubDecodeCtx {
    pub fn new() -> (r: StubDecodeCtx) {
        StubDecodeCtx
    }

    /// Context parameters that can be set: none.
    pub fn settable_ctx_params() -> (r: Vec<OsslParamDescriptor>)
        ensures
            r@.len() == 0,
    {
        Vec::new()
    }

    /// Parameters the decoder reports: none.
    pub fn gettable_params() -> (r: Vec<OsslParamDescriptor>)
        ensures
            r@.len() == 0,
    {
        Vec::new()
    }

    /// Whether the decoder handles a selection: never.
    pub fn does_selection(_s: KeySelection) -> (r: bool)
        ensures
            !r,
    {
        false
    }

    pub fn get_params(&self) -> (r: Result<Vec<OsslParam>, PkeyError>)
        ensures
            r matches Ok(v) && v@.len() == 0,
    {
        Ok(Vec::new())
    }

    pub fn set_ctx_params(&self, _p: &[OsslParam]) -> (r: Result<(), PkeyError>)
        ensures
            r is Ok,
    {
        Ok(())
    }

    /// Decoding recognises nothing: the answer is always an empty list.
    pub fn decode(&self, _input: &[u8], _s: KeySelection) -> (r: Result<Vec<DecodedObject>, PkeyError>)
        ensures
            r matches Ok(v) && v@.len() == 0,
    {
        Ok(Vec::new())
    }

    /// Exporting a decoded object is refused.
    pub fn export_object(&self, _obj: &KeyRecord) -> (r: Result<Vec<OsslParam>, PkeyError>)
        ensures
            r is Err && err_model(r) == (PkeyErrorKind::NotSupported, "decoder.export-object"@),
    {
        Err(pkey_error(PkeyErrorKind::NotSupported, "decoder.export-object"))
    }
}

} // verus!
