//! Context for the mini app runtime: a pair of caller-supplied identifiers,
//! validated once at construction and immutable afterwards.

use vstd::prelude::*;

use crate::error::SdkError;
use crate::text::{is_blank, spec_trim};

verus! {

/// Mathematical model of the context and of the handshake payload: the two
/// identifiers as character sequences.
#[verifier::ext_equal]
pub ghost struct ContextModel {
    /// The application identifier.
    pub app_id: Seq<char>,
    /// The official-account identifier.
    pub oa_id: Seq<char>,
}

/// Whether an identifier is acceptable: not empty and not only whitespace.
pub open spec fn spec_valid_id(s: Seq<char>) -> bool {
    spec_trim(s).len() > 0
}

/// Immutable context capturing identifiers required by the mini app runtime.
#[derive(Clone, Debug, PartialEq, Eq)]
pub struct MiniAppContext {
    app_id: String,
    oa_id: String,
}

impl View for MiniAppContext {
    type V = ContextModel;

    closed spec fn view(&self) -> ContextModel {
        ContextModel { app_id: self.app_id@, oa_id: self.oa_id@ }
    }
}

impl MiniAppContext {
    /// Builds a new context after validating the identifiers: each must hold
    /// something besides whitespace. A bad application identifier is reported
    /// before the other identifier is looked at.
    pub fn new(app_id: &str, oa_id: &str) -> (r: Result<Self, SdkError>)
        ensures
            match r {
                Result::Ok(c) => spec_valid_id(app_id@) && spec_valid_id(oa_id@) && c@ == (
                ContextModel { app_id: app_id@, oa_id: oa_id@ }),
                Result::Err(e) => match e {
                    SdkError::InvalidAppId(v) => !spec_valid_id(app_id@) && v@ == app_id@,
                    SdkError::InvalidOaId(v) => spec_valid_id(app_id@) && !spec_valid_id(oa_id@)
                        && v@ == oa_id@,
                },
            },
    {
        if is_blank(app_id) {
            return Err(SdkError::InvalidAppId(app_id.to_owned()));
        }
        if is_blank(oa_id) {
            return Err(SdkError::InvalidOaId(oa_id.to_owned()));
        }
        Ok(MiniAppContext { app_id: app_id.to_owned(), oa_id: oa_id.to_owned() })
    }

    /// Returns the configured application identifier.
    pub fn app_id(&self) -> (r: &str)
        ensures
            r@ == self@.app_id,
    {
        self.app_id.as_str()
    }

    /// Returns the configured OA identifier.
    pub fn oa_id(&self) -> (r: &str)
        ensures
            r@ == self@.oa_id,
    {
        self.oa_id.as_str()
    }

    /// Produces a handshake payload carrying the same identifiers.
    pub fn handshake_payload(&self) -> (r: HandshakePayload)
        ensures
            r@ == self@,
    {
        HandshakePayload { app_id: self.app_id.clone(), oa_id: self.oa_id.clone() }
    }
}

/// Handshake payload shared with the host container.
#[derive(Clone, Debug, PartialEq, Eq)]
pub struct HandshakePayload {
    app_id: String,
    oa_id: String,
}

impl View for HandshakePayload {
    type V = ContextModel;

    closed spec fn view(&self) -> ContextModel {
        ContextModel { app_id: self.app_id@, oa_id: self.oa_id@ }
    }
}

impl HandshakePayload {
    /// Returns the application identifier included in the payload.
    pub fn app_id(&self) -> (r: &str)
        ensures
            r@ == self@.app_id,
    {
        self.app_id.as_str()
    }

    /// Returns the OA identifier included in the payload.
    pub fn oa_id(&self) -> (r: &str)
        ensures
            r@ == self@.oa_id,
    {
        self.oa_id.as_str()
    }
}

} // verus!
