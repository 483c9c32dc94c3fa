//! Filter validation for the observability subsystem.
//!
//! The logging filter configured in an [`crate::config::AppConfig`] must
//! satisfy the tracing filter grammar before a dispatcher can be built from
//! it. Validation classifies a malformed expression as a configuration
//! fault; building and installing the process-wide subscriber itself is the
//! caller's plumbing and happens outside this crate's contracts.

use vstd::prelude::*;

use crate::error::ObservabilityError;

verus! {

/// Whether the tracing filter grammar accepts an expression, as
/// tracing-subscriber's `EnvFilter` parser decides it. The grammar is not
/// restated here; the name stands for the parser's verdict, a pure function
/// of the expression.
pub uninterp spec fn filter_accepted(s: Seq<char>) -> bool;

/// Relies on tracing-subscriber's `EnvFilter::try_new`: it returns `Ok`
/// exactly when the filter expression satisfies the filter grammar, a
/// decision that depends on the expression alone. On rejection the parse
/// error's description is handed back as text.
#[verifier::external_body]
fn try_parse_filter(s: &str) -> (r: Option<String>)
    ensures
        (r is None) == filter_accepted(s@),
{
    match tracing_subscriber::EnvFilter::try_new(s) {
        Ok(_) => None,
        Err(e) => Some(format!("{e}")),
    }
}

/// Checks a logging filter expression against the tracing filter grammar:
/// accepted expressions pass, and a rejected expression is reported as an
/// invalid-filter fault carrying the expression itself.
pub fn validate_filter(filter: &str) -> (r: Result<(), ObservabilityError>)
    ensures
        (r is Ok) == filter_accepted(filter@),
        match r {
            Result::Ok(_) => true,
            Result::Err(e) => match e {
                ObservabilityError::InvalidFilter { filter: f, detail: _ } => f@ == filter@,
                ObservabilityError::Install { .. } => false,
            },
        },
{
    match try_parse_filter(filter) {
        Option::None => Ok(()),
        Option::Some(detail) => Err(
            ObservabilityError::InvalidFilter { filter: filter.to_owned(), detail },
        ),
    }
}

} // verus!
