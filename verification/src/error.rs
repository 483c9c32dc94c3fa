//! The closed error taxonomy shared by every subsystem.
//!
//! Every fallible operation of the crate resolves to exactly one
//! [`AppErrorKind`]. The mapping from each concrete error value to its kind is
//! part of the public contract: transport layers upstream decide from the kind
//! alone whether to fail startup, reject a request, or report an internal
//! fault.

use vstd::prelude::*;
use vstd::string::StringExecFns;

verus! {

/// The closed set of error kinds. Every error produced by the crate carries
/// exactly one of these.
#[derive(Clone, Copy, Debug, PartialEq, Eq, Structural)]
pub enum AppErrorKind {
    /// Bad or missing configuration input: a missing or malformed
    /// configuration file, an invalid filter expression, or a secret that the
    /// MAC algorithm cannot accept.
    Config,
    /// Malformed caller-supplied identifiers.
    Validation,
    /// Failed or missing webhook proof.
    Unauthorized,
    /// Programmer or environment error, such as installing the process-wide
    /// logging sink twice.
    Internal,
}

/// An error as surfaced to callers: one kind out of the closed taxonomy and a
/// human-readable message.
#[derive(Clone, Debug, PartialEq, Eq)]
pub struct AppError {
    /// The kind this failure was classified as.
    pub kind: AppErrorKind,
    /// Human-readable description of the failure.
    pub message: String,
}

impl AppError {
    /// Builds an error of the given kind carrying the given message.
    pub fn with(kind: AppErrorKind, message: String) -> (r: AppError)
        ensures
            r.kind == kind,
            r.message@ == message@,
    {
        AppError { kind, message }
    }

    /// Builds an error for a failure with no more specific classification;
    /// such failures are always `Internal`.
    pub fn with_message(message: &str) -> (r: AppError)
        ensures
            r.kind == AppErrorKind::Internal,
            r.message@ == message@,
    {
        AppError { kind: AppErrorKind::Internal, message: message.to_owned() }
    }
}

/// Errors emitted when resolving runtime configuration.
#[derive(Clone, Debug, PartialEq, Eq)]
pub enum ConfigError {
    /// The configuration file to read is not present.
    MissingFile {
        /// Path of the configuration file that could not be found.
        path: String,
    },
    /// The configuration sources could not be materialized into the typed
    /// model: a syntax error in the file, or a value no field accepts.
    Extraction {
        /// Description of what could not be extracted.
        detail: String,
    },
}

/// Mathematical model of a [`ConfigError`].
#[verifier::ext_equal]
pub ghost enum ConfigErrorModel {
    /// The configuration file to read is not present at this path.
    MissingFile { path: Seq<char> },
    /// The sources could not be materialized into the typed model.
    Extraction { detail: Seq<char> },
}

impl View for ConfigError {
    type V = ConfigErrorModel;

    open spec fn view(&self) -> ConfigErrorModel {
        match self {
            ConfigError::MissingFile { path } => ConfigErrorModel::MissingFile { path: path@ },
            ConfigError::Extraction { detail } => ConfigErrorModel::Extraction { detail: detail@ },
        }
    }
}

/// The message a [`ConfigError`] renders to.
pub open spec fn spec_config_message(e: ConfigError) -> Seq<char> {
    match e {
        ConfigError::MissingFile { path } => "configuration file not found at "@ + path@,
        ConfigError::Extraction { detail } => "failed to extract configuration: "@ + detail@,
    }
}

impl ConfigError {
    /// The kind a configuration failure is classified as: always `Config`.
    pub fn kind(&self) -> (r: AppErrorKind)
        ensures
            r == AppErrorKind::Config,
    {
        AppErrorKind::Config
    }

    /// Renders the human-readable message for this failure.
    pub fn message(&self) -> (r: String)
        ensures
            r@ == spec_config_message(*self),
    {
        match self {
            ConfigError::MissingFile { path } => String::from_str(
                "configuration file not found at ",
            ).concat(path.as_str()),
            ConfigError::Extraction { detail } => String::from_str(
                "failed to extract configuration: ",
            ).concat(detail.as_str()),
        }
    }

    /// Classifies this failure into the taxonomy.
    pub fn to_app_error(&self) -> (r: AppError)
        ensures
            r.kind == AppErrorKind::Config,
            r.message@ == spec_config_message(*self),
    {
        AppError::with(self.kind(), self.message())
    }
}

/// Errors emitted when verifying webhook signatures.
#[derive(Clone, Copy, Debug, PartialEq, Eq, Structural)]
pub enum SignatureError {
    /// The signature header is absent from the request.
    Missing,
    /// The signature does not prove the payload: it is not valid hexadecimal,
    /// or the decoded bytes do not match the expected MAC. The two cases are
    /// deliberately indistinguishable to callers.
    VerificationFailed,
    /// The configured secret has a length the MAC algorithm does not accept.
    InvalidSecretLength,
}

/// The kind a signature failure is classified as: a missing or wrong proof is
/// `Unauthorized`; an unusable secret is a deployment fault, hence `Config`.
pub open spec fn spec_signature_kind(e: SignatureError) -> AppErrorKind {
    match e {
        SignatureError::Missing => AppErrorKind::Unauthorized,
        SignatureError::VerificationFailed => AppErrorKind::Unauthorized,
        SignatureError::InvalidSecretLength => AppErrorKind::Config,
    }
}

/// The message a [`SignatureError`] renders to.
pub open spec fn spec_signature_message(e: SignatureError) -> Seq<char> {
    match e {
        SignatureError::Missing => "missing webhook signature header"@,
        SignatureError::VerificationFailed => "webhook signature verification failed"@,
        SignatureError::InvalidSecretLength => "invalid secret length"@,
    }
}

impl SignatureError {
    /// The kind this failure is classified as.
    pub fn kind(&self) -> (r: AppErrorKind)
        ensures
            r == spec_signature_kind(*self),
    {
        match self {
            SignatureError::Missing => AppErrorKind::Unauthorized,
            SignatureError::VerificationFailed => AppErrorKind::Unauthorized,
            SignatureError::InvalidSecretLength => AppErrorKind::Config,
        }
    }

    /// Renders the human-readable message for this failure.
    pub fn message(&self) -> (r: String)
        ensures
            r@ == spec_signature_message(*self),
    {
        match self {
            SignatureError::Missing => String::from_str("missing webhook signature header"),
            SignatureError::VerificationFailed => String::from_str(
                "webhook signature verification failed",
            ),
            SignatureError::InvalidSecretLength => String::from_str("invalid secret length"),
        }
    }

    /// Classifies this failure into the taxonomy.
    pub fn to_app_error(&self) -> (r: AppError)
        ensures
            r.kind == spec_signature_kind(*self),
            r.message@ == spec_signature_message(*self),
    {
        AppError::with(self.kind(), self.message())
    }
}

/// Errors returned by the mini app context utilities.
#[derive(Clone, Debug, PartialEq, Eq)]
pub enum SdkError {
    /// Provided app identifier is empty or blank.
    InvalidAppId(String),
    /// Provided OA identifier is empty or blank.
    InvalidOaId(String),
}

/// The message an [`SdkError`] renders to.
pub open spec fn spec_sdk_message(e: SdkError) -> Seq<char> {
    match e {
        SdkError::InvalidAppId(id) => "invalid app identifier: "@ + id@,
        SdkError::InvalidOaId(id) => "invalid oa identifier: "@ + id@,
    }
}

impl SdkError {
    /// The kind a malformed identifier is classified as: always `Validation`.
    pub fn kind(&self) -> (r: AppErrorKind)
        ensures
            r == AppErrorKind::Validation,
    {
        AppErrorKind::Validation
    }

    /// Renders the human-readable message for this failure.
    pub fn message(&self) -> (r: String)
        ensures
            r@ == spec_sdk_message(*self),
    {
        match self {
            SdkError::InvalidAppId(id) => String::from_str("invalid app identifier: ").concat(
                id.as_str(),
            ),
            SdkError::InvalidOaId(id) => String::from_str("invalid oa identifier: ").concat(
                id.as_str(),
            ),
        }
    }

    /// Classifies this failure into the taxonomy.
    pub fn to_app_error(&self) -> (r: AppError)
        ensures
            r.kind == AppErrorKind::Validation,
            r.message@ == spec_sdk_message(*self),
    {
        AppError::with(self.kind(), self.message())
    }
}

/// Errors produced by the observability subsystem.
#[derive(Clone, Debug, PartialEq, Eq)]
pub enum ObservabilityError {
    /// The logging filter expression does not parse.
    InvalidFilter {
        /// The filter expression as configured.
        filter: String,
        /// Description of the parse failure.
        detail: String,
    },
    /// The process-wide logging sink was already installed.
    Install {
        /// Description of the installation failure.
        detail: String,
    },
}

/// The kind an observability failure is classified as: a bad filter expression
/// is a configuration fault; a second installation of the process-wide sink is
/// an internal fault.
pub open spec fn spec_observability_kind(e: ObservabilityError) -> AppErrorKind {
    match e {
        ObservabilityError::InvalidFilter { .. } => AppErrorKind::Config,
        ObservabilityError::Install { .. } => AppErrorKind::Internal,
    }
}

/// The message an [`ObservabilityError`] renders to.
pub open spec fn spec_observability_message(e: ObservabilityError) -> Seq<char> {
    match e {
        ObservabilityError::InvalidFilter { filter, detail } => "invalid tracing filter `"@
            + filter@ + "`: "@ + detail@,
        ObservabilityError::Install { detail } => "failed to install tracing subscriber: "@
            + detail@,
    }
}

impl ObservabilityError {
    /// The kind this failure is classified as.
    pub fn kind(&self) -> (r: AppErrorKind)
        ensures
            r == spec_observability_kind(*self),
    {
        match self {
            ObservabilityError::InvalidFilter { .. } => AppErrorKind::Config,
            ObservabilityError::Install { .. } => AppErrorKind::Internal,
        }
    }

    /// Renders the human-readable message for this failure.
    pub fn message(&self) -> (r: String)
        ensures
            r@ == spec_observability_message(*self),
    {
        match self {
            ObservabilityError::InvalidFilter { filter, detail } => String::from_str(
                "invalid tracing filter `",
            ).concat(filter.as_str()).concat("`: ").concat(detail.as_str()),
            ObservabilityError::Install { detail } => String::from_str(
                "failed to install tracing subscriber: ",
            ).concat(detail.as_str()),
        }
    }

    /// Classifies this failure into the taxonomy.
    pub fn to_app_error(&self) -> (r: AppError)
        ensures
            r.kind == spec_observability_kind(*self),
            r.message@ == spec_observability_message(*self),
    {
        AppError::with(self.kind(), self.message())
    }
}

} // verus!
