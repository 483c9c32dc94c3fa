//! The configuration model and the resolution engine.
//!
//! A [`ConfigLoader`] describes where configuration comes from: an
//! environment-variable prefix and an optional file path. Resolution merges
//! three layers with fixed precedence — compiled-in defaults, then the
//! configuration file, then environment-variable overrides — into a fully
//! populated [`AppConfig`]. Reading the environment and the filesystem is the
//! caller's job; the engine itself is a pure function of what was read.

use vstd::prelude::*;
use vstd::string::StringExecFns;

use crate::document::{spec_empty_layer, spec_parse_document};
use crate::error::{ConfigError, ConfigErrorModel};
use crate::text::{spec_trim, str_eq, trim_str};

verus! {

/// Deployment environment the service operates in.
#[derive(Clone, Copy, Debug, PartialEq, Eq, Structural)]
pub enum Environment {
    /// Local development (the default).
    Development,
    /// Internal staging or testing environment.
    Staging,
    /// Production deployment.
    Production,
}

/// The canonical rendering of an [`Environment`], which is also the only
/// spelling the resolution engine accepts for it.
pub open spec fn spec_environment_str(e: Environment) -> Seq<char> {
    match e {
        Environment::Development => "development"@,
        Environment::Staging => "staging"@,
        Environment::Production => "production"@,
    }
}

impl Environment {
    /// Returns the canonical string representation.
    pub fn as_str(&self) -> (r: &'static str)
        ensures
            r@ == spec_environment_str(*self),
    {
        match self {
            Environment::Development => "development",
            Environment::Staging => "staging",
            Environment::Production => "production",
        }
    }
}

impl Default for Environment {
    /// The default environment is `Development`.
    fn default() -> (r: Self)
        ensures
            r == Environment::Development,
    {
        Environment::Development
    }
}

/// Supported output formats for logs.
#[derive(Clone, Copy, Debug, PartialEq, Eq, Structural)]
pub enum LogFormat {
    /// Plain-text logs optimised for human consumption.
    Text,
    /// Structured JSON logs suitable for ingestion by log processors.
    Json,
}

impl Default for LogFormat {
    /// The default log format is `Text`.
    fn default() -> (r: Self)
        ensures
            r == LogFormat::Text,
    {
        LogFormat::Text
    }
}

/// Mathematical model of a [`LoggingConfig`]: the filter expression as a
/// character sequence, and the format.
#[verifier::ext_equal]
pub ghost struct LoggingModel {
    /// The filter expression.
    pub filter: Seq<char>,
    /// The output format.
    pub format: LogFormat,
}

/// Logging subsystem configuration.
#[derive(Clone, Debug, PartialEq, Eq)]
pub struct LoggingConfig {
    filter: String,
    format: LogFormat,
}

impl View for LoggingConfig {
    type V = LoggingModel;

    closed spec fn view(&self) -> LoggingModel {
        LoggingModel { filter: self.filter@, format: self.format }
    }
}

impl LoggingConfig {
    /// Creates a new logging configuration block.
    pub fn new(filter: &str, format: LogFormat) -> (r: Self)
        ensures
            r@ == (LoggingModel { filter: filter@, format }),
    {
        LoggingConfig { filter: filter.to_owned(), format }
    }

    /// Returns the configured filter expression.
    pub fn filter(&self) -> (r: &str)
        ensures
            r@ == self@.filter,
    {
        self.filter.as_str()
    }

    /// Returns the configured logging format.
    pub fn format(&self) -> (r: LogFormat)
        ensures
            r == self@.format,
    {
        self.format
    }
}

impl Default for LoggingConfig {
    /// The default logging configuration: filter `"info"`, plain text output.
    fn default() -> (r: Self)
        ensures
            r@ == (LoggingModel { filter: "info"@, format: LogFormat::Text }),
    {
        LoggingConfig { filter: String::from_str("info"), format: LogFormat::Text }
    }
}

/// Mathematical model of an [`AppConfig`].
#[verifier::ext_equal]
pub ghost struct ConfigModel {
    /// The deployment environment.
    pub environment: Environment,
    /// The logging configuration.
    pub logging: LoggingModel,
}

/// Application-level configuration: always fully populated, no field is
/// optional after resolution.
#[derive(Clone, Debug, PartialEq, Eq)]
pub struct AppConfig {
    environment: Environment,
    logging: LoggingConfig,
}

impl View for AppConfig {
    type V = ConfigModel;

    closed spec fn view(&self) -> ConfigModel {
        ConfigModel { environment: self.environment, logging: self.logging@ }
    }
}

impl AppConfig {
    /// Returns the configured deployment environment.
    pub fn environment(&self) -> (r: Environment)
        ensures
            r == self@.environment,
    {
        self.environment
    }

    /// Returns the logging configuration block.
    pub fn logging(&self) -> (r: &LoggingConfig)
        ensures
            r@ == self@.logging,
    {
        &self.logging
    }

    /// Creates a copy of the configuration with the provided environment.
    pub fn with_environment(self, environment: Environment) -> (r: Self)
        ensures
            r@ == (ConfigModel { environment, logging: self@.logging }),
    {
        AppConfig { environment, logging: self.logging }
    }

    /// Creates a copy of the configuration with custom logging settings.
    pub fn with_logging(self, logging: LoggingConfig) -> (r: Self)
        ensures
            r@ == (ConfigModel { environment: self@.environment, logging: logging@ }),
    {
        AppConfig { environment: self.environment, logging }
    }
}

impl Default for AppConfig {
    /// The compiled-in defaults: `Development` environment, filter `"info"`,
    /// plain text logs.
    fn default() -> (r: Self)
        ensures
            r@ == spec_default_config(),
    {
        AppConfig { environment: Environment::Development, logging: LoggingConfig::default() }
    }
}

/// The compiled-in default configuration.
pub open spec fn spec_default_config() -> ConfigModel {
    ConfigModel {
        environment: Environment::Development,
        logging: LoggingModel { filter: "info"@, format: LogFormat::Text },
    }
}

/// A partial configuration as read from one source: each field is present
/// only where that source sets it.
#[derive(Clone, Debug, PartialEq, Eq)]
pub struct ConfigLayer {
    /// Value for the deployment environment, if the source sets it.
    pub environment: Option<String>,
    /// Value for the logging filter, if the source sets it.
    pub filter: Option<String>,
    /// Value for the logging format, if the source sets it.
    pub format: Option<String>,
}

/// Mathematical model of a [`ConfigLayer`].
#[verifier::ext_equal]
pub ghost struct LayerModel {
    /// Value for the deployment environment, if set.
    pub environment: Option<Seq<char>>,
    /// Value for the logging filter, if set.
    pub filter: Option<Seq<char>>,
    /// Value for the logging format, if set.
    pub format: Option<Seq<char>>,
}

/// The view of an optional string: the character sequence it holds, if any.
pub open spec fn opt_view(o: Option<String>) -> Option<Seq<char>> {
    match o {
        Option::Some(s) => Some(s@),
        Option::None => None,
    }
}

impl View for ConfigLayer {
    type V = LayerModel;

    open spec fn view(&self) -> LayerModel {
        LayerModel {
            environment: opt_view(self.environment),
            filter: opt_view(self.filter),
            format: opt_view(self.format),
        }
    }
}

impl ConfigLayer {
    /// A layer that sets nothing.
    pub fn empty() -> (r: Self)
        ensures
            r@ == (LayerModel { environment: None, filter: None, format: None }),
    {
        ConfigLayer { environment: None, filter: None, format: None }
    }
}

/// What the caller found when it went to read the configuration file.
#[derive(Clone, Debug, PartialEq, Eq)]
pub enum FileSource {
    /// No configuration file was configured.
    Unset,
    /// A file was configured at this path but is not present.
    Missing {
        /// The path that was attempted.
        path: String,
    },
    /// The configured file was read; this is its content.
    Loaded {
        /// The file's text.
        text: String,
    },
}

/// Mathematical model of a [`FileSource`].
#[verifier::ext_equal]
pub ghost enum FileSourceModel {
    /// No configuration file was configured.
    Unset,
    /// A file was configured at this path but is not present.
    Missing { path: Seq<char> },
    /// The configured file was read with this content.
    Loaded { text: Seq<char> },
}

impl View for FileSource {
    type V = FileSourceModel;

    open spec fn view(&self) -> FileSourceModel {
        match self {
            FileSource::Unset => FileSourceModel::Unset,
            FileSource::Missing { path } => FileSourceModel::Missing { path: path@ },
            FileSource::Loaded { text } => FileSourceModel::Loaded { text: text@ },
        }
    }
}

/// Mathematical model of a [`ConfigLoader`].
#[verifier::ext_equal]
pub ghost struct LoaderModel {
    /// The environment-variable prefix.
    pub env_prefix: Seq<char>,
    /// The programmatically configured file path, if any.
    pub file_path: Option<Seq<char>>,
}

/// Describes where configuration comes from: an environment-variable prefix
/// and an optional file path. The path choice itself can be overridden by the
/// `{prefix}CONFIG_PATH` environment variable.
#[derive(Clone, Debug, PartialEq, Eq)]
pub struct ConfigLoader {
    env_prefix: String,
    file_path: Option<String>,
}

impl View for ConfigLoader {
    type V = LoaderModel;

    closed spec fn view(&self) -> LoaderModel {
        LoaderModel { env_prefix: self.env_prefix@, file_path: opt_view(self.file_path) }
    }
}

impl ConfigLoader {
    /// Creates a new loader configured with the provided prefix.
    pub fn new(prefix: &str) -> (r: Self)
        ensures
            r@ == (LoaderModel { env_prefix: prefix@, file_path: None }),
    {
        ConfigLoader { env_prefix: prefix.to_owned(), file_path: None }
    }

    /// Overrides the configuration file path.
    pub fn with_file_path(self, path: &str) -> (r: Self)
        ensures
            r@ == (LoaderModel { env_prefix: self@.env_prefix, file_path: Some(path@) }),
    {
        ConfigLoader { env_prefix: self.env_prefix, file_path: Some(path.to_owned()) }
    }

    /// Returns the configured file path, if any.
    pub fn file_path(&self) -> (r: Option<&str>)
        ensures
            match r {
                Option::Some(p) => self@.file_path == Some(p@),
                Option::None => self@.file_path is None,
            },
    {
        match &self.file_path {
            Option::Some(p) => Some(p.as_str()),
            Option::None => None,
        }
    }

    /// The environment variable that overrides the file path choice.
    pub fn config_path_key(&self) -> (r: String)
        ensures
            r@ == self@.env_prefix + "CONFIG_PATH"@,
    {
        self.env_prefix.clone().concat("CONFIG_PATH")
    }

    /// The environment variable that overrides the deployment environment.
    pub fn environment_key(&self) -> (r: String)
        ensures
            r@ == self@.env_prefix + "ENVIRONMENT"@,
    {
        self.env_prefix.clone().concat("ENVIRONMENT")
    }

    /// The environment variable that overrides the logging filter.
    pub fn filter_key(&self) -> (r: String)
        ensures
            r@ == self@.env_prefix + "LOGGING__FILTER"@,
    {
        self.env_prefix.clone().concat("LOGGING__FILTER")
    }

    /// The environment variable that overrides the logging format.
    pub fn format_key(&self) -> (r: String)
        ensures
            r@ == self@.env_prefix + "LOGGING__FORMAT"@,
    {
        self.env_prefix.clone().concat("LOGGING__FORMAT")
    }

    /// The path the configuration file must be read from, given the value of
    /// the `{prefix}CONFIG_PATH` environment variable: a non-blank variable
    /// overrides the programmatic path; a blank or unset one is ignored.
    pub fn effective_path(&self, env_value: Option<&str>) -> (r: Option<String>)
        ensures
            opt_view(r) == spec_effective_path(self@.file_path, match env_value {
                Option::Some(v) => Some(v@),
                Option::None => None,
            }),
    {
        match env_value {
            Option::Some(v) => {
                let trimmed = trim_str(v);
                if trimmed.is_empty() {
                    self.file_path.clone()
                } else {
                    Some(trimmed.to_owned())
                }
            },
            Option::None => self.file_path.clone(),
        }
    }
}

impl Default for ConfigLoader {
    /// The default loader uses the `ZALO_BOT_` environment-variable prefix
    /// and no file path.
    fn default() -> (r: Self)
        ensures
            r@ == (LoaderModel { env_prefix: "ZALO_BOT_"@, file_path: None }),
    {
        ConfigLoader::new("ZALO_BOT_")
    }
}

/// Which path the configuration file is read from: the trimmed value of the
/// path-override variable where that is non-blank, else the programmatic
/// path.
pub open spec fn spec_effective_path(
    programmatic: Option<Seq<char>>,
    env_value: Option<Seq<char>>,
) -> Option<Seq<char>> {
    match env_value {
        Option::Some(v) => if spec_trim(v).len() == 0 {
            programmatic
        } else {
            Some(spec_trim(v))
        },
        Option::None => programmatic,
    }
}

/// A blank path-override variable is equivalent to an unset one; a non-blank
/// one replaces the programmatic path with its trimmed value, whatever the
/// programmatic path is.
pub proof fn lemma_blank_path_override_ignored(programmatic: Option<Seq<char>>, v: Seq<char>)
    ensures
        spec_trim(v).len() == 0 ==> spec_effective_path(programmatic, Some(v))
            == spec_effective_path(programmatic, None),
        spec_trim(v).len() > 0 ==> spec_effective_path(programmatic, Some(v)) == Some(spec_trim(v)),
{
}

/// The spelling of an [`Environment`] the resolution engine accepts.
pub open spec fn spec_parse_environment(s: Seq<char>) -> Option<Environment> {
    if s == "development"@ {
        Some(Environment::Development)
    } else if s == "staging"@ {
        Some(Environment::Staging)
    } else if s == "production"@ {
        Some(Environment::Production)
    } else {
        None
    }
}

impl Environment {
    /// Parses the canonical spelling of an environment name.
    pub fn parse(s: &str) -> (r: Option<Environment>)
        ensures
            r == spec_parse_environment(s@),
    {
        if str_eq(s, "development") {
            Some(Environment::Development)
        } else if str_eq(s, "staging") {
            Some(Environment::Staging)
        } else if str_eq(s, "production") {
            Some(Environment::Production)
        } else {
            None
        }
    }
}

/// The spelling of a [`LogFormat`] the resolution engine accepts.
pub open spec fn spec_parse_format(s: Seq<char>) -> Option<LogFormat> {
    if s == "text"@ {
        Some(LogFormat::Text)
    } else if s == "json"@ {
        Some(LogFormat::Json)
    } else {
        None
    }
}

impl LogFormat {
    /// Parses the canonical spelling of a log format name.
    pub fn parse(s: &str) -> (r: Option<LogFormat>)
        ensures
            r == spec_parse_format(s@),
    {
        if str_eq(s, "text") {
            Some(LogFormat::Text)
        } else if str_eq(s, "json") {
            Some(LogFormat::Json)
        } else {
            None
        }
    }
}

/// The first value if it is set, else the second: how a higher-precedence
/// layer overrides a lower one, field by field.
pub open spec fn spec_or(a: Option<Seq<char>>, b: Option<Seq<char>>) -> Option<Seq<char>> {
    if a is Some {
        a
    } else {
        b
    }
}

/// The field-by-field merge of two layers; fields of `high` win.
pub open spec fn spec_merge(high: LayerModel, low: LayerModel) -> LayerModel {
    LayerModel {
        environment: spec_or(high.environment, low.environment),
        filter: spec_or(high.filter, low.filter),
        format: spec_or(high.format, low.format),
    }
}

/// The typed configuration a fully merged layer denotes: fields the layer
/// leaves unset fall back to the compiled-in defaults, and a value no field
/// accepts is an extraction error.
pub open spec fn spec_materialize(m: LayerModel) -> Result<ConfigModel, ConfigErrorModel> {
    let environment = match m.environment {
        Option::None => Some(Environment::Development),
        Option::Some(s) => spec_parse_environment(s),
    };
    let format = match m.format {
        Option::None => Some(LogFormat::Text),
        Option::Some(s) => spec_parse_format(s),
    };
    if environment is None {
        Err(
            ConfigErrorModel::Extraction {
                detail: "unsupported environment value `"@ + m.environment->0 + "`"@,
            },
        )
    } else if format is None {
        Err(
            ConfigErrorModel::Extraction {
                detail: "unsupported logging format value `"@ + m.format->0 + "`"@,
            },
        )
    } else {
        Ok(
            ConfigModel {
                environment: environment->0,
                logging: LoggingModel {
                    filter: match m.filter {
                        Option::None => "info"@,
                        Option::Some(f) => f,
                    },
                    format: format->0,
                },
            },
        )
    }
}

/// What resolution returns, for every combination of file outcome and
/// environment overrides: a missing file is reported with its exact path; a
/// malformed file is an extraction error; otherwise the environment layer is
/// merged over the file layer and materialized over the defaults.
pub open spec fn spec_resolve(file: FileSourceModel, env: LayerModel) -> Result<
    ConfigModel,
    ConfigErrorModel,
> {
    match file {
        FileSourceModel::Missing { path } => Err(ConfigErrorModel::MissingFile { path }),
        FileSourceModel::Unset => spec_materialize(spec_merge(env, spec_empty_layer())),
        FileSourceModel::Loaded { text } => match spec_parse_document(text) {
            Result::Err(_) => Err(
                ConfigErrorModel::Extraction { detail: "configuration file syntax error"@ },
            ),
            Result::Ok(fl) => spec_materialize(spec_merge(env, fl)),
        },
    }
}

/// The model of a resolution result.
pub open spec fn spec_resolve_result(r: Result<AppConfig, ConfigError>) -> Result<
    ConfigModel,
    ConfigErrorModel,
> {
    match r {
        Result::Ok(c) => Ok(c@),
        Result::Err(e) => Err(e@),
    }
}

/// The first value if it is set, else the second, cloned.
fn pick(a: &Option<String>, b: &Option<String>) -> (r: Option<String>)
    ensures
        opt_view(r) == spec_or(opt_view(*a), opt_view(*b)),
{
    match a {
        Option::Some(v) => Some(v.clone()),
        Option::None => b.clone(),
    }
}

/// Merges two layers field by field; fields of `high` win.
fn merge(high: &ConfigLayer, low: &ConfigLayer) -> (r: ConfigLayer)
    ensures
        r@ == spec_merge(high@, low@),
{
    ConfigLayer {
        environment: pick(&high.environment, &low.environment),
        filter: pick(&high.filter, &low.filter),
        format: pick(&high.format, &low.format),
    }
}

/// Materializes a fully merged layer into the typed model.
fn materialize(m: &ConfigLayer) -> (r: Result<AppConfig, ConfigError>)
    ensures
        spec_resolve_result(r) == spec_materialize(m@),
{
    let environment = match &m.environment {
        Option::None => Environment::Development,
        Option::Some(s) => match Environment::parse(s.as_str()) {
            Option::Some(e) => e,
            Option::None => {
                return Err(
                    ConfigError::Extraction {
                        detail: String::from_str("unsupported environment value `").concat(
                            s.as_str(),
                        ).concat("`"),
                    },
                );
            },
        },
    };
    let format = match &m.format {
        Option::None => LogFormat::Text,
        Option::Some(s) => match LogFormat::parse(s.as_str()) {
            Option::Some(f) => f,
            Option::None => {
                return Err(
                    ConfigError::Extraction {
                        detail: String::from_str("unsupported logging format value `").concat(
                            s.as_str(),
                        ).concat("`"),
                    },
                );
            },
        },
    };
    let filter = match &m.filter {
        Option::Some(f) => f.clone(),
        Option::None => String::from_str("info"),
    };
    Ok(AppConfig { environment, logging: LoggingConfig { filter, format } })
}

impl ConfigLoader {
    /// Resolves the configuration from what the caller read: the outcome of
    /// looking up the configuration file at the effective path, and the
    /// values of the `{prefix}ENVIRONMENT`, `{prefix}LOGGING__FILTER` and
    /// `{prefix}LOGGING__FORMAT` environment variables. Environment values
    /// win over file values, and both win over the compiled-in defaults,
    /// field by field. Resolution is a pure function of its arguments and may
    /// be repeated.
    pub fn resolve(&self, file: &FileSource, env: &ConfigLayer) -> (r: Result<
        AppConfig,
        ConfigError,
    >)
        ensures
            spec_resolve_result(r) == spec_resolve(file@, env@),
    {
        match file {
            FileSource::Missing { path } => Err(ConfigError::MissingFile { path: path.clone() }),
            FileSource::Unset => materialize(&merge(env, &ConfigLayer::empty())),
            FileSource::Loaded { text } => match crate::document::parse_document(text.as_str()) {
                Option::None => Err(
                    ConfigError::Extraction {
                        detail: String::from_str("configuration file syntax error"),
                    },
                ),
                Option::Some(fl) => materialize(&merge(env, &fl)),
            },
        }
    }
}

/// The logging filter obeys the resolution precedence: an environment
/// override wins over a file value, a file value wins over the default
/// `"info"`, on every resolution that succeeds.
pub proof fn lemma_filter_precedence(env: LayerModel, fl: LayerModel)
    ensures
        spec_materialize(spec_merge(env, fl)) matches Ok(c) ==> c.logging.filter == (
        if env.filter is Some {
            env.filter->0
        } else if fl.filter is Some {
            fl.filter->0
        } else {
            "info"@
        }),
{
}

/// A configured file that is not present stops resolution with a `Config`
/// error naming exactly the path that was attempted, whatever the
/// environment overrides say.
pub proof fn lemma_missing_file_is_reported(path: Seq<char>, env: LayerModel)
    ensures
        spec_resolve(FileSourceModel::Missing { path }, env) == Err::<
            ConfigModel,
            ConfigErrorModel,
        >(ConfigErrorModel::MissingFile { path }),
{
}

} // verus!

