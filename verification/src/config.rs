//! The configuration of the service: each setting comes from the command line, else from
//! the environment, else from the configuration file, else from its default.
//!
//! Nothing here reads the environment or a file. The caller reads them and hands over
//! what it found.

use vstd::prelude::*;
use vstd::string::StringExecFns;
use crate::conv::str_eq;
use crate::query::slice::text_of;

verus! {

// Defaults
pub const DEFAULT_ADDRESS: &'static str = "file:./data/db";

pub const DEFAULT_NAMESPACE: &'static str = "plazer";

pub const DEFAULT_DATABASE: &'static str = "plazer";

pub const DEFAULT_PRIVATE_KEY_PATH: &'static str = "./data/private_key.pem";

pub const DEFAULT_LOG_DIR: &'static str = "./data/logs";

pub const DEFAULT_LOG_LEVEL_STDOUT: LogLevel = LogLevel::Info;

pub const DEFAULT_LOG_LEVEL_FILE: LogLevel = LogLevel::Info;

pub const DEFAULT_HOST: &'static str = "0.0.0.0";

pub const DEFAULT_PORT: u16 = 8080;

pub const DEFAULT_CONFIG_PATH: &'static str = "./config.toml";

// Environment variables
pub const ENV_VAR_ADDRESS: &'static str = "PLAZER_DB_ADDRESS";

pub const ENV_VAR_NAMESPACE: &'static str = "PLAZER_DB_NAMESPACE";

pub const ENV_VAR_DATABASE: &'static str = "PLAZER_DB_DATABASE";

pub const ENV_VAR_PRIVATE_KEY: &'static str = "PLAZER_PRIVATE_KEY";

pub const ENV_VAR_PRIVATE_KEY_PATH: &'static str = "PLAZER_PRIVATE_KEY_PATH";

pub const ENV_VAR_LOG_DIR: &'static str = "PLAZER_LOG_DIR";

pub const ENV_VAR_LOG_LEVEL_STDOUT: &'static str = "PLAZER_LOG_LEVEL_STDOUT";

pub const ENV_VAR_LOG_LEVEL_FILE: &'static str = "PLAZER_LOG_LEVEL_FILE";

pub const ENV_VAR_HOST: &'static str = "PLAZER_HOST";

pub const ENV_VAR_PORT: &'static str = "PLAZER_PORT";

#[derive(Debug, Copy, Clone, PartialEq, Eq, Structural)]
pub enum LogLevel {
    /// Only show errors
    Error,
    /// Show errors and warnings
    Warn,
    /// Show info and above
    Info,
    /// Show debug and above
    Debug,
    /// Show all logs
    Trace,
}

/// What the environment holds under one name.
#[derive(Debug, Clone, PartialEq, Eq)]
pub enum EnvValue {
    Present(String),
    Absent,
    /// The variable is set, to something that is not Unicode.
    NotUnicode,
}

/// Why no configuration could be made.
#[derive(Debug, Clone, PartialEq, Eq)]
pub enum ConfigError {
    /// The named environment variable is not valid Unicode.
    EnvNotUnicode { var: String },
    /// The named environment variable holds a value that is no number of the kind asked
    /// for.
    EnvInvalid { var: String, value: String },
    /// The named environment variable holds a value that names no log level; `value`
    /// is what it holds, in lower case.
    LogLevelInvalid { var: String, value: String },
    /// No private key is at the path, and none may be created.
    PrivateKeyNotFound { path: String },
    /// The private key could not be read.
    PrivateKeyUnreadable,
}

/// Leave to create a private key where none is found. Who creates it, and how, is the
/// caller's business.
#[derive(Debug, Copy, Clone, PartialEq, Eq, Structural)]
pub struct PrivateKeyCreate;

/// The lower-case form of an ASCII capital, and every other character as it is.
pub open spec fn lower_char(c: char) -> char {
    if 'A' <= c && c <= 'Z' {
        ((c as u8) + 32) as char
    } else {
        c
    }
}

/// `text` with its ASCII capitals in lower case.
pub open spec fn lowered(text: Seq<char>) -> Seq<char> {
    text.map_values(|c: char| lower_char(c))
}

/// The value of a decimal digit.
pub open spec fn digit(c: char) -> Option<int> {
    if '0' <= c && c <= '9' {
        Some(c as int - '0' as int)
    } else {
        None
    }
}

/// The number that a run of decimal digits stands for; none for an empty run, and for a
/// run that holds anything else.
pub open spec fn decimal(text: Seq<char>) -> Option<int>
    decreases text.len(),
{
    if text.len() == 0 {
        None
    } else if text.len() == 1 {
        digit(text[0])
    } else {
        match (decimal(text.drop_last()), digit(text.last())) {
            (Some(high), Some(low)) => Some(10 * high + low),
            _ => None,
        }
    }
}

/// The port that `text` stands for: decimal digits, after a plus sign or without one,
/// that give a number of sixteen bits.
pub open spec fn port_number(text: Seq<char>) -> Option<u16> {
    let digits = if text.len() > 0 && text[0] == '+' {
        text.drop_first()
    } else {
        text
    };
    match decimal(digits) {
        Some(n) => if n <= u16::MAX {
            Some(n as u16)
        } else {
            None
        },
        None => None,
    }
}

/// Calls `str::to_ascii_lowercase`. Trusted: the ASCII capitals come back in lower case,
/// and every other character as it is.
#[verifier::external_body]
fn ascii_lowercase(text: &str) -> (lower: String)
    ensures
        lower@ == lowered(text@),
{
    text.to_ascii_lowercase()
}

/// What the `Debug` formatting of a string writes: the text between double quotes, with
/// what would not show, or would end the quotation, written as an escape.
pub uninterp spec fn quoted_text(text: Seq<char>) -> Seq<char>;

/// Calls the `Debug` formatting of `str`. Trusted: what it writes depends on the text
/// alone.
#[verifier::external_body]
fn quoted(text: &str) -> (out: String)
    ensures
        out@ == quoted_text(text@),
{
    format!("{:?}", text)
}

/// A run of digits that stands for a number has only such runs as its starts, and none of
/// them stands for more than the whole.
proof fn lemma_decimal_start(text: Seq<char>, k: int)
    requires
        1 <= k <= text.len(),
        decimal(text) is Some,
    ensures
        decimal(text.take(k)) matches Some(m) && 0 <= m <= decimal(text)->0,
        digit(text[k - 1]) is Some,
    decreases text.len(),
{
    if k == text.len() {
        assert(text.take(k) =~= text);
        if text.len() > 1 {
            lemma_decimal_start(text.drop_last(), k - 1);
        }
    } else {
        lemma_decimal_start(text.drop_last(), k);
        assert(text.drop_last().take(k) =~= text.take(k));
    }
}

/// Reads a port: decimal digits, after a plus sign or without one, that give a number of
/// sixteen bits.
fn parse_u16(text: &str) -> (port: Option<u16>)
    ensures
        port == port_number(text@),
{
    let len = text.unicode_len();
    let start: usize = if len > 0 && text.get_char(0) == '+' {
        1
    } else {
        0
    };
    let ghost digits = if text@.len() > 0 && text@[0] == '+' {
        text@.drop_first()
    } else {
        text@
    };
    assert(digits =~= text@.subrange(start as int, len as int));
    let mut value: u32 = 0;
    let mut at = start;
    while at < len
        invariant
            start <= at <= len,
            len == text@.len(),
            digits == text@.subrange(start as int, len as int),
            digits == if text@.len() > 0 && text@[0] == '+' {
                text@.drop_first()
            } else {
                text@
            },
            at == start ==> value == 0,
            at > start ==> decimal(digits.take(at - start)) == Some(value as int),
            value <= u16::MAX,
        decreases len - at,
    {
        let code = text.get_char(at) as u32;
        let ghost read = at - start + 1;
        assert(digits[read - 1] == text@[at as int]);
        if code < 48 || code > 57 {
            proof {
                if decimal(digits) is Some {
                    lemma_decimal_start(digits, read);
                }
            }
            return None;
        }
        let next = value * 10 + (code - 48);
        assert(decimal(digits.take(read)) == Some(next as int)) by {
            assert(digit(digits[read - 1]) == Some(code - 48));
            assert(digits.take(read).last() == digits[read - 1]);
            assert(digits.take(read).drop_last() =~= digits.take(read - 1));
        }
        if next > 65535 {
            proof {
                if decimal(digits) is Some {
                    lemma_decimal_start(digits, read);
                }
            }
            return None;
        }
        value = next;
        at += 1;
    }
    if at == start {
        None
    } else {
        assert(digits.take(at - start) =~= digits);
        Some(value as u16)
    }
}

impl LogLevel {
    /// The name of the level, in lower case.
    pub open spec fn name(self) -> Seq<char> {
        match self {
            LogLevel::Error => "error"@,
            LogLevel::Warn => "warn"@,
            LogLevel::Info => "info"@,
            LogLevel::Debug => "debug"@,
            LogLevel::Trace => "trace"@,
        }
    }

    /// The level whose name is `lower`.
    pub open spec fn called(lower: Seq<char>) -> Option<LogLevel> {
        if lower == "error"@ {
            Some(LogLevel::Error)
        } else if lower == "warn"@ {
            Some(LogLevel::Warn)
        } else if lower == "info"@ {
            Some(LogLevel::Info)
        } else if lower == "debug"@ {
            Some(LogLevel::Debug)
        } else if lower == "trace"@ {
            Some(LogLevel::Trace)
        } else {
            None
        }
    }

    /// The level that `text` names, in whatever case.
    pub open spec fn named(text: Seq<char>) -> Option<LogLevel> {
        LogLevel::called(lowered(text))
    }

    pub fn as_str(&self) -> (name: &'static str)
        ensures
            name@ == self.name(),
    {
        match self {
            LogLevel::Error => "error",
            LogLevel::Warn => "warn",
            LogLevel::Info => "info",
            LogLevel::Debug => "debug",
            LogLevel::Trace => "trace",
        }
    }

    /// Reads a level by its name in lower case.
    pub fn from_name(lower: &str) -> (level: Option<LogLevel>)
        ensures
            level == LogLevel::called(lower@),
    {
        if str_eq(lower, "error") {
            Some(LogLevel::Error)
        } else if str_eq(lower, "warn") {
            Some(LogLevel::Warn)
        } else if str_eq(lower, "info") {
            Some(LogLevel::Info)
        } else if str_eq(lower, "debug") {
            Some(LogLevel::Debug)
        } else if str_eq(lower, "trace") {
            Some(LogLevel::Trace)
        } else {
            None
        }
    }

    /// Reads a level by its name, in whatever case.
    pub fn parse(text: &str) -> (level: Option<LogLevel>)
        ensures
            level == LogLevel::named(text@),
    {
        let lower = ascii_lowercase(text);
        LogLevel::from_name(lower.as_str())
    }
}

impl ConfigError {
    /// The sentence that describes the error.
    pub open spec fn message_text(&self) -> Seq<char> {
        match self {
            ConfigError::EnvNotUnicode { var } => "Environment variable "@ + var@
                + " is not valid unicode"@,
            ConfigError::EnvInvalid { var, value } => "Invalid value `"@ + value@
                + "` in environment variable "@ + var@,
            ConfigError::LogLevelInvalid { var, value } => "Invalid log level "@ + quoted_text(
                value@,
            ) + " in environment variable "@ + var@,
            ConfigError::PrivateKeyNotFound { path } => "Private key not found at "@ + path@,
            ConfigError::PrivateKeyUnreadable => "Unable to read private key"@,
        }
    }

    pub fn message(&self) -> (message: String)
        ensures
            message@ == self.message_text(),
    {
        match self {
            ConfigError::EnvNotUnicode { var } => {
                let mut message = "Environment variable ".to_owned();
                message.append(var.as_str());
                message.append(" is not valid unicode");
                message
            },
            ConfigError::EnvInvalid { var, value } => {
                let mut message = "Invalid value `".to_owned();
                message.append(value.as_str());
                message.append("` in environment variable ");
                message.append(var.as_str());
                message
            },
            ConfigError::LogLevelInvalid { var, value } => {
                let mut message = "Invalid log level ".to_owned();
                message.append(quoted(value.as_str()).as_str());
                message.append(" in environment variable ");
                message.append(var.as_str());
                message
            },
            ConfigError::PrivateKeyNotFound { path } => {
                let mut message = "Private key not found at ".to_owned();
                message.append(path.as_str());
                message
            },
            ConfigError::PrivateKeyUnreadable => "Unable to read private key".to_owned(),
        }
    }
}

/// What one setting resolves to, or why it does not.
pub enum Choice<V> {
    Value(V),
    /// The environment variable is not Unicode.
    NotUnicode,
    /// The environment variable holds a text that does not stand for a value. This is the
    /// text that the error reports.
    Invalid(Seq<char>),
}

/// What the environment gives for a setting that is not set on the command line, where it
/// gives anything.
pub open spec fn env_text(env: EnvValue) -> Choice<Option<Seq<char>>> {
    match env {
        EnvValue::Present(value) => Choice::Value(Some(value@)),
        EnvValue::Absent => Choice::Value(None),
        EnvValue::NotUnicode => Choice::NotUnicode,
    }
}

/// The text setting that is chosen: the argument, else the environment, else the file,
/// else the default.
pub open spec fn str_choice(
    arg: Option<Seq<char>>,
    env: EnvValue,
    file: Option<Seq<char>>,
    default: Seq<char>,
) -> Choice<Seq<char>> {
    match arg {
        Some(arg) => Choice::Value(arg),
        None => match env {
            EnvValue::Present(value) => Choice::Value(value@),
            EnvValue::Absent => Choice::Value(
                match file {
                    Some(file) => file,
                    None => default,
                },
            ),
            EnvValue::NotUnicode => Choice::NotUnicode,
        },
    }
}

/// The port that is chosen: the argument, else the environment, else the file, else the
/// default.
pub open spec fn port_choice(arg: Option<u16>, env: EnvValue, file: Option<u16>, default: u16)
    -> Choice<u16> {
    match arg {
        Some(arg) => Choice::Value(arg),
        None => match env {
            EnvValue::Present(value) => match port_number(value@) {
                Some(port) => Choice::Value(port),
                None => Choice::Invalid(value@),
            },
            EnvValue::Absent => Choice::Value(
                match file {
                    Some(file) => file,
                    None => default,
                },
            ),
            EnvValue::NotUnicode => Choice::NotUnicode,
        },
    }
}

/// The log level that is chosen: the argument, else the environment, else the file, else
/// the default.
pub open spec fn level_choice(
    arg: Option<LogLevel>,
    env: EnvValue,
    file: Option<LogLevel>,
    default: LogLevel,
) -> Choice<LogLevel> {
    match arg {
        Some(arg) => Choice::Value(arg),
        None => match env {
            EnvValue::Present(value) => match LogLevel::named(value@) {
                Some(level) => Choice::Value(level),
                None => Choice::Invalid(lowered(value@)),
            },
            EnvValue::Absent => Choice::Value(
                match file {
                    Some(file) => file,
                    None => default,
                },
            ),
            EnvValue::NotUnicode => Choice::NotUnicode,
        },
    }
}

/// `err` says of the variable `var` what `choice` says.
pub open spec fn reports<V>(err: ConfigError, var: Seq<char>, choice: Choice<V>, level: bool)
    -> bool {
    match choice {
        Choice::Value(_) => false,
        Choice::NotUnicode => err matches ConfigError::EnvNotUnicode { var: name } && name@ == var,
        Choice::Invalid(text) => if level {
            err matches ConfigError::LogLevelInvalid { var: name, value } && name@ == var
                && value@ == text
        } else {
            err matches ConfigError::EnvInvalid { var: name, value } && name@ == var && value@
                == text
        },
    }
}

/// What the environment holds under `env_var`, as text.
pub fn env_value(env_var: &str, env: EnvValue) -> (res: Result<Option<String>, ConfigError>)
    ensures
        match res {
            Ok(value) => env_text(env) == Choice::Value(text_of(value)),
            Err(err) => reports(err, env_var@, env_text(env), false),
        },
{
    match env {
        EnvValue::Present(value) => Ok(Some(value)),
        EnvValue::Absent => Ok(None),
        EnvValue::NotUnicode => Err(ConfigError::EnvNotUnicode { var: env_var.to_owned() }),
    }
}

/// Resolves a text setting.
pub fn config_str_value(
    arg: Option<String>,
    env_var: &str,
    env: EnvValue,
    file: Option<String>,
    default: &str,
) -> (res: Result<String, ConfigError>)
    ensures
        match res {
            Ok(value) => str_choice(text_of(arg), env, text_of(file), default@) == Choice::Value(
                value@,
            ),
            Err(err) => reports(
                err,
                env_var@,
                str_choice(text_of(arg), env, text_of(file), default@),
                false,
            ),
        },
{
    match arg {
        Some(arg) => Ok(arg),
        None => match env_value(env_var, env) {
            Ok(Some(value)) => Ok(value),
            Ok(None) => match file {
                Some(file) => Ok(file),
                None => Ok(default.to_owned()),
            },
            Err(err) => Err(err),
        },
    }
}

/// Resolves the port.
pub fn config_parsed_value(
    arg: Option<u16>,
    env_var: &str,
    env: EnvValue,
    file: Option<u16>,
    default: u16,
) -> (res: Result<u16, ConfigError>)
    ensures
        match res {
            Ok(value) => port_choice(arg, env, file, default) == Choice::Value(value),
            Err(err) => reports(err, env_var@, port_choice(arg, env, file, default), false),
        },
{
    match arg {
        Some(arg) => Ok(arg),
        None => match env_value(env_var, env) {
            Ok(Some(value)) => match parse_u16(value.as_str()) {
                Some(port) => Ok(port),
                None => Err(ConfigError::EnvInvalid { var: env_var.to_owned(), value }),
            },
            Ok(None) => match file {
                Some(file) => Ok(file),
                None => Ok(default),
            },
            Err(err) => Err(err),
        },
    }
}

/// Resolves a log level.
pub fn config_level_value(
    arg: Option<LogLevel>,
    env_var: &str,
    env: EnvValue,
    file: Option<LogLevel>,
    default: LogLevel,
) -> (res: Result<LogLevel, ConfigError>)
    ensures
        match res {
            Ok(value) => level_choice(arg, env, file, default) == Choice::Value(value),
            Err(err) => reports(err, env_var@, level_choice(arg, env, file, default), true),
        },
{
    match arg {
        Some(arg) => Ok(arg),
        None => match env_value(env_var, env) {
            Ok(Some(value)) => {
                let lower = ascii_lowercase(value.as_str());
                match LogLevel::from_name(lower.as_str()) {
                    Some(level) => Ok(level),
                    None => Err(
                        ConfigError::LogLevelInvalid { var: env_var.to_owned(), value: lower },
                    ),
                }
            },
            Ok(None) => match file {
                Some(file) => Ok(file),
                None => Ok(default),
            },
            Err(err) => Err(err),
        },
    }
}

/// The settings as far as one source gives them: the command line, or the configuration
/// file.
#[derive(Debug, Clone, PartialEq, Eq)]
pub struct ServiceConfigBuilder {
    pub address: Option<String>,
    pub namespace: Option<String>,
    pub database: Option<String>,
    pub private_key: Option<String>,
    pub private_key_path: Option<String>,
    pub private_key_create: Option<PrivateKeyCreate>,
    pub log_dir: Option<String>,
    pub log_level_stdout: Option<LogLevel>,
    pub log_level_file: Option<LogLevel>,
    pub host: Option<String>,
    pub port: Option<u16>,
}

/// What the environment holds under the names of the settings.
#[derive(Debug, Clone, PartialEq, Eq)]
pub struct Environment {
    pub address: EnvValue,
    pub namespace: EnvValue,
    pub database: EnvValue,
    pub private_key: EnvValue,
    pub private_key_path: EnvValue,
    pub log_dir: EnvValue,
    pub log_level_stdout: EnvValue,
    pub log_level_file: EnvValue,
    pub host: EnvValue,
    pub port: EnvValue,
}

/// The settings, each of them resolved.
#[derive(Debug, Clone, PartialEq, Eq)]
pub struct ServiceConfig {
    pub address: String,
    pub namespace: String,
    pub database: String,
    pub private_key: Option<String>,
    pub private_key_path: String,
    pub private_key_create: Option<PrivateKeyCreate>,
    pub log_dir: String,
    pub log_level_stdout: LogLevel,
    pub log_level_file: LogLevel,
    pub host: String,
    pub port: u16,
}

/// Where the logs go, and which of them.
#[derive(Debug, Clone, PartialEq, Eq)]
pub struct LogConfig {
    pub dir: String,
    pub level_stdout: LogLevel,
    pub level_file: LogLevel,
}

/// Where the private key is to be had from.
#[derive(Debug, Clone, PartialEq, Eq)]
pub enum KeySource {
    /// The configuration holds the key itself.
    Inline(String),
    /// The key is in the file at this path.
    File(String),
}

/// What reading the file of the private key gave.
#[derive(Debug, Clone, PartialEq, Eq)]
pub enum KeyRead {
    Found(String),
    NotFound,
    Failed,
}

/// What to do once the file of the private key was read.
#[derive(Debug, Clone, PartialEq, Eq)]
pub enum KeyStep {
    /// Use this key.
    Use(String),
    /// Create a key at this path, and use it.
    Create(String),
}

impl Default for ServiceConfigBuilder {
    fn default() -> (cfg: Self)
        ensures
            cfg == ServiceConfigBuilder::unset(),
    {
        ServiceConfigBuilder {
            address: None,
            namespace: None,
            database: None,
            private_key: None,
            private_key_path: None,
            private_key_create: None,
            log_dir: None,
            log_level_stdout: None,
            log_level_file: None,
            host: None,
            port: None,
        }
    }
}

impl ServiceConfigBuilder {
    /// The builder that holds no setting.
    pub open spec fn unset() -> Self {
        ServiceConfigBuilder {
            address: None,
            namespace: None,
            database: None,
            private_key: None,
            private_key_path: None,
            private_key_create: None,
            log_dir: None,
            log_level_stdout: None,
            log_level_file: None,
            host: None,
            port: None,
        }
    }

    #[must_use]
    pub fn new() -> (cfg: Self)
        ensures
            cfg == ServiceConfigBuilder::unset(),
    {
        ServiceConfigBuilder::default()
    }

    #[must_use]
    pub fn address(self, address: &str) -> (cfg: Self)
        ensures
            text_of(cfg.address) == Some(address@),
            cfg == (ServiceConfigBuilder { address: cfg.address, ..self }),
    {
        let mut cfg = self;
        cfg.address = Some(address.to_owned());
        cfg
    }

    #[must_use]
    pub fn set_address(self, address: Option<String>) -> (cfg: Self)
        ensures
            cfg == (ServiceConfigBuilder { address, ..self }),
    {
        let mut cfg = self;
        cfg.address = address;
        cfg
    }

    #[must_use]
    pub fn namespace(self, namespace: &str) -> (cfg: Self)
        ensures
            text_of(cfg.namespace) == Some(namespace@),
            cfg == (ServiceConfigBuilder { namespace: cfg.namespace, ..self }),
    {
        let mut cfg = self;
        cfg.namespace = Some(namespace.to_owned());
        cfg
    }

    #[must_use]
    pub fn set_namespace(self, namespace: Option<String>) -> (cfg: Self)
        ensures
            cfg == (ServiceConfigBuilder { namespace, ..self }),
    {
        let mut cfg = self;
        cfg.namespace = namespace;
        cfg
    }

    #[must_use]
    pub fn database(self, database: &str) -> (cfg: Self)
        ensures
            text_of(cfg.database) == Some(database@),
            cfg == (ServiceConfigBuilder { database: cfg.database, ..self }),
    {
        let mut cfg = self;
        cfg.database = Some(database.to_owned());
        cfg
    }

    #[must_use]
    pub fn set_database(self, database: Option<String>) -> (cfg: Self)
        ensures
            cfg == (ServiceConfigBuilder { database, ..self }),
    {
        let mut cfg = self;
        cfg.database = database;
        cfg
    }

    #[must_use]
    pub fn private_key(self, private_key: &str) -> (cfg: Self)
        ensures
            text_of(cfg.private_key) == Some(private_key@),
            cfg == (ServiceConfigBuilder { private_key: cfg.private_key, ..self }),
    {
        let mut cfg = self;
        cfg.private_key = Some(private_key.to_owned());
        cfg
    }

    #[must_use]
    pub fn set_private_key(self, private_key: Option<String>) -> (cfg: Self)
        ensures
            cfg == (ServiceConfigBuilder { private_key, ..self }),
    {
        let mut cfg = self;
        cfg.private_key = private_key;
        cfg
    }

    #[must_use]
    pub fn private_key_path(self, private_key_path: &str) -> (cfg: Self)
        ensures
            text_of(cfg.private_key_path) == Some(private_key_path@),
            cfg == (ServiceConfigBuilder { private_key_path: cfg.private_key_path, ..self }),
    {
        let mut cfg = self;
        cfg.private_key_path = Some(private_key_path.to_owned());
        cfg
    }

    #[must_use]
    pub fn set_private_key_path(self, private_key_path: Option<String>) -> (cfg: Self)
        ensures
            cfg == (ServiceConfigBuilder { private_key_path, ..self }),
    {
        let mut cfg = self;
        cfg.private_key_path = private_key_path;
        cfg
    }

    #[must_use]
    pub fn private_key_create(self, private_key_create: PrivateKeyCreate) -> (cfg: Self)
        ensures
            cfg.private_key_create == Some(private_key_create),
            cfg == (ServiceConfigBuilder { private_key_create: cfg.private_key_create, ..self }),
    {
        let mut cfg = self;
        cfg.private_key_create = Some(private_key_create);
        cfg
    }

    #[must_use]
    pub fn set_private_key_create(self, private_key_create: Option<PrivateKeyCreate>) -> (cfg: Self)
        ensures
            cfg == (ServiceConfigBuilder { private_key_create, ..self }),
    {
        let mut cfg = self;
        cfg.private_key_create = private_key_create;
        cfg
    }

    #[must_use]
    pub fn log_dir(self, log_dir: &str) -> (cfg: Self)
        ensures
            text_of(cfg.log_dir) == Some(log_dir@),
            cfg == (ServiceConfigBuilder { log_dir: cfg.log_dir, ..self }),
    {
        let mut cfg = self;
        cfg.log_dir = Some(log_dir.to_owned());
        cfg
    }

    #[must_use]
    pub fn set_log_dir(self, log_dir: Option<String>) -> (cfg: Self)
        ensures
            cfg == (ServiceConfigBuilder { log_dir, ..self }),
    {
        let mut cfg = self;
        cfg.log_dir = log_dir;
        cfg
    }

    #[must_use]
    pub fn log_level_stdout(self, log_level_stdout: LogLevel) -> (cfg: Self)
        ensures
            cfg.log_level_stdout == Some(log_level_stdout),
            cfg == (ServiceConfigBuilder { log_level_stdout: cfg.log_level_stdout, ..self }),
    {
        let mut cfg = self;
        cfg.log_level_stdout = Some(log_level_stdout);
        cfg
    }

    #[must_use]
    pub fn set_log_level_stdout(self, log_level_stdout: Option<LogLevel>) -> (cfg: Self)
        ensures
            cfg == (ServiceConfigBuilder { log_level_stdout, ..self }),
    {
        let mut cfg = self;
        cfg.log_level_stdout = log_level_stdout;
        cfg
    }

    #[must_use]
    pub fn log_level_file(self, log_level_file: LogLevel) -> (cfg: Self)
        ensures
            cfg.log_level_file == Some(log_level_file),
            cfg == (ServiceConfigBuilder { log_level_file: cfg.log_level_file, ..self }),
    {
        let mut cfg = self;
        cfg.log_level_file = Some(log_level_file);
        cfg
    }

    #[must_use]
    pub fn set_log_level_file(self, log_level_file: Option<LogLevel>) -> (cfg: Self)
        ensures
            cfg == (ServiceConfigBuilder { log_level_file, ..self }),
    {
        let mut cfg = self;
        cfg.log_level_file = log_level_file;
        cfg
    }

    #[must_use]
    pub fn host(self, host: &str) -> (cfg: Self)
        ensures
            text_of(cfg.host) == Some(host@),
            cfg == (ServiceConfigBuilder { host: cfg.host, ..self }),
    {
        let mut cfg = self;
        cfg.host = Some(host.to_owned());
        cfg
    }

    #[must_use]
    pub fn set_host(self, host: Option<String>) -> (cfg: Self)
        ensures
            cfg == (ServiceConfigBuilder { host, ..self }),
    {
        let mut cfg = self;
        cfg.host = host;
        cfg
    }

    #[must_use]
    pub fn port(self, port: u16) -> (cfg: Self)
        ensures
            cfg.port == Some(port),
            cfg == (ServiceConfigBuilder { port: cfg.port, ..self }),
    {
        let mut cfg = self;
        cfg.port = Some(port);
        cfg
    }

    #[must_use]
    pub fn set_port(self, port: Option<u16>) -> (cfg: Self)
        ensures
            cfg == (ServiceConfigBuilder { port, ..self }),
    {
        let mut cfg = self;
        cfg.port = port;
        cfg
    }

    pub open spec fn address_choice(self, env: Environment, file: Self) -> Choice<Seq<char>> {
        str_choice(text_of(self.address), env.address, text_of(file.address), DEFAULT_ADDRESS@)
    }

    pub open spec fn namespace_choice(self, env: Environment, file: Self) -> Choice<Seq<char>> {
        str_choice(text_of(self.namespace), env.namespace, text_of(file.namespace), DEFAULT_NAMESPACE@)
    }

    pub open spec fn database_choice(self, env: Environment, file: Self) -> Choice<Seq<char>> {
        str_choice(text_of(self.database), env.database, text_of(file.database), DEFAULT_DATABASE@)
    }

    /// The private key that is chosen, where one is given: the argument, else the
    /// environment, else the file.
    pub open spec fn private_key_choice(self, env: Environment, file: Self) -> Choice<
        Option<Seq<char>>,
    > {
        match self.private_key {
            Some(key) => Choice::Value(Some(key@)),
            None => match env.private_key {
                EnvValue::Present(key) => Choice::Value(Some(key@)),
                EnvValue::Absent => Choice::Value(text_of(file.private_key)),
                EnvValue::NotUnicode => Choice::NotUnicode,
            },
        }
    }

    pub open spec fn private_key_path_choice(self, env: Environment, file: Self) -> Choice<Seq<char>> {
        str_choice(text_of(self.private_key_path), env.private_key_path, text_of(file.private_key_path), DEFAULT_PRIVATE_KEY_PATH@)
    }

    pub open spec fn log_dir_choice(self, env: Environment, file: Self) -> Choice<Seq<char>> {
        str_choice(text_of(self.log_dir), env.log_dir, text_of(file.log_dir), DEFAULT_LOG_DIR@)
    }

    pub open spec fn log_level_stdout_choice(self, env: Environment, file: Self) -> Choice<LogLevel> {
        level_choice(self.log_level_stdout, env.log_level_stdout, file.log_level_stdout, DEFAULT_LOG_LEVEL_STDOUT)
    }

    pub open spec fn log_level_file_choice(self, env: Environment, file: Self) -> Choice<LogLevel> {
        level_choice(self.log_level_file, env.log_level_file, file.log_level_file, DEFAULT_LOG_LEVEL_FILE)
    }

    pub open spec fn host_choice(self, env: Environment, file: Self) -> Choice<Seq<char>> {
        str_choice(text_of(self.host), env.host, text_of(file.host), DEFAULT_HOST@)
    }

    pub open spec fn port_choice(self, env: Environment, file: Self) -> Choice<u16> {
        port_choice(self.port, env.port, file.port, DEFAULT_PORT)
    }

    /// `cfg` holds what each setting resolves to.
    pub open spec fn builds(self, env: Environment, file: Self, cfg: ServiceConfig) -> bool {
        &&& self.address_choice(env, file) == Choice::Value(cfg.address@)
        &&& self.namespace_choice(env, file) == Choice::Value(cfg.namespace@)
        &&& self.database_choice(env, file) == Choice::Value(cfg.database@)
        &&& self.private_key_choice(env, file) == Choice::Value(text_of(cfg.private_key))
        &&& self.private_key_path_choice(env, file) == Choice::Value(cfg.private_key_path@)
        &&& self.log_dir_choice(env, file) == Choice::Value(cfg.log_dir@)
        &&& self.log_level_stdout_choice(env, file) == Choice::Value(cfg.log_level_stdout)
        &&& self.log_level_file_choice(env, file) == Choice::Value(cfg.log_level_file)
        &&& self.host_choice(env, file) == Choice::Value(cfg.host@)
        &&& self.port_choice(env, file) == Choice::Value(cfg.port)
        &&& cfg.private_key_create == self.private_key_create
    }

    /// The first `n` settings, in the order they are resolved in, resolve.
    pub open spec fn resolves_up_to(self, env: Environment, file: Self, n: int) -> bool {
        &&& n > 0 ==> self.address_choice(env, file) is Value
        &&& n > 1 ==> self.namespace_choice(env, file) is Value
        &&& n > 2 ==> self.database_choice(env, file) is Value
        &&& n > 3 ==> self.private_key_choice(env, file) is Value
        &&& n > 4 ==> self.private_key_path_choice(env, file) is Value
        &&& n > 5 ==> self.log_dir_choice(env, file) is Value
        &&& n > 6 ==> self.log_level_stdout_choice(env, file) is Value
        &&& n > 7 ==> self.log_level_file_choice(env, file) is Value
        &&& n > 8 ==> self.host_choice(env, file) is Value
        &&& n > 9 ==> self.port_choice(env, file) is Value
    }

    /// `err` says why the first setting that does not resolve does not.
    pub open spec fn fails(self, env: Environment, file: Self, err: ConfigError) -> bool {
        ||| reports(err, ENV_VAR_ADDRESS@, self.address_choice(env, file), false)
        ||| self.resolves_up_to(env, file, 1) && reports(err, ENV_VAR_NAMESPACE@, self.namespace_choice(env, file), false)
        ||| self.resolves_up_to(env, file, 2) && reports(err, ENV_VAR_DATABASE@, self.database_choice(env, file), false)
        ||| self.resolves_up_to(env, file, 3) && reports(err, ENV_VAR_PRIVATE_KEY@, self.private_key_choice(env, file), false)
        ||| self.resolves_up_to(env, file, 4) && reports(err, ENV_VAR_PRIVATE_KEY_PATH@, self.private_key_path_choice(env, file), false)
        ||| self.resolves_up_to(env, file, 5) && reports(err, ENV_VAR_LOG_DIR@, self.log_dir_choice(env, file), false)
        ||| self.resolves_up_to(env, file, 6) && reports(err, ENV_VAR_LOG_LEVEL_STDOUT@, self.log_level_stdout_choice(env, file), true)
        ||| self.resolves_up_to(env, file, 7) && reports(err, ENV_VAR_LOG_LEVEL_FILE@, self.log_level_file_choice(env, file), true)
        ||| self.resolves_up_to(env, file, 8) && reports(err, ENV_VAR_HOST@, self.host_choice(env, file), false)
        ||| self.resolves_up_to(env, file, 9) && reports(err, ENV_VAR_PORT@, self.port_choice(env, file), false)
    }

    /// Resolves every setting, in the order of the fields. The settings of `self` come
    /// first, then what `env` holds, then the settings of `file`, then the defaults. The
    /// first setting that does not resolve gives the error.
    pub fn build(self, env: Environment, file_config: ServiceConfigBuilder) -> (res: Result<
        ServiceConfig,
        ConfigError,
    >)
        ensures
            match res {
                Ok(cfg) => self.builds(env, file_config, cfg),
                Err(err) => self.fails(env, file_config, err),
            },
    {
        let ghost this = self;
        let ghost file = file_config;
        let address = match config_str_value(
            self.address,
            ENV_VAR_ADDRESS,
            env.address,
            file_config.address,
            DEFAULT_ADDRESS,
        ) {
            Ok(value) => value,
            Err(err) => {
                assert(this.resolves_up_to(env, file, 0));
                return Err(err);
            },
        };
        let namespace = match config_str_value(
            self.namespace,
            ENV_VAR_NAMESPACE,
            env.namespace,
            file_config.namespace,
            DEFAULT_NAMESPACE,
        ) {
            Ok(value) => value,
            Err(err) => {
                assert(this.resolves_up_to(env, file, 1));
                return Err(err);
            },
        };
        let database = match config_str_value(
            self.database,
            ENV_VAR_DATABASE,
            env.database,
            file_config.database,
            DEFAULT_DATABASE,
        ) {
            Ok(value) => value,
            Err(err) => {
                assert(this.resolves_up_to(env, file, 2));
                return Err(err);
            },
        };
        let private_key = match self.private_key {
            Some(key) => Some(key),
            None => match env_value(ENV_VAR_PRIVATE_KEY, env.private_key) {
                Ok(Some(key)) => Some(key),
                Ok(None) => file_config.private_key,
                Err(err) => {
                    assert(this.resolves_up_to(env, file, 3));
                    return Err(err);
                },
            },
        };
        let private_key_path = match config_str_value(
            self.private_key_path,
            ENV_VAR_PRIVATE_KEY_PATH,
            env.private_key_path,
            file_config.private_key_path,
            DEFAULT_PRIVATE_KEY_PATH,
        ) {
            Ok(value) => value,
            Err(err) => {
                assert(this.resolves_up_to(env, file, 4));
                return Err(err);
            },
        };
        let log_dir = match config_str_value(
            self.log_dir,
            ENV_VAR_LOG_DIR,
            env.log_dir,
            file_config.log_dir,
            DEFAULT_LOG_DIR,
        ) {
            Ok(value) => value,
            Err(err) => {
                assert(this.resolves_up_to(env, file, 5));
                return Err(err);
            },
        };
        let log_level_stdout = match config_level_value(
            self.log_level_stdout,
            ENV_VAR_LOG_LEVEL_STDOUT,
            env.log_level_stdout,
            file_config.log_level_stdout,
            DEFAULT_LOG_LEVEL_STDOUT,
        ) {
            Ok(value) => value,
            Err(err) => {
                assert(this.resolves_up_to(env, file, 6));
                return Err(err);
            },
        };
        let log_level_file = match config_level_value(
            self.log_level_file,
            ENV_VAR_LOG_LEVEL_FILE,
            env.log_level_file,
            file_config.log_level_file,
            DEFAULT_LOG_LEVEL_FILE,
        ) {
            Ok(value) => value,
            Err(err) => {
                assert(this.resolves_up_to(env, file, 7));
                return Err(err);
            },
        };
        let host = match config_str_value(
            self.host,
            ENV_VAR_HOST,
            env.host,
            file_config.host,
            DEFAULT_HOST,
        ) {
            Ok(value) => value,
            Err(err) => {
                assert(this.resolves_up_to(env, file, 8));
                return Err(err);
            },
        };
        let port = match config_parsed_value(
            self.port,
            ENV_VAR_PORT,
            env.port,
            file_config.port,
            DEFAULT_PORT,
        ) {
            Ok(value) => value,
            Err(err) => {
                assert(this.resolves_up_to(env, file, 9));
                return Err(err);
            },
        };
        Ok(
            ServiceConfig {
                address,
                namespace,
                database,
                private_key,
                private_key_path,
                private_key_create: self.private_key_create,
                log_dir,
                log_level_stdout,
                log_level_file,
                host,
                port,
            },
        )
    }
}

impl ServiceConfig {
    /// Where the logs go, and which of them.
    pub fn log_config(&self) -> (log: LogConfig)
        ensures
            log.dir@ == self.log_dir@,
            log.level_stdout == self.log_level_stdout,
            log.level_file == self.log_level_file,
    {
        LogConfig {
            dir: self.log_dir.clone(),
            level_stdout: self.log_level_stdout,
            level_file: self.log_level_file,
        }
    }

    /// Where the private key is to be had from: the configuration itself where it holds
    /// one, and else the file at the configured path.
    pub fn key_source(&self) -> (source: KeySource)
        ensures
            match self.private_key {
                Some(key) => source matches KeySource::Inline(inline) && inline@ == key@,
                None => source matches KeySource::File(path) && path@ == self.private_key_path@,
            },
    {
        match &self.private_key {
            Some(key) => KeySource::Inline(key.clone()),
            None => KeySource::File(self.private_key_path.clone()),
        }
    }

    /// What to do once the file of the private key was read: use the key that was found;
    /// where none was found, create one if that is allowed, and else give up; and give
    /// up where the file could not be read.
    pub fn key_after_read(&self, read: KeyRead) -> (res: Result<KeyStep, ConfigError>)
        ensures
            match read {
                KeyRead::Found(key) => res == Ok::<KeyStep, ConfigError>(KeyStep::Use(key)),
                KeyRead::NotFound => match self.private_key_create {
                    Some(_) => res matches Ok(KeyStep::Create(path)) && path@
                        == self.private_key_path@,
                    None => res matches Err(ConfigError::PrivateKeyNotFound { path }) && path@
                        == self.private_key_path@,
                },
                KeyRead::Failed => res == Err::<KeyStep, ConfigError>(
                    ConfigError::PrivateKeyUnreadable,
                ),
            },
    {
        match read {
            KeyRead::Found(key) => Ok(KeyStep::Use(key)),
            KeyRead::NotFound => match self.private_key_create {
                Some(_) => Ok(KeyStep::Create(self.private_key_path.clone())),
                None => Err(
                    ConfigError::PrivateKeyNotFound { path: self.private_key_path.clone() },
                ),
            },
            KeyRead::Failed => Err(ConfigError::PrivateKeyUnreadable),
        }
    }
}

} // verus!
