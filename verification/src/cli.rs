//! From command-line arguments and an optional configuration file to a
//! validated [`Config`].
//!
//! Reading the arguments and the file is the caller's part. What is decided
//! here is which source wins, what is checked, in which order, and which
//! fault is reported.

use crate::toml::{Config, ConfigView, Receiver, ReceiverView, Service, ServiceView, DEFAULT_DASHBOARD_PORT};
use vstd::prelude::*;
use vstd::utf8::encode_utf8;

verus! {

/// Length, in bytes, of a sender identifier.
pub const UUID_LENGTH: usize = 16;

/// Why no configuration could be built.
#[derive(Clone, Copy, Debug, PartialEq, Eq, Structural)]
pub enum ConfigError {
    /// Neither file nor arguments name the collector's URL.
    MissingUrl,
    /// The collector's URL is not an absolute URL.
    InvalidUrl,
    /// Neither file nor arguments name the sender identifier.
    MissingUuid,
    /// The sender identifier is not 16 bytes of letters and digits.
    InvalidUuid,
    /// The configuration file sets the receiver's port to 0.
    ZeroPort,
}

/// Whether `input` parses as an absolute URL.
pub uninterp spec fn url_parses(input: Seq<char>) -> bool;

/// Whether `c` is a letter or a digit in the sense of Unicode.
pub uninterp spec fn alphanumeric(c: char) -> bool;

/// `url::ParseError`, the parser's error. It is carried, never looked into.
#[verifier::external_type_specification]
#[verifier::external_body]
pub struct ExParseError(url::ParseError);

/// `std::path::PathBuf`, the path of the configuration file. It is carried,
/// never looked into.
#[verifier::external_type_specification]
#[verifier::external_body]
pub struct ExPathBuf(std::path::PathBuf);

/// Calls `url::Url::parse` and drops the parsed URL.
///
/// Trusted: the call succeeds exactly on the strings that parse as an
/// absolute URL, and the same string always fares the same.
#[verifier::external_body]
fn parse_url(input: &str) -> (out: Result<(), url::ParseError>)
    ensures
        out is Ok <==> url_parses(input@),
{
    match url::Url::parse(input) {
        Ok(_) => Ok(()),
        Err(e) => Err(e),
    }
}

/// Calls `char::is_alphanumeric`.
///
/// Trusted: the answer depends on the character alone.
#[verifier::external_body]
fn is_alphanumeric(c: char) -> (yes: bool)
    ensures
        yes == alphanumeric(c),
{
    c.is_alphanumeric()
}

/// A well-formed sender identifier: 16 bytes of UTF-8, every character a
/// letter or a digit.
pub open spec fn valid_uuid(uuid: Seq<char>) -> bool {
    &&& encode_utf8(uuid).len() == UUID_LENGTH
    &&& forall|i: int| 0 <= i < uuid.len() ==> alphanumeric(#[trigger] uuid[i])
}

/// Checks the form of a sender identifier.
pub fn is_valid_uuid(uuid: &str) -> (valid: bool)
    ensures
        valid == valid_uuid(uuid@),
{
    if uuid.as_bytes().len() != UUID_LENGTH {
        return false;
    }
    let count: usize = uuid.unicode_len();
    let mut i: usize = 0;
    while i < count
        invariant
            i <= count,
            count == uuid@.len(),
            encode_utf8(uuid@).len() == UUID_LENGTH,
            forall|j: int| 0 <= j < i ==> alphanumeric(#[trigger] uuid@[j]),
        decreases count - i,
    {
        if !is_alphanumeric(uuid.get_char(i)) {
            return false;
        }
        i = i + 1;
    }
    true
}

/// The verdict on a configuration whose URL was found to parse or not:
/// the receiver's port is checked first, then the URL, then the sender
/// identifier.
pub open spec fn config_verdict(config: ConfigView, url_ok: bool) -> Result<(), ConfigError> {
    if config.receiver.port == 0 {
        Err(ConfigError::ZeroPort)
    } else if !url_ok {
        Err(ConfigError::InvalidUrl)
    } else if !valid_uuid(config.service.uuid) {
        Err(ConfigError::InvalidUuid)
    } else {
        Ok(())
    }
}

/// Validates a configuration, given what parsing its URL gave.
pub fn validate_parsed(config: &Config, parsed: Result<(), url::ParseError>) -> (out: Result<
    (),
    ConfigError,
>)
    ensures
        out == config_verdict(config@, parsed is Ok),
{
    if config.receiver.port == 0 {
        return Err(ConfigError::ZeroPort);
    }
    match parsed {
        Ok(_) => {},
        Err(_) => {
            return Err(ConfigError::InvalidUrl);
        },
    }
    if !is_valid_uuid(config.service.uuid.as_str()) {
        return Err(ConfigError::InvalidUuid);
    }
    Ok(())
}

/// Validates a loaded configuration.
pub fn validate_config(config: &Config) -> (out: Result<(), ConfigError>)
    ensures
        out == config_verdict(config@, url_parses(config.service.url@)),
{
    let parsed = parse_url(config.service.url.as_str());
    validate_parsed(config, parsed)
}

/// The command-line arguments of the relay.
#[derive(Clone, Debug, PartialEq, Eq)]
pub struct Args {
    /// Receiver ip
    pub receiver_ip: String,
    /// Receiver port
    pub receiver_port: u16,
    /// Service url
    pub service_url: Option<String>,
    /// Service uuid
    pub service_uuid: Option<String>,
    /// Dashboard port
    pub dashboard_port: u16,
    /// Path of a configuration file that replaces the endpoint arguments
    pub config: Option<std::path::PathBuf>,
}

/// View of a result that carries a configuration.
pub open spec fn config_view(out: Result<Config, ConfigError>) -> Result<ConfigView, ConfigError> {
    match out {
        Ok(config) => Ok(config@),
        Err(e) => Err(e),
    }
}

impl Args {
    /// The configuration that the arguments alone describe, given whether
    /// the URL among them parses: the URL must be there and parse, then the
    /// sender identifier must be there and be well formed.
    pub open spec fn flags_config(self, url_ok: bool) -> Result<ConfigView, ConfigError> {
        match (self.service_url, self.service_uuid) {
            (None, _) => Err(ConfigError::MissingUrl),
            (Some(_), _) if !url_ok => Err(ConfigError::InvalidUrl),
            (Some(_), None) => Err(ConfigError::MissingUuid),
            (Some(url), Some(uuid)) => if !valid_uuid(uuid@) {
                Err(ConfigError::InvalidUuid)
            } else {
                Ok(
                    ConfigView {
                        receiver: ReceiverView { ip: self.receiver_ip@, port: self.receiver_port },
                        service: ServiceView { url: url@, uuid: uuid@ },
                        dashboard_port: self.dashboard_port,
                    },
                )
            },
        }
    }

    /// A loaded configuration with the dashboard port of the command line
    /// put in its place, unless that is the default.
    pub open spec fn overridden(self, loaded: ConfigView) -> ConfigView {
        ConfigView {
            dashboard_port: if self.dashboard_port != DEFAULT_DASHBOARD_PORT {
                self.dashboard_port
            } else {
                loaded.dashboard_port
            },
            ..loaded
        }
    }

    /// The configuration that a loaded file gives under these arguments.
    pub open spec fn file_config(self, loaded: ConfigView) -> Result<ConfigView, ConfigError> {
        match config_verdict(self.overridden(loaded), url_parses(loaded.service.url)) {
            Ok(_) => Ok(self.overridden(loaded)),
            Err(e) => Err(e),
        }
    }

    /// Whether the URL given on the command line parses; of no account when
    /// none is given.
    pub open spec fn flag_url_parses(self) -> bool {
        match self.service_url {
            Some(url) => url_parses(url@),
            None => false,
        }
    }

    /// Builds the configuration from the arguments alone, given what
    /// parsing the URL among them gave.
    pub fn config_from_flags(&self, parsed: Result<(), url::ParseError>) -> (out: Result<
        Config,
        ConfigError,
    >)
        ensures
            config_view(out) == self.flags_config(parsed is Ok),
    {
        let url = match &self.service_url {
            Some(url) => url,
            None => {
                return Err(ConfigError::MissingUrl);
            },
        };
        match parsed {
            Ok(_) => {},
            Err(_) => {
                return Err(ConfigError::InvalidUrl);
            },
        }
        let uuid = match &self.service_uuid {
            Some(uuid) => uuid,
            None => {
                return Err(ConfigError::MissingUuid);
            },
        };
        if !is_valid_uuid(uuid.as_str()) {
            return Err(ConfigError::InvalidUuid);
        }
        Ok(
            Config::new(
                Receiver::new(self.receiver_ip.clone(), self.receiver_port),
                Service::new(url.clone(), uuid.clone()),
                self.dashboard_port,
            ),
        )
    }

    /// Takes over a configuration loaded from a file: the dashboard port of
    /// the command line wins unless it is the default, and the result is
    /// validated.
    pub fn reload_config(&self, loaded: Config) -> (out: Result<Config, ConfigError>)
        ensures
            config_view(out) == self.file_config(loaded@),
    {
        let mut config = loaded;
        if self.dashboard_port != DEFAULT_DASHBOARD_PORT {
            config.dashboard_port = self.dashboard_port;
        }
        match validate_config(&config) {
            Ok(_) => Ok(config),
            Err(e) => Err(e),
        }
    }

    /// Builds the configuration of the relay. `loaded` is what the
    /// configuration file held, when one was named and could be read; it
    /// then replaces the endpoint arguments altogether.
    pub fn build_config(&self, loaded: Option<Config>) -> (out: Result<Config, ConfigError>)
        ensures
            config_view(out) == match loaded {
                Some(config) => self.file_config(config@),
                None => self.flags_config(self.flag_url_parses()),
            },
    {
        match loaded {
            Some(config) => self.reload_config(config),
            None => match &self.service_url {
                Some(url) => {
                    let parsed = parse_url(url.as_str());
                    self.config_from_flags(parsed)
                },
                None => Err(ConfigError::MissingUrl),
            },
        }
    }
}

/// How a fault is presented to the user of the command line.
#[derive(Clone, Copy, Debug, PartialEq, Eq, Structural)]
pub enum FaultKind {
    /// The configuration file could not be used.
    Io,
    /// An argument that is needed was not given.
    MissingRequiredArgument,
    /// An argument was given a value that cannot be used.
    InvalidValue,
}

impl ConfigError {
    /// The text that states this fault.
    pub open spec fn text(self) -> Seq<char> {
        match self {
            ConfigError::MissingUrl => "Server URL is required."@,
            ConfigError::InvalidUrl => "Invalid service URL"@,
            ConfigError::MissingUuid => "Server UUID is required."@,
            ConfigError::InvalidUuid => "Invalid UUID format"@,
            ConfigError::ZeroPort => "Receiver port cannot be 0"@,
        }
    }

    /// How the fault is presented: every fault of a configuration file
    /// counts against the file; among the arguments a fault is either a
    /// missing argument or an unusable value.
    pub open spec fn presented(self, from_file: bool) -> FaultKind {
        if from_file {
            FaultKind::Io
        } else {
            match self {
                ConfigError::MissingUrl | ConfigError::MissingUuid => {
                    FaultKind::MissingRequiredArgument
                },
                _ => FaultKind::InvalidValue,
            }
        }
    }

    /// The text that states this fault.
    pub fn message(&self) -> (text: &'static str)
        ensures
            text@ == self.text(),
    {
        match self {
            ConfigError::MissingUrl => "Server URL is required.",
            ConfigError::InvalidUrl => "Invalid service URL",
            ConfigError::MissingUuid => "Server UUID is required.",
            ConfigError::InvalidUuid => "Invalid UUID format",
            ConfigError::ZeroPort => "Receiver port cannot be 0",
        }
    }

    /// How the fault is presented, given whether the configuration came
    /// from a file.
    pub fn kind(&self, from_file: bool) -> (kind: FaultKind)
        ensures
            kind == self.presented(from_file),
    {
        if from_file {
            FaultKind::Io
        } else {
            match self {
                ConfigError::MissingUrl | ConfigError::MissingUuid => {
                    FaultKind::MissingRequiredArgument
                },
                _ => FaultKind::InvalidValue,
            }
        }
    }
}

/// Different faults are stated by different texts.
pub proof fn lemma_fault_texts_differ(a: ConfigError, b: ConfigError)
    requires
        a.text() == b.text(),
    ensures
        a == b,
{
    reveal_strlit("Server URL is required.");
    reveal_strlit("Invalid service URL");
    reveal_strlit("Server UUID is required.");
    reveal_strlit("Invalid UUID format");
    reveal_strlit("Receiver port cannot be 0");
    assert("Server URL is required."@.len() == 23);
    assert("Invalid service URL"@.len() == 19);
    assert("Server UUID is required."@.len() == 24);
    assert("Invalid UUID format"@.len() == 19);
    assert("Receiver port cannot be 0"@.len() == 25);
    assert("Invalid service URL"@[8] == 's');
    assert("Invalid UUID format"@[8] == 'U');
    assert(a.text().len() == b.text().len());
    assert(a.text()[8] == b.text()[8]);
}

} // verus!
