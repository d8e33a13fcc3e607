//! The settings of the service, and what becomes of them when the
//! configuration source cannot be used.
//!
//! Reading the source is the caller's work. The caller hands over what it
//! found under `server.host`, `server.port` and `database.path`, or the reason
//! why it found nothing; the rules are here.

use crate::text::{decimal, decimal_string};
use vstd::prelude::*;

verus! {

/// Where the server listens.
#[derive(Debug, Clone, PartialEq, Eq)]
pub struct ServerConfig {
    pub host: String,
    pub port: u16,
}

/// Where the dataset of constants lies.
#[derive(Debug, Clone, PartialEq, Eq)]
pub struct DatabaseConfig {
    pub path: String,
}

/// The settings of the service. They are made once and never change.
#[derive(Debug, Clone, PartialEq, Eq)]
pub struct Settings {
    pub server: ServerConfig,
    pub database: DatabaseConfig,
}

/// What the configuration source holds, as it was read: the port is any
/// integer.
#[derive(Debug, Clone, PartialEq, Eq)]
pub struct ConfigSource {
    pub host: String,
    pub port: i64,
    pub path: String,
}

/// Why there are no settings.
#[derive(Debug, Clone, PartialEq, Eq)]
pub enum ConfigError {
    /// The source could not be read or understood; the text says why.
    Unreadable(String),
    /// The source names a port that no listener can have.
    PortOutOfRange(i64),
}

/// Settings as plain values.
pub struct SettingsView {
    pub host: Seq<char>,
    pub port: int,
    pub path: Seq<char>,
}

/// A configuration error as plain values.
pub enum ConfigErrorView {
    Unreadable(Seq<char>),
    PortOutOfRange(int),
}

impl View for Settings {
    type V = SettingsView;

    open spec fn view(&self) -> SettingsView {
        SettingsView {
            host: self.server.host@,
            port: self.server.port as int,
            path: self.database.path@,
        }
    }
}

impl View for ConfigSource {
    type V = SettingsView;

    open spec fn view(&self) -> SettingsView {
        SettingsView { host: self.host@, port: self.port as int, path: self.path@ }
    }
}

impl View for ConfigError {
    type V = ConfigErrorView;

    open spec fn view(&self) -> ConfigErrorView {
        match self {
            ConfigError::Unreadable(why) => ConfigErrorView::Unreadable(why@),
            ConfigError::PortOutOfRange(port) => ConfigErrorView::PortOutOfRange(*port as int),
        }
    }
}

/// The settings that stand in when the source cannot be used.
pub open spec fn default_settings() -> SettingsView {
    SettingsView { host: "127.0.0.1"@, port: 8080, path: "data/constants.csv"@ }
}

/// What the source yields: its values as settings where the port fits a
/// listener, and else the reason why not.
pub open spec fn checked(source: Result<SettingsView, Seq<char>>) -> Result<
    SettingsView,
    ConfigErrorView,
> {
    match source {
        Ok(found) => if 0 <= found.port <= 0xffff {
            Ok(found)
        } else {
            Err(ConfigErrorView::PortOutOfRange(found.port))
        },
        Err(why) => Err(ConfigErrorView::Unreadable(why)),
    }
}

/// A numeral with its sign: a minus for a negative number, nothing else.
pub open spec fn signed_decimal(n: int) -> Seq<char> {
    if n < 0 {
        seq!['-'] + decimal((-n) as nat)
    } else {
        decimal(n as nat)
    }
}

/// What an error says of itself.
pub open spec fn error_message(error: ConfigErrorView) -> Seq<char> {
    match error {
        ConfigErrorView::Unreadable(why) => why,
        ConfigErrorView::PortOutOfRange(port) => "server.port is not a port: "@ + signed_decimal(
            port,
        ),
    }
}

impl Default for Settings {
    /// The settings that stand in when the source cannot be used.
    fn default() -> (r: Settings)
        ensures
            r@ == default_settings(),
    {
        Settings {
            server: ServerConfig { host: String::from_str("127.0.0.1"), port: 8080 },
            database: DatabaseConfig { path: String::from_str("data/constants.csv") },
        }
    }
}

impl ServerConfig {
    /// The address to bind: the host, a colon, the port in decimal.
    pub fn address(&self) -> (r: String)
        ensures
            r@ == self.host@.push(':') + decimal(self.port as nat),
    {
        let mut out = self.host.clone();
        out.push(':');
        let port = decimal_string(self.port as u64);
        out.append(port.as_str());
        out
    }
}

impl ConfigError {
    /// What the error says of itself, for a warning.
    pub fn message(&self) -> (r: String)
        ensures
            r@ == error_message(self@),
    {
        match self {
            ConfigError::Unreadable(why) => why.clone(),
            ConfigError::PortOutOfRange(port) => {
                let mut out = String::from_str("server.port is not a port: ");
                let size: u64 = if *port < 0 {
                    out.push('-');
                    ((-(*port + 1)) as u64) + 1
                } else {
                    *port as u64
                };
                let numeral = decimal_string(size);
                out.append(numeral.as_str());
                out
            },
        }
    }
}

/// What the caller read, as plain values.
pub open spec fn source_view(source: Result<ConfigSource, String>) -> Result<
    SettingsView,
    Seq<char>,
> {
    match source {
        Ok(found) => Ok(found@),
        Err(why) => Err(why@),
    }
}

/// What loading gave, as plain values.
pub open spec fn loaded_view(loaded: Result<Settings, ConfigError>) -> Result<
    SettingsView,
    ConfigErrorView,
> {
    match loaded {
        Ok(settings) => Ok(settings@),
        Err(error) => Err(error@),
    }
}

/// Makes settings of what the configuration source holds. The source is
/// refused where it could not be read, and where its port is not within
/// 0 to 65535.
pub fn load_config(source: Result<ConfigSource, String>) -> (r: Result<Settings, ConfigError>)
    ensures
        loaded_view(r) == checked(source_view(source)),
{
    match source {
        Ok(found) => {
            if 0 <= found.port && found.port <= 0xffff {
                Ok(
                    Settings {
                        server: ServerConfig { host: found.host, port: found.port as u16 },
                        database: DatabaseConfig { path: found.path },
                    },
                )
            } else {
                Err(ConfigError::PortOutOfRange(found.port))
            }
        },
        Err(why) => Err(ConfigError::Unreadable(why)),
    }
}

/// The settings to run with: those that were loaded, or the default ones
/// where loading failed. A failure to load never stops the service.
pub fn get_config(loaded: Result<Settings, ConfigError>) -> (r: Settings)
    ensures
        match loaded {
            Ok(settings) => r == settings,
            Err(_) => r@ == default_settings(),
        },
{
    match loaded {
        Ok(settings) => settings,
        Err(_) => Settings::default(),
    }
}

} // verus!
