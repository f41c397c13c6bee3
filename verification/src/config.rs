use vstd::prelude::*;

verus! {

/// How to reach the remote daemon: credentials and its base URL.
#[derive(Clone, Debug, PartialEq, Eq)]
pub struct Connection {
    pub username: String,
    pub password: String,
    pub url: String,
}

/// The configuration the session is constructed with, validated once at
/// startup and passed in explicitly.
#[derive(Clone, Debug, PartialEq, Eq)]
pub struct Config {
    pub connection: Connection,
}

/// The connection table as it stands in the configuration file, every
/// field still optional.
#[derive(Clone, Debug, PartialEq, Eq)]
pub struct RawConnection {
    pub username: Option<String>,
    pub password: Option<String>,
    pub url: Option<String>,
}

/// A configuration file's content before validation.
#[derive(Clone, Debug, PartialEq, Eq)]
pub struct RawConfig {
    pub connection: Option<RawConnection>,
}

/// Why a configuration is rejected; each startup-fatal.
#[derive(Clone, Copy, Debug, PartialEq, Eq)]
pub enum ConfigError {
    MissingConnectionTable,
    MissingUrl,
    InvalidUrl,
    MissingUsername,
    MissingPassword,
}

/// Whether the url crate accepts the string as an absolute URL.
pub uninterp spec fn url_ok(s: Seq<char>) -> bool;

/// Relies on url::Url::parse (url crate, src/lib.rs): parsing uses the
/// default options against no base URL, so acceptance depends on the
/// input string alone.
#[verifier::external_body]
fn url_is_valid(s: &str) -> (r: bool)
    ensures
        r == url_ok(s@),
{
    url::Url::parse(s).is_ok()
}

impl Config {
    /// What validation finds: the connection table must be present with
    /// a url entry that the url crate accepts; nothing else is checked
    /// here.
    pub open spec fn verify_outcome(raw: RawConfig) -> Result<(), ConfigError> {
        match raw.connection {
            None => Err(ConfigError::MissingConnectionTable),
            Some(conn) => match conn.url {
                None => Err(ConfigError::MissingUrl),
                Some(u) => if url_ok(u@) {
                    Ok(())
                } else {
                    Err(ConfigError::InvalidUrl)
                },
            },
        }
    }

    /// Validates a raw configuration, per `verify_outcome`.
    pub fn table_config_verify(raw: &RawConfig) -> (r: Result<(), ConfigError>)
        ensures
            r == Self::verify_outcome(*raw),
    {
        match &raw.connection {
            None => Err(ConfigError::MissingConnectionTable),
            Some(conn) => match &conn.url {
                None => Err(ConfigError::MissingUrl),
                Some(u) => if url_is_valid(u.as_str()) {
                    Ok(())
                } else {
                    Err(ConfigError::InvalidUrl)
                },
            },
        }
    }

    /// What startup makes of a raw configuration: the first failure of
    /// validation, in the order the fields are read — connection table,
    /// url present, url well-formed, username, password — or the
    /// complete configuration.
    pub open spec fn init_outcome(raw: RawConfig) -> Result<Config, ConfigError> {
        match raw.connection {
            None => Err(ConfigError::MissingConnectionTable),
            Some(conn) => match conn.url {
                None => Err(ConfigError::MissingUrl),
                Some(u) => if !url_ok(u@) {
                    Err(ConfigError::InvalidUrl)
                } else {
                    match conn.username {
                        None => Err(ConfigError::MissingUsername),
                        Some(user) => match conn.password {
                            None => Err(ConfigError::MissingPassword),
                            Some(pass) => Ok(
                                Config {
                                    connection: Connection { username: user, password: pass, url: u },
                                },
                            ),
                        },
                    }
                },
            },
        }
    }

    /// Turns a raw configuration into the validated one the session is
    /// built from, per `init_outcome`: Ok exactly when every field is
    /// present and the url is accepted, and the error names the first
    /// missing or rejected field otherwise.
    pub fn init(raw: RawConfig) -> (r: Result<Config, ConfigError>)
        ensures
            r == Self::init_outcome(raw),
            r is Ok <==> (Self::verify_outcome(raw) is Ok && (raw.connection matches Some(conn)
                && conn.username is Some && conn.password is Some)),
    {
        match raw.connection {
            None => Err(ConfigError::MissingConnectionTable),
            Some(conn) => match conn.url {
                None => Err(ConfigError::MissingUrl),
                Some(u) => if !url_is_valid(u.as_str()) {
                    Err(ConfigError::InvalidUrl)
                } else {
                    match conn.username {
                        None => Err(ConfigError::MissingUsername),
                        Some(user) => match conn.password {
                            None => Err(ConfigError::MissingPassword),
                            Some(pass) => Ok(
                                Config {
                                    connection: Connection { username: user, password: pass, url: u },
                                },
                            ),
                        },
                    }
                },
            },
        }
    }
}

} // verus!
