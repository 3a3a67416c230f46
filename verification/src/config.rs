//! Where the database is, and how to sign in to it.

use vstd::prelude::*;
use crate::text::{or_empty, text_of, text_or_empty};

verus! {

/// The environment variable that holds the database URL. It must be set.
pub const URL_VARIABLE: &'static str = "LIBSQL_URL";

/// The environment variable that holds the access token. It may be missing.
pub const AUTH_TOKEN_VARIABLE: &'static str = "LIBSQL_AUTH_TOKEN";

/// What a connection to the database is opened with. The URL is taken as it
/// is: whether it is well formed shows when the connection is opened.
#[derive(Debug, PartialEq, Eq)]
pub struct DbConfig {
    pub url: String,
    pub auth_token: String,
}

/// A [`DbConfig`] with its texts as sequences of characters.
pub struct DbConfigView {
    pub url: Seq<char>,
    pub auth_token: Seq<char>,
}

impl View for DbConfig {
    type V = DbConfigView;

    open spec fn view(&self) -> DbConfigView {
        DbConfigView { url: self.url@, auth_token: self.auth_token@ }
    }
}

/// Why there is nothing to connect with.
#[derive(Clone, Copy, Debug, PartialEq, Eq, Structural)]
pub enum ConfigError {
    /// The URL variable is not set.
    MissingUrl,
}

impl ConfigError {
    /// What to tell the user of the error.
    pub fn message(&self) -> (text: &'static str)
        ensures
            text@ == "LIBSQL_URL must be set"@,
    {
        match self {
            ConfigError::MissingUrl => "LIBSQL_URL must be set",
        }
    }
}

/// The configuration that the two variables give: an error without a URL, and
/// the empty token without a token.
pub open spec fn config_of(url: Option<Seq<char>>, auth_token: Option<Seq<char>>) -> Result<
    DbConfigView,
    ConfigError,
> {
    match url {
        Some(u) => Ok(DbConfigView { url: u, auth_token: text_or_empty(auth_token) }),
        None => Err(ConfigError::MissingUrl),
    }
}

/// A configuration that may have failed, with its texts as sequences of
/// characters.
pub open spec fn config_view(config: Result<DbConfig, ConfigError>) -> Result<
    DbConfigView,
    ConfigError,
> {
    match config {
        Ok(c) => Ok(c@),
        Err(e) => Err(e),
    }
}

impl DbConfig {
    /// Builds the configuration from the values of [`URL_VARIABLE`] and
    /// [`AUTH_TOKEN_VARIABLE`], each `None` where the variable is not set.
    ///
    /// Fails exactly where the URL is missing. A missing token is the empty
    /// token.
    pub fn from_env(url: Option<String>, auth_token: Option<String>) -> (config: Result<
        DbConfig,
        ConfigError,
    >)
        ensures
            config_view(config) == config_of(text_of(url), text_of(auth_token)),
    {
        match url {
            Some(u) => Ok(DbConfig { url: u, auth_token: or_empty(auth_token) }),
            None => Err(ConfigError::MissingUrl),
        }
    }
}

} // verus!
