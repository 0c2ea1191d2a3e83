//! Process configuration: account credentials read once at startup.
//!
//! The credentials come from two environment values. The caller reads the
//! environment and hands the raw values in; the decision of whether the run
//! may proceed is made here, before any network activity.

use vstd::prelude::*;

verus! {

/// Account credentials, immutable for the lifetime of a run.
#[derive(Clone, Debug, PartialEq, Eq)]
pub struct Credentials {
    /// Account identifier (an e-mail address).
    pub username: String,
    /// Account secret.
    pub password: String,
}

/// A missing required environment value. Either one is fatal: a run aborts
/// before any authentication attempt is made.
#[derive(Clone, Copy, Debug, PartialEq, Eq, Structural)]
pub enum ConfigError {
    /// The account identifier was not set in the environment.
    MissingUsername,
    /// The account secret was not set in the environment.
    MissingPassword,
}

/// Builds the credentials from the two environment lookups, or reports
/// which required value is absent. The username is checked first.
pub fn credentials_from_env(username: Option<String>, password: Option<String>) -> (r: Result<
    Credentials,
    ConfigError,
>)
    ensures
        username is None ==> (r matches Err(e) && e == ConfigError::MissingUsername),
        username is Some && password is None ==> (r matches Err(e) && e
            == ConfigError::MissingPassword),
        username is Some && password is Some ==> (r matches Ok(c) && c.username@ == username->0@
            && c.password@ == password->0@),
{
    match (username, password) {
        (None, _) => Err(ConfigError::MissingUsername),
        (Some(_), None) => Err(ConfigError::MissingPassword),
        (Some(u), Some(p)) => Ok(Credentials { username: u, password: p }),
    }
}

} // verus!
