//! The account credentials, read from the TOML settings document.
use vstd::prelude::*;
use crate::text::opt_view;

verus! {

/// The string under the top-level `key` of the TOML document `doc`, if the
/// document parses and holds a string there.
pub uninterp spec fn toml_str_at(doc: Seq<char>, key: Seq<char>) -> Option<Seq<char>>;

/// Relies on toml's `FromStr` for `toml::Value`, `Value::get` and
/// `Value::as_str`: parse `doc` and read the string under `key`.
#[verifier::external_body]
fn toml_str(doc: &str, key: &str) -> (r: Option<String>)
    ensures
        opt_view(r) == toml_str_at(doc@, key@),
{
    let v: toml::Value = doc.parse().ok()?;
    v.get(key)?.as_str().map(String::from)
}

/// The account's login name and password.
pub struct Credentials {
    pub username: String,
    pub password: String,
}

/// Why the settings document gave no credentials.
#[derive(Debug, Clone, Copy, PartialEq, Eq, Structural)]
pub enum ConfigError {
    /// The document is not TOML, or lacks a string `username` or `password`.
    Malformed,
}

/// The key of the login name.
pub open spec fn username_key() -> Seq<char> {
    seq!['u', 's', 'e', 'r', 'n', 'a', 'm', 'e']
}

/// The key of the password.
pub open spec fn password_key() -> Seq<char> {
    seq!['p', 'a', 's', 's', 'w', 'o', 'r', 'd']
}

/// The credentials held by the settings document `doc`: its string fields
/// `username` and `password`.
pub fn parse_credentials(doc: &str) -> (r: Result<Credentials, ConfigError>)
    ensures
        match (toml_str_at(doc@, username_key()), toml_str_at(doc@, password_key())) {
            (Some(u), Some(p)) => r matches Ok(c) && c.username@ == u && c.password@ == p,
            _ => r matches Err(ConfigError::Malformed),
        },
{
    proof {
        reveal_strlit("username");
        reveal_strlit("password");
        assert("username"@ =~= username_key());
        assert("password"@ =~= password_key());
    }
    let username = toml_str(doc, "username");
    let password = toml_str(doc, "password");
    match (username, password) {
        (Some(username), Some(password)) => Ok(Credentials { username, password }),
        _ => Err(ConfigError::Malformed),
    }
}

} // verus!
