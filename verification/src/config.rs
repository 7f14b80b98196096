//! Configuration values the core depends on.
//!
//! The configuration file itself is read and parsed by the unverified
//! shell; the shell hands the library these plain shapes. The one piece
//! of configuration logic that belongs to the library is the token
//! indirection: a bridge token of the form `$NAME` names an environment
//! variable instead of carrying the secret literally, and the token is
//! replaced by the variable's value where the environment supplies one.

use vstd::prelude::*;

verus! {

/// Where the bridge is and how to authenticate against it. The
/// certificate entry, where present, is a path to a PEM trust
/// certificate.
#[derive(Debug, Clone, PartialEq, Eq, Hash)]
pub struct BridgeConfig {
    pub url: String,
    pub token: String,
    pub certificate: Option<String>,
}

/// Where the metric sink listens.
#[derive(Debug, Clone, PartialEq, Eq, Hash)]
pub struct TelegrafConfig {
    pub endpoint: String,
}

/// What the bridge client is built from.
#[derive(Debug, Clone, PartialEq, Eq, Hash)]
pub struct ClientConfig {
    pub url: String,
    pub token: String,
    pub certificate: Option<String>,
}

/// The environment variable a configured token points at: a token of the
/// form `$NAME` names the variable `NAME`; any other token carries the
/// secret itself.
pub fn token_env_name(token: &str) -> (r: Option<String>)
    ensures
        (match r {
            Some(name) => token@.len() > 0 && token@.first() == '$' && name@ == token@.subrange(
                1,
                token@.len() as int,
            ),
            None => token@.len() == 0 || token@.first() != '$',
        }),
{
    let n: usize = token.unicode_len();
    if n == 0 {
        return None;
    }
    if token.get_char(0) == '$' {
        Some(token.substring_char(1, n).to_owned())
    } else {
        None
    }
}

/// The token to use: the environment variable's value where the token
/// named one and the variable is set, the configured token unchanged
/// otherwise.
pub fn resolve_token(token: String, env_value: Option<String>) -> (r: String)
    ensures
        (match env_value {
            Some(value) => r == value,
            None => r == token,
        }),
{
    match env_value {
        Some(value) => value,
        None => token,
    }
}

} // verus!
