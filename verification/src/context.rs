//! What a request is decided against: the service's configuration, and the
//! values that only the environment can supply.

use crate::auth::{
    epoch_seconds, rfc3339_text, seconds_since_epoch, utc_now, TOKEN_VALIDITY_SECS,
};
use vstd::prelude::*;

verus! {

/// Configuration fixed at process start and passed to every handler.
pub struct Config {
    /// The key that signs and verifies tokens.
    pub secret: Vec<u8>,
    /// Seconds for which an issued token is valid.
    pub token_validity: u64,
}

impl Config {
    /// A configuration with the given signing secret and the default
    /// validity window of fifteen minutes.
    pub fn new(secret: Vec<u8>) -> (cfg: Config)
        ensures
            cfg.secret == secret,
            cfg.token_validity == TOKEN_VALIDITY_SECS,
    {
        Config { secret, token_validity: TOKEN_VALIDITY_SECS }
    }

    /// A configuration with the given signing secret and validity window.
    pub fn with_validity(secret: Vec<u8>, token_validity: u64) -> (cfg: Config)
        ensures
            cfg.secret == secret,
            cfg.token_validity == token_validity,
    {
        Config { secret, token_validity }
    }
}

/// What the environment contributes to one request: the time, and a fresh
/// identifier for a row the request may create.
#[derive(Debug, PartialEq, Eq)]
pub struct Ambient {
    /// Seconds since the Unix epoch.
    pub now: u64,
    /// The same instant as RFC 3339 text, stored as a row's creation time.
    pub timestamp: String,
    /// A random identifier, unused so far with overwhelming probability.
    pub fresh_id: String,
}

/// Whether `c` is a decimal digit or one of the letters `a` to `f`.
pub open spec fn is_lower_hex(c: char) -> bool {
    ||| c == '0' || c == '1' || c == '2' || c == '3' || c == '4'
    ||| c == '5' || c == '6' || c == '7' || c == '8' || c == '9'
    ||| c == 'a' || c == 'b' || c == 'c' || c == 'd' || c == 'e' || c == 'f'
}

/// Whether `c` may stand at place `i` of a hyphenated identifier: a hyphen
/// at the four places that part the groups, a hexadecimal digit elsewhere.
pub open spec fn fits_uuid_place(i: int, c: char) -> bool {
    if i == 8 || i == 13 || i == 18 || i == 23 {
        c == '-'
    } else {
        is_lower_hex(c)
    }
}

/// Whether `id` is a random (version 4) UUID in its hyphenated lower-case
/// form: 36 characters in groups of 8, 4, 4, 4 and 12 hexadecimal digits,
/// the third group starting with `4` and the fourth with `8`, `9`, `a` or `b`.
pub open spec fn is_uuid_text(id: Seq<char>) -> bool {
    &&& id.len() == 36
    &&& forall|i: int| 0 <= i < 36 ==> fits_uuid_place(i, #[trigger] id[i])
    &&& id[14] == '4'
    &&& (id[19] == '8' || id[19] == '9' || id[19] == 'a' || id[19] == 'b')
}

/// Calls `uuid::Uuid::new_v4` and renders the identifier with `to_string`.
/// The identifier is random. Trusted: the text has the form that the crate
/// gives every version 4 identifier, which is [`is_uuid_text`].
#[verifier::external_body]
fn random_uuid() -> (id: String)
    ensures
        is_uuid_text(id@),
{
    uuid::Uuid::new_v4().to_string()
}

impl Ambient {
    /// Reads the clock once and draws a random identifier. Handlers take the
    /// result as an argument and are verified for every value of it.
    ///
    /// Time and chance decide the values, so the contract says what holds of
    /// every outcome: `now` and `timestamp` are one instant, the first as a
    /// count of seconds and the second as RFC 3339 text, and `fresh_id` is a
    /// version 4 UUID in hyphenated form.
    pub fn observe() -> (env: Ambient)
        ensures
            exists|seconds: i64, nanos: u32|
                env.now == seconds_since_epoch(seconds) && env.timestamp@ == #[trigger] rfc3339_text(
                    seconds,
                    nanos,
                ),
            is_uuid_text(env.fresh_id@),
            env.now <= i64::MAX,
    {
        let (seconds, nanos, timestamp) = utc_now();
        let env = Ambient { now: epoch_seconds(seconds), timestamp, fresh_id: random_uuid() };
        assert(env.now == seconds_since_epoch(seconds) && env.timestamp@ == rfc3339_text(
            seconds,
            nanos,
        ));
        env
    }
}

} // verus!
