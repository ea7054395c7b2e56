use vstd::prelude::*;
use crate::utils::{parse_u32, parsed_u32, u32_parse};

verus! {

/// The pool size used when `MAX_POOL_CONNECTIONS` is unset or unreadable.
pub const DEFAULT_MAX_POOL_CONNECTIONS: u32 = 20;

/// How long, in seconds, to wait for a free connection before giving up.
pub const CONNECTION_TIMEOUT_SECS: u64 = 10;

/// How the database connection pool is built.
#[derive(Debug)]
pub struct PoolSettings {
    pub max_size: u32,
    pub min_idle: Option<u32>,
    pub connection_timeout_secs: u64,
}

/// The pool size read from the text of `MAX_POOL_CONNECTIONS`, if it was set.
pub open spec fn max_size_from(var: Option<Seq<char>>) -> u32 {
    match var {
        Some(s) => match parsed_u32(s) {
            Some(v) => v,
            None => DEFAULT_MAX_POOL_CONNECTIONS,
        },
        None => DEFAULT_MAX_POOL_CONNECTIONS,
    }
}

/// The idle connections to keep, read from `MIN_RESERVED_POOL_CONNECTIONS`.
pub open spec fn min_idle_from(var: Option<Seq<char>>) -> Option<u32> {
    match var {
        Some(s) => parsed_u32(s),
        None => None,
    }
}

/// The pool settings given the values of `MAX_POOL_CONNECTIONS` and
/// `MIN_RESERVED_POOL_CONNECTIONS` (`None` where a variable is unset or not
/// Unicode). A value that is not a number is ignored.
pub fn pool_settings(max_connections: Option<String>, min_reserved: Option<String>) -> (res: PoolSettings)
    ensures
        res.max_size == max_size_from(crate::api_error::opt_text(max_connections)),
        res.min_idle == min_idle_from(crate::api_error::opt_text(min_reserved)),
        res.connection_timeout_secs == CONNECTION_TIMEOUT_SECS,
        res.connection_timeout_secs == 10,
        max_connections matches Some(s) ==> match u32_parse(s@) {
            Ok(v) => res.max_size == v,
            Err(_) => res.max_size == 20,
        },
        max_connections is None ==> res.max_size == 20,
        min_reserved matches Some(s) ==> match u32_parse(s@) {
            Ok(v) => res.min_idle == Some(v),
            Err(_) => res.min_idle is None,
        },
        min_reserved is None ==> res.min_idle is None,
{
    let max_size = match &max_connections {
        Some(s) => match parse_u32(s.as_str()) {
            Ok(v) => v,
            Err(_) => DEFAULT_MAX_POOL_CONNECTIONS,
        },
        None => DEFAULT_MAX_POOL_CONNECTIONS,
    };
    let min_idle = match &min_reserved {
        Some(s) => match parse_u32(s.as_str()) {
            Ok(v) => Some(v),
            Err(_) => None,
        },
        None => None,
    };
    PoolSettings { max_size, min_idle, connection_timeout_secs: CONNECTION_TIMEOUT_SECS }
}

/// The configured pool size is used exactly when its text is a number (any
/// `u32`, above or below the default); otherwise the pool has 20
/// connections. The reserve is the configured number, or none.
pub proof fn lemma_pool_size_is_the_configured_number(text: Seq<char>, v: u32)
    ensures
        u32_parse(text) == Ok::<u32, crate::utils::ParseIntFailure>(v) ==> max_size_from(Some(text)) == v
            && min_idle_from(Some(text)) == Some(v),
        u32_parse(text) is Err ==> max_size_from(Some(text)) == 20 && min_idle_from(Some(text)) is None,
        max_size_from(None) == 20,
        min_idle_from(None) is None,
{
}

} // verus!
