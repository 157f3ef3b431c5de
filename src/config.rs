//! Configuration of the service: the connection string of the store and the
//! size of the connection pool.

use vstd::prelude::*;

verus! {

/// The number of pooled connections when no size is configured.
pub const DEFAULT_POOL_SIZE: u32 = 5;

/// What is wrong with the configuration.
#[derive(Clone, Copy, Debug, PartialEq, Eq, Structural)]
pub enum ConfigError {
    /// No connection string was given, or an empty one.
    MissingDatabaseUrl,
    /// The pool size is not a positive decimal number that fits in 32 bits.
    InvalidPoolSize,
}

/// What the connection pool is built from.
#[derive(Debug)]
pub struct PoolSettings {
    pub database_url: String,
    pub max_connections: u32,
}

pub open spec fn is_digit(c: char) -> bool {
    '0' <= c && c <= '9'
}

/// A non-empty run of decimal digits.
pub open spec fn is_decimal(s: Seq<char>) -> bool {
    s.len() > 0 && forall|i: int| 0 <= i < s.len() ==> #[trigger] is_digit(s[i])
}

/// The number that a run of decimal digits writes.
pub open spec fn decimal_value(s: Seq<char>) -> int
    decreases s.len(),
{
    if s.len() == 0 {
        0
    } else {
        decimal_value(s.drop_last()) * 10 + (s.last() as int - '0' as int)
    }
}

/// A pool size that the configuration may give: a decimal number from 1 to
/// `u32::MAX`.
pub open spec fn valid_pool_size(s: Seq<char>) -> bool {
    is_decimal(s) && 1 <= decimal_value(s) <= u32::MAX
}

/// A connection string is given and is not empty.
pub open spec fn has_database_url(database_url: Option<String>) -> bool {
    database_url matches Some(u) && u@.len() > 0
}

/// The pool size that the configuration asks for: the given number, or the
/// default when none is given.
pub open spec fn configured_pool_size(pool_size: Option<String>) -> int {
    match pool_size {
        Some(p) => decimal_value(p@),
        None => DEFAULT_POOL_SIZE as int,
    }
}

/// A prefix of a run of digits never writes a larger number than the whole.
proof fn lemma_decimal_prefix(s: Seq<char>, k: int)
    requires
        0 <= k <= s.len(),
        forall|i: int| 0 <= i < s.len() ==> #[trigger] is_digit(s[i]),
    ensures
        0 <= decimal_value(s.subrange(0, k)) <= decimal_value(s),
    decreases s.len(),
{
    if s.len() > 0 {
        let t = s.drop_last();
        if k == s.len() {
            assert(s.subrange(0, k) =~= s);
            lemma_decimal_prefix(t, k - 1);
            assert(t.subrange(0, k - 1) =~= t);
            assert(is_digit(s[s.len() - 1]));
        } else {
            lemma_decimal_prefix(t, k);
            lemma_decimal_prefix(t, t.len() as int);
            assert(t.subrange(0, k) =~= s.subrange(0, k));
            assert(t.subrange(0, t.len() as int) =~= t);
            assert(is_digit(s[s.len() - 1]));
        }
    }
}

/// Reads a pool size written as a decimal number.
pub fn parse_pool_size(s: &str) -> (r: Result<u32, ConfigError>)
    ensures
        r is Ok <==> valid_pool_size(s@),
        r matches Ok(n) ==> n as int == decimal_value(s@),
        r matches Err(e) ==> e == ConfigError::InvalidPoolSize,
{
    let len = s.unicode_len();
    if len == 0 {
        return Err(ConfigError::InvalidPoolSize);
    }
    let mut value: u64 = 0;
    let mut too_large = false;
    let mut i: usize = 0;
    while i < len
        invariant
            len == s@.len(),
            i <= len,
            forall|j: int| 0 <= j < i ==> #[trigger] is_digit(s@[j]),
            !too_large ==> value as int == decimal_value(s@.subrange(0, i as int)),
            !too_large ==> value <= u32::MAX,
            too_large ==> exists|k: int|
                0 <= k <= i && decimal_value(#[trigger] s@.subrange(0, k)) > u32::MAX,
        decreases len - i,
    {
        let c = s.get_char(i);
        if c < '0' || c > '9' {
            assert(!is_digit(s@[i as int]));
            return Err(ConfigError::InvalidPoolSize);
        }
        let ghost prefix = s@.subrange(0, i as int + 1);
        proof {
            assert(prefix.drop_last() =~= s@.subrange(0, i as int));
        }
        if !too_large {
            value = value * 10 + (c as u64 - '0' as u64);
            if value > u32::MAX as u64 {
                too_large = true;
            }
        }
        i = i + 1;
    }
    assert(s@.subrange(0, len as int) =~= s@);
    if too_large {
        proof {
            let k = choose|k: int| 0 <= k <= len && decimal_value(#[trigger] s@.subrange(0, k)) > u32::MAX;
            lemma_decimal_prefix(s@, k);
        }
        return Err(ConfigError::InvalidPoolSize);
    }
    if value == 0 {
        return Err(ConfigError::InvalidPoolSize);
    }
    Ok(value as u32)
}

/// Builds the pool settings from the configured connection string and the
/// optional pool size. The connection string must be present and non-empty;
/// without a pool size the pool holds `DEFAULT_POOL_SIZE` connections.
pub fn pool_settings(
    database_url: Option<String>,
    pool_size: Option<String>,
) -> (r: Result<PoolSettings, ConfigError>)
    ensures
        r is Ok <==> has_database_url(database_url) && (pool_size matches Some(p)
            ==> valid_pool_size(p@)),
        r matches Ok(cfg) ==> {
            &&& cfg.database_url@ == database_url.unwrap()@
            &&& cfg.max_connections == configured_pool_size(pool_size)
            &&& cfg.max_connections >= 1
        },
        r matches Err(e) ==> e == if has_database_url(database_url) {
            ConfigError::InvalidPoolSize
        } else {
            ConfigError::MissingDatabaseUrl
        },
{
    let url = match database_url {
        Some(u) => u,
        None => return Err(ConfigError::MissingDatabaseUrl),
    };
    if url.as_str().is_empty() {
        return Err(ConfigError::MissingDatabaseUrl);
    }
    let max_connections = match pool_size {
        Some(p) => parse_pool_size(p.as_str())?,
        None => DEFAULT_POOL_SIZE,
    };
    Ok(PoolSettings { database_url: url, max_connections })
}

} // verus!
