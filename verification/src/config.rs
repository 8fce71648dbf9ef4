//! Service configuration: the storage backend, and the settings read from the process
//! environment, each with its default.

use vstd::prelude::*;

use crate::text::{ascii_lower_spec, str_eq, str_eq_ignore_ascii_case, trim, trim_spec};

verus! {

/// Where the service keeps its data.
#[derive(Debug, Clone, Copy, PartialEq, Eq, Structural)]
pub enum StorageBackend {
    Memory,
    Postgres,
    Sqlite,
}

impl StorageBackend {
    /// The backend a setting names: case and surrounding whitespace do not matter, and
    /// anything unknown means Postgres.
    pub open spec fn from_env_spec(value: Seq<char>) -> StorageBackend {
        let v = ascii_lower_spec(trim_spec(value));
        if v == "memory"@ {
            StorageBackend::Memory
        } else if v == "postgres"@ || v == "postgresql"@ || v == "pg"@ {
            StorageBackend::Postgres
        } else if v == "sqlite"@ || v == "sqlite3"@ {
            StorageBackend::Sqlite
        } else {
            StorageBackend::Postgres
        }
    }

    pub open spec fn name_spec(self) -> Seq<char> {
        match self {
            StorageBackend::Memory => "memory"@,
            StorageBackend::Postgres => "postgres"@,
            StorageBackend::Sqlite => "sqlite"@,
        }
    }

    /// The backend named by the setting `value`.
    pub fn from_env(value: &str) -> (b: StorageBackend)
        ensures
            b == Self::from_env_spec(value@),
    {
        let t = trim(value);
        let v = t.as_str();
        proof {
            lemma_lowercase_literals();
        }
        if str_eq_ignore_ascii_case(v, "memory") {
            StorageBackend::Memory
        } else if str_eq_ignore_ascii_case(v, "postgres") || str_eq_ignore_ascii_case(v, "postgresql")
            || str_eq_ignore_ascii_case(v, "pg") {
            StorageBackend::Postgres
        } else if str_eq_ignore_ascii_case(v, "sqlite") || str_eq_ignore_ascii_case(v, "sqlite3") {
            StorageBackend::Sqlite
        } else {
            StorageBackend::Postgres
        }
    }

    /// The backend's name.
    pub fn as_str(&self) -> (s: &'static str)
        ensures
            s@ == self.name_spec(),
    {
        match self {
            StorageBackend::Memory => "memory",
            StorageBackend::Postgres => "postgres",
            StorageBackend::Sqlite => "sqlite",
        }
    }
}

proof fn lemma_lowercase_literals()
    ensures
        ascii_lower_spec("memory"@) == "memory"@,
        ascii_lower_spec("postgres"@) == "postgres"@,
        ascii_lower_spec("postgresql"@) == "postgresql"@,
        ascii_lower_spec("pg"@) == "pg"@,
        ascii_lower_spec("sqlite"@) == "sqlite"@,
        ascii_lower_spec("sqlite3"@) == "sqlite3"@,
        ascii_lower_spec("1"@) == "1"@,
        ascii_lower_spec("true"@) == "true"@,
        ascii_lower_spec("yes"@) == "yes"@,
{
    reveal_strlit("memory");
    reveal_strlit("postgres");
    reveal_strlit("postgresql");
    reveal_strlit("pg");
    reveal_strlit("sqlite");
    reveal_strlit("sqlite3");
    reveal_strlit("1");
    reveal_strlit("true");
    reveal_strlit("yes");
    assert(ascii_lower_spec("memory"@) =~= "memory"@);
    assert(ascii_lower_spec("postgres"@) =~= "postgres"@);
    assert(ascii_lower_spec("postgresql"@) =~= "postgresql"@);
    assert(ascii_lower_spec("pg"@) =~= "pg"@);
    assert(ascii_lower_spec("sqlite"@) =~= "sqlite"@);
    assert(ascii_lower_spec("sqlite3"@) =~= "sqlite3"@);
    assert(ascii_lower_spec("1"@) =~= "1"@);
    assert(ascii_lower_spec("true"@) =~= "true"@);
    assert(ascii_lower_spec("yes"@) =~= "yes"@);
}

/// Whether `c` is one of the digits `0` to `9`.
pub open spec fn is_digit(c: char) -> bool {
    '0' <= c <= '9'
}

/// The value of the decimal numeral `s`, read as digits.
pub open spec fn digits_value(s: Seq<char>) -> int
    decreases s.len(),
{
    if s.len() == 0 {
        0
    } else {
        10 * digits_value(s.drop_last()) + (s.last() as int - '0' as int)
    }
}

/// Whether `s` is a non-empty run of decimal digits.
pub open spec fn is_numeral(s: Seq<char>) -> bool {
    s.len() > 0 && forall|i: int| 0 <= i < s.len() ==> #[trigger] is_digit(s[i])
}

/// The integer that `s` spells in the syntax of Rust's `str::parse` for integers: an
/// optional `+` (or, for a signed type, `-`) followed by one or more decimal digits and
/// nothing else. `None` when `s` spells no integer; the type's range is not checked here.
pub open spec fn integer_text_value(s: Seq<char>, signed: bool) -> Option<int> {
    if s.len() > 0 && s[0] == '+' {
        if is_numeral(s.drop_first()) {
            Some(digits_value(s.drop_first()))
        } else {
            None
        }
    } else if signed && s.len() > 0 && s[0] == '-' {
        if is_numeral(s.drop_first()) {
            Some(-digits_value(s.drop_first()))
        } else {
            None
        }
    } else if is_numeral(s) {
        Some(digits_value(s))
    } else {
        None
    }
}

/// What parsing `s` as an integer type of range `lo..=hi` gives.
pub open spec fn parse_integer_spec(s: Seq<char>, signed: bool, lo: int, hi: int) -> Option<int> {
    match integer_text_value(s, signed) {
        Some(v) => if lo <= v <= hi {
            Some(v)
        } else {
            None
        },
        None => None,
    }
}

proof fn lemma_digits_value_nonneg(s: Seq<char>)
    requires
        forall|i: int| 0 <= i < s.len() ==> #[trigger] is_digit(s[i]),
    ensures
        digits_value(s) >= 0,
    decreases s.len(),
{
    if s.len() > 0 {
        assert forall|i: int| 0 <= i < s.drop_last().len() implies #[trigger] is_digit(s.drop_last()[i]) by {
            assert(s.drop_last()[i] == s[i]);
        }
        lemma_digits_value_nonneg(s.drop_last());
        assert(is_digit(s[s.len() - 1]));
    }
}

/// Reads the digits of `s` from position `start`: their value when it is at most `cap`,
/// `None` when a character is not a digit, or when there are no digits, or `Some(cap + 1)`
/// when all are digits and the value exceeds `cap`.
fn digits_capped(s: &str, start: usize, len: usize, cap: u64) -> (r: Option<u128>)
    requires
        len == s@.len(),
        start <= len,
    ensures
        match r {
            None => !is_numeral(s@.subrange(start as int, len as int)),
            Some(v) => is_numeral(s@.subrange(start as int, len as int)) && (if digits_value(
                s@.subrange(start as int, len as int),
            ) <= cap {
                v == digits_value(s@.subrange(start as int, len as int))
            } else {
                v == cap + 1
            }),
        },
{
    if start == len {
        return None;
    }
    let mut i: usize = start;
    let mut acc: u128 = 0;
    let mut big: bool = false;
    while i < len
        invariant
            start <= i <= len,
            len == s@.len(),
            forall|k: int| start <= k < i ==> #[trigger] is_digit(s@[k]),
            !big ==> acc == digits_value(s@.subrange(start as int, i as int)) && acc <= cap,
            big ==> digits_value(s@.subrange(start as int, i as int)) > cap,
        decreases len - i,
    {
        let c = s.get_char(i);
        if !('0' <= c && c <= '9') {
            proof {
                assert(s@.subrange(start as int, len as int)[i - start] == c);
                assert(!is_digit(s@.subrange(start as int, len as int)[i - start]));
            }
            return None;
        }
        let d: u32 = (c as u32) - ('0' as u32);
        proof {
            let pre = s@.subrange(start as int, i as int);
            let next = s@.subrange(start as int, i + 1);
            assert(next.drop_last() =~= pre);
            assert(next.last() == c);
            assert(digits_value(next) == 10 * digits_value(pre) + d);
            assert forall|k: int| 0 <= k < pre.len() implies #[trigger] is_digit(pre[k]) by {
                assert(pre[k] == s@[start + k]);
            }
            lemma_digits_value_nonneg(pre);
        }
        if !big {
            let nv: u128 = acc * 10 + d as u128;
            if nv > cap as u128 {
                big = true;
            } else {
                acc = nv;
            }
        }
        i = i + 1;
    }
    proof {
        let all = s@.subrange(start as int, len as int);
        assert forall|k: int| 0 <= k < all.len() implies #[trigger] is_digit(all[k]) by {
            assert(all[k] == s@[start + k]);
        }
    }
    if big {
        Some(cap as u128 + 1)
    } else {
        Some(acc)
    }
}

/// Parses `s` as an integer of range `lo..=hi`, as `str::parse` does for an integer type of
/// that range (`signed` telling whether the type is signed).
fn parse_integer(s: &str, signed: bool, lo: i128, hi: i128) -> (r: Option<i128>)
    requires
        -0x8000_0000_0000_0000 <= lo <= 0 <= hi <= 0xffff_ffff_ffff_ffff,
    ensures
        match parse_integer_spec(s@, signed, lo as int, hi as int) {
            Some(v) => r == Some(v as i128),
            None => r is None,
        },
{
    let len = s.unicode_len();
    let cap: u64 = 0xffff_ffff_ffff_ffff;
    if len > 0 && s.get_char(0) == '+' {
        let m = digits_capped(s, 1, len, cap);
        proof {
            assert(s@.drop_first() =~= s@.subrange(1, len as int));
        }
        match m {
            None => None,
            Some(v) => {
                if v > cap as u128 {
                    None
                } else if (v as i128) <= hi {
                    Some(v as i128)
                } else {
                    None
                }
            },
        }
    } else if signed && len > 0 && s.get_char(0) == '-' {
        let m = digits_capped(s, 1, len, cap);
        proof {
            assert(s@.drop_first() =~= s@.subrange(1, len as int));
        }
        match m {
            None => None,
            Some(v) => {
                if v > cap as u128 {
                    None
                } else if -(v as i128) >= lo {
                    Some(-(v as i128))
                } else {
                    None
                }
            },
        }
    } else {
        let m = digits_capped(s, 0, len, cap);
        proof {
            assert(s@ =~= s@.subrange(0, len as int));
        }
        match m {
            None => None,
            Some(v) => {
                if v > cap as u128 {
                    None
                } else if (v as i128) <= hi {
                    Some(v as i128)
                } else {
                    None
                }
            },
        }
    }
}

/// Parses a `u16` as `str::parse::<u16>` does.
pub fn parse_u16(s: &str) -> (r: Option<u16>)
    ensures
        match parse_integer_spec(s@, false, 0, u16::MAX as int) {
            Some(v) => r == Some(v as u16),
            None => r is None,
        },
{
    match parse_integer(s, false, 0, 0xffff) {
        Some(v) => Some(v as u16),
        None => None,
    }
}

/// Parses a `u32` as `str::parse::<u32>` does.
pub fn parse_u32(s: &str) -> (r: Option<u32>)
    ensures
        match parse_integer_spec(s@, false, 0, u32::MAX as int) {
            Some(v) => r == Some(v as u32),
            None => r is None,
        },
{
    match parse_integer(s, false, 0, 0xffff_ffff) {
        Some(v) => Some(v as u32),
        None => None,
    }
}

/// Parses a `u64` as `str::parse::<u64>` does.
pub fn parse_u64(s: &str) -> (r: Option<u64>)
    ensures
        match parse_integer_spec(s@, false, 0, u64::MAX as int) {
            Some(v) => r == Some(v as u64),
            None => r is None,
        },
{
    match parse_integer(s, false, 0, 0xffff_ffff_ffff_ffff) {
        Some(v) => Some(v as u64),
        None => None,
    }
}

/// Parses an `i64` as `str::parse::<i64>` does.
pub fn parse_i64(s: &str) -> (r: Option<i64>)
    ensures
        match parse_integer_spec(s@, true, i64::MIN as int, i64::MAX as int) {
            Some(v) => r == Some(v as i64),
            None => r is None,
        },
{
    match parse_integer(s, true, -0x8000_0000_0000_0000, 0x7fff_ffff_ffff_ffff) {
        Some(v) => Some(v as i64),
        None => None,
    }
}

/// `value` without surrounding whitespace, or `None` when nothing else is left.
pub fn non_empty(value: String) -> (r: Option<String>)
    ensures
        trim_spec(value@).len() == 0 ==> r is None,
        trim_spec(value@).len() > 0 ==> (r matches Some(t) && t@ == trim_spec(value@)),
{
    let t = trim(value.as_str());
    if t.unicode_len() == 0 {
        None
    } else {
        Some(t)
    }
}

/// Whether a flag setting is on: `1`, `true` or `yes`, in any case.
pub open spec fn flag_on_spec(value: Seq<char>) -> bool {
    let v = ascii_lower_spec(value);
    v == "1"@ || v == "true"@ || v == "yes"@
}

/// Whether the flag setting `value` is on.
pub fn flag_on(value: &str) -> (b: bool)
    ensures
        b == flag_on_spec(value@),
{
    proof {
        lemma_lowercase_literals();
    }
    str_eq_ignore_ascii_case(value, "1") || str_eq_ignore_ascii_case(value, "true") || str_eq_ignore_ascii_case(
        value,
        "yes",
    )
}

/// The settings as the environment holds them: `None` for a variable that is not set (or
/// does not hold text).
#[derive(Debug, Clone)]
pub struct ConfigVars {
    pub app_host: Option<String>,
    pub app_port: Option<String>,
    pub jwt_secret: Option<String>,
    pub jwt_access_expires: Option<String>,
    pub jwt_refresh_expires: Option<String>,
    pub allow_negative_stock: Option<String>,
    pub storage_backend: Option<String>,
    pub database_url: Option<String>,
    pub sqlite_path: Option<String>,
    pub redis_url: Option<String>,
    pub pg_max_connections: Option<String>,
    pub barcode_lookup_api_url: Option<String>,
    pub barcode_lookup_api_key: Option<String>,
    pub barcode_lookup_timeout_ms: Option<String>,
    pub barcode_lookup_found_ttl_secs: Option<String>,
    pub barcode_lookup_not_found_ttl_secs: Option<String>,
}

/// The service's configuration.
#[derive(Debug, Clone)]
pub struct AppConfig {
    pub host: String,
    pub port: u16,
    pub jwt_secret: String,
    pub access_token_exp_secs: i64,
    pub refresh_token_exp_secs: i64,
    pub allow_negative_stock: bool,
    pub storage_backend: StorageBackend,
    pub database_url: Option<String>,
    pub sqlite_path: String,
    pub redis_url: Option<String>,
    pub postgres_max_connections: u32,
    pub barcode_lookup_api_url: Option<String>,
    pub barcode_lookup_api_key: Option<String>,
    pub barcode_lookup_timeout_ms: u64,
    pub barcode_lookup_found_ttl_secs: i64,
    pub barcode_lookup_not_found_ttl_secs: i64,
}

/// A text setting, or `default` when it is not set.
pub open spec fn text_setting(v: Option<String>, default: Seq<char>) -> Seq<char> {
    match v {
        Some(s) => s@,
        None => default,
    }
}

/// An optional text setting: trimmed, and absent when not set or blank.
pub open spec fn optional_setting(v: Option<String>) -> Option<Seq<char>> {
    match v {
        Some(s) => if trim_spec(s@).len() > 0 {
            Some(trim_spec(s@))
        } else {
            None
        },
        None => None,
    }
}

/// The text of an optional string.
pub open spec fn opt_text(v: Option<String>) -> Option<Seq<char>> {
    match v {
        Some(s) => Some(s@),
        None => None,
    }
}

/// An integer setting of range `lo..=hi`, or `default` when it is not set or does not parse.
pub open spec fn int_setting(v: Option<String>, signed: bool, lo: int, hi: int, default: int) -> int {
    match v {
        Some(s) => match parse_integer_spec(s@, signed, lo, hi) {
            Some(x) => x,
            None => default,
        },
        None => default,
    }
}

fn text_or(v: &Option<String>, default: &str) -> (r: String)
    ensures
        r@ == text_setting(*v, default@),
{
    match v {
        Some(s) => s.clone(),
        None => String::from_str(default),
    }
}

fn optional_text(v: &Option<String>) -> (r: Option<String>)
    ensures
        opt_text(r) == optional_setting(*v),
{
    match v {
        Some(s) => non_empty(s.clone()),
        None => None,
    }
}

impl AppConfig {
    /// The configuration that the settings `vars` give, each unset or unreadable setting
    /// taking its default.
    pub fn from_vars(vars: &ConfigVars) -> (c: AppConfig)
        ensures
            c.host@ == text_setting(vars.app_host, "0.0.0.0"@),
            c.port == int_setting(vars.app_port, false, 0, u16::MAX as int, 8080),
            c.jwt_secret@ == text_setting(vars.jwt_secret, "change_me_in_prod"@),
            c.access_token_exp_secs == int_setting(vars.jwt_access_expires, true, i64::MIN as int, i64::MAX as int, 7200),
            c.refresh_token_exp_secs == int_setting(vars.jwt_refresh_expires, true, i64::MIN as int, i64::MAX as int, 604800),
            c.allow_negative_stock == (match vars.allow_negative_stock {
                Some(v) => flag_on_spec(v@),
                None => false,
            }),
            c.storage_backend == (match vars.storage_backend {
                Some(v) => StorageBackend::from_env_spec(v@),
                None => StorageBackend::Postgres,
            }),
            opt_text(c.database_url) == optional_setting(vars.database_url),
            c.sqlite_path@ == (match optional_setting(vars.sqlite_path) {
                Some(p) => p,
                None => "jxc.db"@,
            }),
            opt_text(c.redis_url) == optional_setting(vars.redis_url),
            c.postgres_max_connections == int_setting(vars.pg_max_connections, false, 0, u32::MAX as int, 10),
            opt_text(c.barcode_lookup_api_url) == optional_setting(vars.barcode_lookup_api_url),
            opt_text(c.barcode_lookup_api_key) == optional_setting(vars.barcode_lookup_api_key),
            c.barcode_lookup_timeout_ms == int_setting(vars.barcode_lookup_timeout_ms, false, 0, u64::MAX as int, 3000),
            c.barcode_lookup_found_ttl_secs == int_setting(
                vars.barcode_lookup_found_ttl_secs,
                true,
                i64::MIN as int,
                i64::MAX as int,
                2_592_000,
            ),
            c.barcode_lookup_not_found_ttl_secs == int_setting(
                vars.barcode_lookup_not_found_ttl_secs,
                true,
                i64::MIN as int,
                i64::MAX as int,
                86_400,
            ),
    {
        let host = text_or(&vars.app_host, "0.0.0.0");
        let port: u16 = match &vars.app_port {
            Some(v) => match parse_u16(v.as_str()) {
                Some(x) => x,
                None => 8080,
            },
            None => 8080,
        };
        let jwt_secret = text_or(&vars.jwt_secret, "change_me_in_prod");
        let access_token_exp_secs = i64_setting(&vars.jwt_access_expires, 7200);
        let refresh_token_exp_secs = i64_setting(&vars.jwt_refresh_expires, 604800);
        let allow_negative_stock = match &vars.allow_negative_stock {
            Some(v) => flag_on(v.as_str()),
            None => false,
        };
        let storage_backend = match &vars.storage_backend {
            Some(v) => StorageBackend::from_env(v.as_str()),
            None => StorageBackend::Postgres,
        };
        let database_url = optional_text(&vars.database_url);
        let sqlite_path = match optional_text(&vars.sqlite_path) {
            Some(p) => p,
            None => String::from_str("jxc.db"),
        };
        let redis_url = optional_text(&vars.redis_url);
        let postgres_max_connections: u32 = match &vars.pg_max_connections {
            Some(v) => match parse_u32(v.as_str()) {
                Some(x) => x,
                None => 10,
            },
            None => 10,
        };
        let barcode_lookup_api_url = optional_text(&vars.barcode_lookup_api_url);
        let barcode_lookup_api_key = optional_text(&vars.barcode_lookup_api_key);
        let barcode_lookup_timeout_ms: u64 = match &vars.barcode_lookup_timeout_ms {
            Some(v) => match parse_u64(v.as_str()) {
                Some(x) => x,
                None => 3000,
            },
            None => 3000,
        };
        let barcode_lookup_found_ttl_secs = i64_setting(&vars.barcode_lookup_found_ttl_secs, 2_592_000);
        let barcode_lookup_not_found_ttl_secs = i64_setting(&vars.barcode_lookup_not_found_ttl_secs, 86_400);
        AppConfig {
            host,
            port,
            jwt_secret,
            access_token_exp_secs,
            refresh_token_exp_secs,
            allow_negative_stock,
            storage_backend,
            database_url,
            sqlite_path,
            redis_url,
            postgres_max_connections,
            barcode_lookup_api_url,
            barcode_lookup_api_key,
            barcode_lookup_timeout_ms,
            barcode_lookup_found_ttl_secs,
            barcode_lookup_not_found_ttl_secs,
        }
    }
}

fn i64_setting(v: &Option<String>, default: i64) -> (r: i64)
    ensures
        r == int_setting(*v, true, i64::MIN as int, i64::MAX as int, default as int),
{
    match v {
        Some(s) => match parse_i64(s.as_str()) {
            Some(x) => x,
            None => default,
        },
        None => default,
    }
}

} // verus!
