//! The configuration, read from environment variables.

use crate::text::{chars, is_digit};
use vstd::prelude::*;

verus! {

/// The values of the environment variables that the server reads; `None` for one that is not
/// set.
#[derive(Debug, Clone)]
pub struct Environment {
    /// `RDAPI_BIND`
    pub bind: Option<String>,
    /// `RDAPI_DB`
    pub db: Option<String>,
    /// `RDAPI_TOKEN_TTL_DAYS`
    pub token_ttl_days: Option<String>,
    /// `RDAPI_DEVICE_STALE_DAYS`
    pub device_stale_days: Option<String>,
    /// `RDAPI_ADMIN_USER`
    pub admin_user: Option<String>,
    /// `RDAPI_ADMIN_PASSWORD`
    pub admin_password: Option<String>,
}

/// What an [`Environment`] holds.
pub struct EnvironmentView {
    pub bind: Option<Seq<char>>,
    pub db: Option<Seq<char>>,
    pub token_ttl_days: Option<Seq<char>>,
    pub device_stale_days: Option<Seq<char>>,
    pub admin_user: Option<Seq<char>>,
    pub admin_password: Option<Seq<char>>,
}

impl View for Environment {
    type V = EnvironmentView;

    open spec fn view(&self) -> EnvironmentView {
        EnvironmentView {
            bind: self.bind.deep_view(),
            db: self.db.deep_view(),
            token_ttl_days: self.token_ttl_days.deep_view(),
            device_stale_days: self.device_stale_days.deep_view(),
            admin_user: self.admin_user.deep_view(),
            admin_password: self.admin_password.deep_view(),
        }
    }
}

/// How the server runs.
#[derive(Debug, Clone)]
pub struct Config {
    pub bind: String,
    pub database_url: String,
    /// How many seconds a session lasts.
    pub token_ttl: u64,
    /// Devices not seen for this many days are hidden from the address book.
    /// 0 disables the filter (every device ever registered stays listed).
    pub device_stale_days: i64,
    /// Optional bootstrap admin, applied once on startup if the user table is empty.
    pub admin_user: Option<String>,
    pub admin_password: Option<String>,
}

/// What a [`Config`] holds.
pub struct ConfigView {
    pub bind: Seq<char>,
    pub database_url: Seq<char>,
    pub token_ttl: u64,
    pub device_stale_days: i64,
    pub admin_user: Option<Seq<char>>,
    pub admin_password: Option<Seq<char>>,
}

impl View for Config {
    type V = ConfigView;

    open spec fn view(&self) -> ConfigView {
        ConfigView {
            bind: self.bind@,
            database_url: self.database_url@,
            token_ttl: self.token_ttl,
            device_stale_days: self.device_stale_days,
            admin_user: self.admin_user.deep_view(),
            admin_password: self.admin_password.deep_view(),
        }
    }
}

/// `value`, where an empty text counts as not set.
pub open spec fn non_empty(value: Option<Seq<char>>) -> Option<Seq<char>> {
    match value {
        Some(s) => if s.len() > 0 {
            Some(s)
        } else {
            None
        },
        None => None,
    }
}

/// Drops an empty value.
pub fn filter_empty(value: Option<String>) -> (r: Option<String>)
    ensures
        r.deep_view() == non_empty(value.deep_view()),
{
    match value {
        Some(s) => if s.as_str().is_empty() {
            None
        } else {
            Some(s)
        },
        None => None,
    }
}

/// `value`, or `default` where it is not set or empty.
pub open spec fn set_or(value: Option<Seq<char>>, default: Seq<char>) -> Seq<char> {
    match non_empty(value) {
        Some(s) => s,
        None => default,
    }
}

/// The value of a variable, or `default` where it is not set or empty.
pub fn env_or(value: Option<String>, default: &str) -> (r: String)
    ensures
        r@ == set_or(value.deep_view(), default@),
{
    match filter_empty(value) {
        Some(s) => s,
        None => default.to_owned(),
    }
}

/// The number that the digits `s` write.
pub open spec fn digits_value(s: Seq<char>) -> int
    decreases s.len(),
{
    if s.len() == 0 {
        0
    } else {
        digits_value(s.drop_last()) * 10 + (s.last() as int - '0' as int)
    }
}

/// The digits in `s`: what follows the sign, if it has one.
pub open spec fn unsigned(s: Seq<char>) -> Seq<char> {
    if s.len() > 0 && (s[0] == '+' || s[0] == '-') {
        s.skip(1)
    } else {
        s
    }
}

/// The number that `s` writes: digits, at least one, behind an optional sign.
pub open spec fn written_number(s: Seq<char>) -> Option<int> {
    let digits = unsigned(s);
    if digits.len() > 0 && forall|i: int| 0 <= i < digits.len() ==> is_digit(#[trigger] digits[i]) {
        if s[0] == '-' {
            Some(-digits_value(digits))
        } else {
            Some(digits_value(digits))
        }
    } else {
        None
    }
}

/// The `i64` that `s` writes; `None` also where the number is out of range.
pub open spec fn parsed_i64(s: Seq<char>) -> Option<i64> {
    match written_number(s) {
        Some(n) => if i64::MIN <= n <= i64::MAX {
            Some(n as i64)
        } else {
            None
        },
        None => None,
    }
}

/// A longer row of digits never writes a smaller number.
proof fn lemma_prefix_value(s: Seq<char>, n: int)
    requires
        0 <= n <= s.len(),
        forall|i: int| 0 <= i < s.len() ==> is_digit(#[trigger] s[i]),
    ensures
        0 <= digits_value(s.take(n)) <= digits_value(s),
    decreases s.len() - n, n,
{
    if n == s.len() {
        assert(s.take(n) == s);
        if n > 0 {
            lemma_prefix_value(s.drop_last(), n - 1);
            assert(s.drop_last().take(n - 1) == s.drop_last());
        }
    } else {
        lemma_prefix_value(s, n + 1);
        lemma_prefix_value(s.take(n), n);
        assert(s.take(n).take(n) == s.take(n));
        assert(s.take(n + 1).drop_last() == s.take(n));
    }
}

/// Reads a decimal number as `str::parse` does for an `i64`.
pub fn parse_i64(value: &str) -> (r: Option<i64>)
    ensures
        r == parsed_i64(value@),
{
    let s = chars(value);
    let n: usize = s.len();
    if n == 0 {
        return None;
    }
    let negative = s[0] == '-';
    let start: usize = if negative || s[0] == '+' {
        1
    } else {
        0
    };
    let ghost digits = unsigned(s@);
    proof {
        assert(digits =~= s@.skip(start as int));
    }
    if start == n {
        return None;
    }
    let mut i: usize = start;
    let mut total: i128 = 0;
    while i < n
        invariant
            start <= i <= n,
            n == s@.len(),
            start <= 1,
            s@ == value@,
            digits == unsigned(s@),
            digits == s@.skip(start as int),
            negative == (s@[0] == '-'),
            start < n,
            forall|k: int| 0 <= k < i - start ==> is_digit(#[trigger] digits[k]),
            total == digits_value(digits.take(i - start)),
            0 <= total <= 9_223_372_036_854_775_808,
        decreases n - i,
    {
        let c = s[i];
        proof {
            assert(c == digits[i - start]);
        }
        if c < '0' || c > '9' {
            proof {
                assert(!is_digit(digits[i - start]));
            }
            return None;
        }
        proof {
            assert(digits.take(i - start + 1).drop_last() =~= digits.take(i - start));
            assert(digits.take(i - start + 1).last() == c);
        }
        total = total * 10 + (c as u32 - '0' as u32) as i128;
        i = i + 1;
        if total > 9_223_372_036_854_775_808 {
            proof {
                if forall|k: int| 0 <= k < digits.len() ==> is_digit(#[trigger] digits[k]) {
                    lemma_prefix_value(digits, i - start);
                }
            }
            return None;
        }
    }
    proof {
        assert(digits.take(n - start) =~= digits);
    }
    if negative {
        Some((0 - total) as i64)
    } else if total < 9_223_372_036_854_775_808 {
        Some(total as i64)
    } else {
        None
    }
}

/// The number that `value` writes, or `default` where it writes none.
pub open spec fn number_or(value: Option<Seq<char>>, default: i64) -> i64 {
    match value {
        Some(s) => match parsed_i64(s) {
            Some(n) => n,
            None => default,
        },
        None => default,
    }
}

/// The number in a variable, or `default` where it is not set or no number.
pub fn env_parse(value: Option<String>, default: i64) -> (r: i64)
    ensures
        r == number_or(value.deep_view(), default),
{
    match value {
        Some(s) => match parse_i64(s.as_str()) {
            Some(n) => n,
            None => default,
        },
        None => default,
    }
}

/// The greater of two numbers.
pub open spec fn at_least(n: i64, least: i64) -> i64 {
    if n < least {
        least
    } else {
        n
    }
}

fn raise(n: i64, least: i64) -> (r: i64)
    ensures
        r == at_least(n, least),
{
    if n < least {
        least
    } else {
        n
    }
}

/// The configuration that the environment asks for. A session lasts at least one day, and the
/// product of days and seconds wraps where it leaves the range of `u64`.
pub open spec fn configured(env: EnvironmentView) -> ConfigView {
    ConfigView {
        bind: set_or(env.bind, "0.0.0.0:21114"@),
        database_url: set_or(env.db, "sqlite://rustdesk-api.db"@),
        token_ttl: (at_least(number_or(env.token_ttl_days, 30), 1) as u64).wrapping_mul(86_400),
        device_stale_days: at_least(number_or(env.device_stale_days, 0), 0),
        admin_user: non_empty(env.admin_user),
        admin_password: non_empty(env.admin_password),
    }
}

impl Config {
    /// Reads the configuration out of the environment.
    pub fn from_env(env: Environment) -> (r: Self)
        ensures
            r@ == configured(env@),
    {
        let token_ttl_days: i64 = raise(env_parse(env.token_ttl_days, 30), 1);
        let device_stale_days: i64 = raise(env_parse(env.device_stale_days, 0), 0);
        Config {
            bind: env_or(env.bind, "0.0.0.0:21114"),
            database_url: env_or(env.db, "sqlite://rustdesk-api.db"),
            token_ttl: (token_ttl_days as u64).wrapping_mul(86_400),
            device_stale_days,
            admin_user: filter_empty(env.admin_user),
            admin_password: filter_empty(env.admin_password),
        }
    }
}

/// Whatever the environment holds, stale days are never negative, an account is only named
/// with a name, and a session lasts the configured number of days, at least one, as long as
/// that many seconds can be counted.
pub proof fn law_config_bounds(env: EnvironmentView)
    ensures
        configured(env).device_stale_days >= 0,
        configured(env).admin_user matches Some(name) ==> name.len() > 0,
        configured(env).admin_password matches Some(password) ==> password.len() > 0,
        number_or(env.token_ttl_days, 30) <= u64::MAX / 86_400 ==> {
            &&& configured(env).token_ttl >= 86_400
            &&& configured(env).token_ttl == at_least(number_or(env.token_ttl_days, 30), 1) * 86_400
        },
{
}

} // verus!
