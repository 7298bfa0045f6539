//! Text: what is found in it, and how it is read and written.

use crate::api::device::platform_of;
use crate::api::group::{icon_of, os_of};
use crate::auth::{
    can_be_hashed, hashes_to, is_argon2id, password_accepted, password_matches, too_parallel,
    wide_at,
};
use crate::cli::{blank, truncated, white_space};
use crate::config::{
    at_least, configured, digits_value, non_empty, number_or, parsed_i64, set_or, unsigned,
    EnvironmentView,
};
use crate::db::{hex, hex_digit, is_hex, DeviceView};
use crate::text::{decimal, digit, found_at, has, is_digit, lower, padded, spaces};
use vstd::prelude::*;

verus! {

// ---------------------------------------------------------------------------
// Case
// ---------------------------------------------------------------------------

/// Lower-casing keeps every character in its place and changes nothing but the letters from A
/// to Z, each to the letter 32 places further on.
pub proof fn law_lower_changes_capitals_only(s: Seq<char>)
    ensures
        lower(s).len() == s.len(),
        forall|i: int|
            0 <= i < s.len() && 'A' <= s[i] <= 'Z' ==> #[trigger] lower(s)[i] as int == s[i] as int
                + 32,
        forall|i: int|
            0 <= i < s.len() && !('A' <= s[i] <= 'Z') ==> #[trigger] lower(s)[i] == s[i],
{
}

/// Lower-casing twice is lower-casing once, and goes part by part.
pub proof fn law_lower_is_idempotent(a: Seq<char>, b: Seq<char>)
    ensures
        lower(lower(a)) == lower(a),
        lower(a + b) == lower(a) + lower(b),
{
    assert(lower(lower(a)) =~= lower(a));
    assert(lower(a + b) =~= lower(a) + lower(b));
}

// ---------------------------------------------------------------------------
// Search
// ---------------------------------------------------------------------------

/// A text is found in every text that is made of something, it, and something more.
pub proof fn law_part_is_found(a: Seq<char>, part: Seq<char>, b: Seq<char>)
    ensures
        has(a + part + b, part),
{
    let s = a + part + b;
    assert(s.subrange(a.len() as int, (a.len() + part.len()) as int) =~= part);
    assert(found_at(s, part, a.len() as int));
}

/// Where a text is found, the whole is made of something, it, and something more.
pub proof fn law_found_part_splits_the_text(s: Seq<char>, part: Seq<char>) -> (r: (
    Seq<char>,
    Seq<char>,
))
    requires
        has(s, part),
    ensures
        s == r.0 + part + r.1,
{
    let i = choose|i: int| #[trigger] found_at(s, part, i);
    let a = s.take(i);
    let b = s.skip(i + part.len());
    assert(s =~= a + s.subrange(i, i + part.len()) + b);
    (a, b)
}

// ---------------------------------------------------------------------------
// Platforms
// ---------------------------------------------------------------------------

/// The platform of an `os` string is the first of these whose word stands in it, in upper or
/// lower case and whatever stands around it; without any of the words it is unknown.
pub proof fn law_platform_is_told_by_a_word(os: Seq<char>)
    ensures
        ({
            let name = lower(os);
            let windows = has(name, "windows"@);
            let android = has(name, "android"@);
            let ios = has(name, "ios"@);
            let mac = has(name, "mac"@) || has(name, "darwin"@);
            let linux = has(name, "linux"@);
            &&& windows ==> platform_of(os) == "Windows"@
            &&& android && !windows ==> platform_of(os) == "Android"@
            &&& ios && !windows && !android ==> platform_of(os) == "iOS"@
            &&& mac && !windows && !android && !ios ==> platform_of(os) == "Mac OS"@
            &&& linux && !windows && !android && !ios && !mac ==> platform_of(os) == "Linux"@
            &&& !windows && !android && !ios && !mac && !linux ==> platform_of(os).len() == 0
        }),
        platform_of(lower(os)) == platform_of(os),
{
    reveal_strlit("");
    law_lower_is_idempotent(os, os);
}

/// The `os` string that the client gets for a workstation begins with the word of the
/// platform's icon, followed by what the workstation reported, if anything; for any other
/// platform it is what the workstation reported.
pub proof fn law_os_string_of_every_platform(device: DeviceView)
    ensures
        device.platform == "Windows"@ ==> is_prefixed(os_of(device), "windows"@, device.os),
        device.platform == "Linux"@ ==> is_prefixed(os_of(device), "linux"@, device.os),
        device.platform == "Mac OS"@ ==> is_prefixed(os_of(device), "macos"@, device.os),
        device.platform == "Android"@ ==> is_prefixed(os_of(device), "android"@, device.os),
        device.platform != "Windows"@ && device.platform != "Linux"@ && device.platform
            != "Mac OS"@ && device.platform != "Android"@ ==> os_of(device) == device.os,
{
    reveal_strlit("Windows");
    reveal_strlit("Linux");
    reveal_strlit("Mac OS");
    reveal_strlit("Android");
    assert("Windows"@.len() == 7);
    assert("Linux"@.len() == 5);
    assert("Mac OS"@.len() == 6);
    assert("Android"@.len() == 7);
    assert("Windows"@[0] == 'W');
    assert("Android"@[0] == 'A');
    if let Some(word) = icon_of(device.platform) {
        assert(word + " / "@ + device.os =~= word + (" / "@ + device.os));
    }
}

/// `s` is `word`, followed by `" / "` and `rest` where there is any.
pub open spec fn is_prefixed(s: Seq<char>, word: Seq<char>, rest: Seq<char>) -> bool {
    if rest.len() == 0 {
        s == word
    } else {
        s == word + (" / "@ + rest)
    }
}

// ---------------------------------------------------------------------------
// Columns
// ---------------------------------------------------------------------------

/// A text that is filled up keeps its characters, is at least as wide as was asked for and no
/// wider than it has to be, and is filled up with spaces.
pub proof fn law_padding_fills_with_spaces(s: Seq<char>, width: nat)
    ensures
        padded(s, width).len() >= width,
        padded(s, width).len() == s.len() || padded(s, width).len() == width,
        padded(s, width).take(s.len() as int) == s,
        forall|i: int|
            s.len() <= i < padded(s, width).len() ==> #[trigger] padded(s, width)[i] == ' ',
        s.len() >= width ==> padded(s, width) == s,
        spaces(width).len() == width,
        forall|i: int| 0 <= i < width ==> #[trigger] spaces(width)[i] == ' ',
{
    assert(padded(s, width).take(s.len() as int) =~= s);
}

/// A text that fits is not cut. One that does not is cut so that it fits together with the
/// ellipsis that stands for what is missing.
pub proof fn law_truncation_marks_what_is_missing(value: Seq<char>, max: nat)
    ensures
        value.len() <= max ==> truncated(value, max) == value,
        value.len() > max && max > 0 ==> {
            &&& truncated(value, max).len() == max
            &&& truncated(value, max).last() == '\u{2026}'
            &&& forall|i: int|
                0 <= i < max - 1 ==> #[trigger] truncated(value, max)[i] == value[i]
        },
        value.len() > 0 && max == 0 ==> truncated(value, max).len() == 1 && truncated(
            value,
            max,
        ).last() == '\u{2026}',
{
}

/// A text is blank exactly if all of its parts are, and a character is blank exactly if it is
/// white space.
pub proof fn law_blank_goes_part_by_part(a: Seq<char>, c: char, b: Seq<char>)
    ensures
        blank(a + seq![c] + b) <==> blank(a) && white_space(c) && blank(b),
        blank(Seq::empty()),
{
    let s = a + seq![c] + b;
    if blank(s) {
        assert forall|i: int| 0 <= i < a.len() implies white_space(#[trigger] a[i]) by {
            assert(s[i] == a[i]);
        }
        assert(s[a.len() as int] == c);
        assert forall|i: int| 0 <= i < b.len() implies white_space(#[trigger] b[i]) by {
            assert(s[a.len() + 1 + i] == b[i]);
        }
    }
}

// ---------------------------------------------------------------------------
// Decimal numbers
// ---------------------------------------------------------------------------

/// `s` is made of decimal digits, at least one.
pub open spec fn is_digits(s: Seq<char>) -> bool {
    &&& s.len() > 0
    &&& forall|i: int| 0 <= i < s.len() ==> '0' <= #[trigger] s[i] <= '9'
}

/// One more digit makes the number ten times as large and adds the digit.
pub proof fn law_digit_shifts_the_number(s: Seq<char>, c: char)
    ensures
        digits_value(Seq::empty()) == 0,
        digits_value(s.push(c)) == 10 * digits_value(s) + (c as int - '0' as int),
{
    assert(s.push(c).drop_last() =~= s);
}

/// A number that is written in decimal reads back as that number, and is written without
/// leading zeros.
pub proof fn law_decimal_round_trip(n: nat)
    ensures
        is_digits(decimal(n)),
        digits_value(decimal(n)) == n,
        n > 0 ==> decimal(n)[0] != '0',
        n == 0 ==> decimal(n) == seq!['0'],
    decreases n,
{
    if n >= 10 {
        law_decimal_round_trip(n / 10);
        law_digit_shifts_the_number(decimal(n / 10), digit((n % 10) as int));
        assert(decimal(n)[0] == decimal(n / 10)[0]);
    } else {
        let empty = Seq::<char>::empty();
        law_digit_shifts_the_number(empty, digit(n as int));
        assert(decimal(n) =~= empty.push(digit(n as int)));
    }
}

/// Digits, alone or behind a sign, are read as the number that they write if it is in range; no
/// other text is read as a number.
pub proof fn law_numbers_are_read(s: Seq<char>, digits: Seq<char>)
    ensures
        is_digits(digits) ==> {
            let n = digits_value(digits);
            &&& parsed_i64(digits) == if n <= i64::MAX {
                Some(n as i64)
            } else {
                None
            }
            &&& parsed_i64(seq!['+'] + digits) == parsed_i64(digits)
            &&& parsed_i64(seq!['-'] + digits) == if n <= i64::MAX + 1 {
                Some((-n) as i64)
            } else {
                None
            }
        },
        parsed_i64(s) is Some ==> {
            ||| is_digits(s)
            ||| s.len() > 1 && (s[0] == '+' || s[0] == '-') && is_digits(s.skip(1))
        },
{
    if is_digits(digits) {
        lemma_digits_are_not_negative(digits);
        let plus = seq!['+'] + digits;
        let minus = seq!['-'] + digits;
        assert(plus.skip(1) =~= digits);
        assert(minus.skip(1) =~= digits);
        assert(unsigned(digits) == digits);
        assert(unsigned(plus) == digits);
        assert(unsigned(minus) == digits);
        assert forall|i: int| 0 <= i < digits.len() implies is_digit(#[trigger] digits[i]) by {}
    }
    if parsed_i64(s) is Some {
        let rest = unsigned(s);
        assert(forall|i: int| 0 <= i < rest.len() ==> is_digit(#[trigger] rest[i]));
        assert(is_digits(rest));
    }
}

proof fn lemma_digits_are_not_negative(s: Seq<char>)
    requires
        forall|i: int| 0 <= i < s.len() ==> '0' <= #[trigger] s[i] <= '9',
    ensures
        digits_value(s) >= 0,
    decreases s.len(),
{
    if s.len() > 0 {
        assert('0' <= s[s.len() - 1] <= '9');
        assert forall|i: int| 0 <= i < s.drop_last().len() implies '0'
            <= #[trigger] s.drop_last()[i] <= '9' by {
            assert(s[i] == s.drop_last()[i]);
        }
        lemma_digits_are_not_negative(s.drop_last());
    }
}

// ---------------------------------------------------------------------------
// Configuration
// ---------------------------------------------------------------------------

/// A variable counts where it is set to something; otherwise the default does. A number counts
/// where one can be read, and is raised to the least that is allowed.
pub proof fn law_variables_or_defaults(
    value: Option<Seq<char>>,
    default: Seq<char>,
    number: i64,
    least: i64,
)
    ensures
        (value matches Some(s) && s.len() > 0) ==> set_or(value, default) == value->0
            && non_empty(value) == value,
        !(value matches Some(s) && s.len() > 0) ==> set_or(value, default) == default
            && non_empty(value) is None,
        (value matches Some(s) && parsed_i64(s) is Some) ==> number_or(value, number)
            == parsed_i64(value->0)->0,
        !(value matches Some(s) && parsed_i64(s) is Some) ==> number_or(value, number) == number,
        at_least(number, least) >= number,
        at_least(number, least) >= least,
        at_least(number, least) == number || at_least(number, least) == least,
{
}

/// Every setting comes from its own variable, or from its default.
pub proof fn law_settings_come_from_their_variables(env: EnvironmentView)
    ensures
        configured(env).bind == set_or(env.bind, "0.0.0.0:21114"@),
        configured(env).database_url == set_or(env.db, "sqlite://rustdesk-api.db"@),
        configured(env).device_stale_days == at_least(number_or(env.device_stale_days, 0), 0),
        at_least(number_or(env.token_ttl_days, 30), 1) <= u64::MAX / 86_400 ==> configured(
            env,
        ).token_ttl == 86_400 * at_least(number_or(env.token_ttl_days, 30), 1),
        configured(env).admin_user == non_empty(env.admin_user),
        configured(env).admin_password == non_empty(env.admin_password),
{
}

// ---------------------------------------------------------------------------
// Hexadecimal digits
// ---------------------------------------------------------------------------

/// The value of a lower-case hexadecimal digit.
pub open spec fn hex_value(c: char) -> int {
    if c <= '9' {
        c as int - '0' as int
    } else {
        c as int - 'a' as int + 10
    }
}

/// Every byte is written as two lower-case digits, the high one first, from which it can be
/// read back.
pub proof fn law_hex_round_trip(bytes: Seq<u8>)
    ensures
        hex(bytes).len() == 2 * bytes.len(),
        is_hex(hex(bytes), 2 * bytes.len()),
        forall|i: int|
            #![trigger bytes[i]]
            0 <= i < bytes.len() ==> 16 * hex_value(hex(bytes)[2 * i]) + hex_value(
                hex(bytes)[2 * i + 1],
            ) == bytes[i],
{
    let s = hex(bytes);
    assert forall|i: int| 0 <= i < s.len() implies ('0' <= #[trigger] s[i] && s[i] <= '9') || ('a'
        <= s[i] && s[i] <= 'f') by {
        lemma_hex_digit(bytes[i / 2] as int / 16);
        lemma_hex_digit(bytes[i / 2] as int % 16);
    }
    assert forall|i: int| 0 <= i < bytes.len() implies 16 * hex_value(s[2 * i]) + hex_value(
        s[2 * i + 1],
    ) == #[trigger] bytes[i] by {
        lemma_hex_digit(bytes[i] as int / 16);
        lemma_hex_digit(bytes[i] as int % 16);
        assert((2 * i) / 2 == i && (2 * i + 1) / 2 == i);
    }
}

proof fn lemma_hex_digit(d: int)
    requires
        0 <= d < 16,
    ensures
        hex_value(hex_digit(d)) == d,
        ('0' <= hex_digit(d) && hex_digit(d) <= '9') || ('a' <= hex_digit(d) && hex_digit(d)
            <= 'f'),
{
}

/// What is made of hexadecimal digits has its length and no other characters.
pub proof fn law_hex_has_no_other_characters(s: Seq<char>, n: nat, i: int)
    requires
        is_hex(s, n),
        0 <= i < n,
    ensures
        s.len() == n,
        0 <= hex_value(s[i]) < 16,
        s[i] == hex_digit(hex_value(s[i])),
{
}

// ---------------------------------------------------------------------------
// Passwords
// ---------------------------------------------------------------------------

/// A password is accepted exactly if it matches the stored hash and the hash does not ask for
/// more than can be; so a hash that was made from it accepts it, and says that it was made with
/// Argon2id.
pub proof fn law_password_is_accepted(password: Seq<char>, hash: Seq<char>)
    ensures
        password_accepted(password, hash) <==> password_matches(password, hash) && !too_parallel(
            hash,
        ),
        hashes_to(password, Some(hash)) ==> password_accepted(password, hash),
        hashes_to(password, Some(hash)) ==> exists|rest: Seq<char>| hash == #[trigger] ("$argon2id$"@
            + rest),
        hashes_to(password, None) <==> !can_be_hashed(password),
        hashes_to(password, Some(hash)) ==> can_be_hashed(password),
{
    if hashes_to(password, Some(hash)) {
        assert(is_argon2id(hash));
        assert(hash =~= "$argon2id$"@ + hash.skip(10));
    }
}

/// A hash asks for too much exactly if `p=` and nine digits stand in it somewhere.
pub proof fn law_too_parallel_is_nine_digits(
    a: Seq<char>,
    digits: Seq<char>,
    b: Seq<char>,
)
    requires
        digits.len() == 9,
        is_digits(digits),
    ensures
        too_parallel(a + "p="@ + digits + b),
{
    reveal_strlit("p=");
    assert("p="@.len() == 2 && "p="@[0] == 'p' && "p="@[1] == '=');
    let hash = a + "p="@ + digits + b;
    let i = a.len() as int;
    assert forall|k: int| i + 2 <= k < i + 11 implies is_digit(#[trigger] hash[k]) by {
        assert(hash[k] == digits[k - i - 2]);
    }
    assert(wide_at(hash, i));
}

/// The other way round: a hash that asks for too much holds `p=` and nine digits.
pub proof fn law_nine_digits_are_found(hash: Seq<char>) -> (r: (Seq<char>, Seq<char>, Seq<char>))
    requires
        too_parallel(hash),
    ensures
        r.1.len() == 9,
        is_digits(r.1),
        hash == r.0 + "p="@ + r.1 + r.2,
{
    reveal_strlit("p=");
    assert("p="@.len() == 2 && "p="@[0] == 'p' && "p="@[1] == '=');
    let i = choose|i: int| #[trigger] wide_at(hash, i);
    let digits = hash.subrange(i + 2, i + 11);
    assert forall|k: int| 0 <= k < digits.len() implies '0' <= #[trigger] digits[k] <= '9' by {
        assert(is_digit(hash[i + 2 + k]));
    }
    let a = hash.take(i);
    let b = hash.skip(i + 11);
    assert(hash =~= a + "p="@ + digits + b);
    (a, digits, b)
}

} // verus!
