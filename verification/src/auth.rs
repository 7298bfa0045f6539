//! Passwords and session tokens.

use crate::db::{is_hex, random_bytes, to_hex};
use crate::text::{chars, is_digit};
use argon2::{PasswordHasher, PasswordVerifier};
use vstd::prelude::*;
use vstd::string::StrSliceExecFns;

verus! {

/// An error of `argon2` in hashing a password.
#[verifier::external_type_specification]
#[verifier::external_body]
pub struct ExPasswordHashError(argon2::password_hash::Error);

/// Whether `hash` is a password hash that `password` matches.
pub uninterp spec fn password_matches(password: Seq<char>, hash: Seq<char>) -> bool;

/// From position `i` on `hash` asks for a degree of parallelism of nine digits or more.
pub open spec fn wide_at(hash: Seq<char>, i: int) -> bool {
    &&& 0 <= i
    &&& i + 11 <= hash.len()
    &&& hash[i] == 'p'
    &&& hash[i + 1] == '='
    &&& forall|k: int| i + 2 <= k < i + 11 ==> is_digit(#[trigger] hash[k])
}

/// `hash` asks for a degree of parallelism of nine digits or more. Argon2 allows no more than
/// 2^24 - 1, so no password matches such a hash.
pub open spec fn too_parallel(hash: Seq<char>) -> bool {
    exists|i: int| #[trigger] wide_at(hash, i)
}

/// Calls `argon2::PasswordHash::new` on the stored hash and `verify_password` of
/// `argon2::Argon2` on what it holds, whose arithmetic on the degree of parallelism can
/// overflow from nine digits on. Claimed: the answer depends on the two texts alone. The call
/// takes as much memory as the parameters in the stored hash ask for.
#[verifier::external_body]
fn matches_hash(password: &str, hash: &str) -> (r: bool)
    requires
        !too_parallel(hash@),
    ensures
        r == password_matches(password@, hash@),
{
    match argon2::PasswordHash::new(hash) {
        Ok(parsed) => argon2::Argon2::default().verify_password(password.as_bytes(), &parsed).is_ok(),
        Err(_) => false,
    }
}

/// Whether `hash` asks for a degree of parallelism of nine digits or more.
pub fn asks_too_much(hash: &str) -> (r: bool)
    ensures
        r == too_parallel(hash@),
{
    let s = chars(hash);
    let n: usize = s.len();
    let mut i: usize = 0;
    while i < n && n - i >= 11
        invariant
            s@ == hash@,
            n == s@.len(),
            i <= n,
            forall|j: int| 0 <= j < i ==> !#[trigger] wide_at(s@, j),
        decreases n - i,
    {
        if s[i] == 'p' && s[i + 1] == '=' {
            let mut k: usize = i + 2;
            while k < i + 11 && '0' <= s[k] && s[k] <= '9'
                invariant
                    s@ == hash@,
                    n == s@.len(),
                    i + 11 <= n,
                    i + 2 <= k <= i + 11,
                    forall|j: int| i + 2 <= j < k ==> is_digit(#[trigger] s@[j]),
                decreases i + 11 - k,
            {
                k = k + 1;
            }
            if k == i + 11 {
                proof {
                    assert(wide_at(s@, i as int));
                }
                return true;
            }
            proof {
                assert(!is_digit(s@[k as int]));
            }
        }
        i = i + 1;
    }
    false
}

/// A login with `password` is let through by the stored `hash`.
pub open spec fn password_accepted(password: Seq<char>, hash: Seq<char>) -> bool {
    !too_parallel(hash) && password_matches(password, hash)
}

/// Whether `password` is the one that `hash` was made from. What is no password hash, or asks
/// for more than Argon2 allows, lets nobody through.
pub fn verify_password(password: &str, hash: &str) -> (r: bool)
    ensures
        r == password_accepted(password@, hash@),
{
    !asks_too_much(hash) && matches_hash(password, hash)
}

/// `password` is short enough for Argon2: its UTF-8 form has at most 2^32 - 1 bytes.
pub open spec fn can_be_hashed(password: Seq<char>) -> bool {
    vstd::utf8::encode_utf8(password).len() <= 0xFFFF_FFFF
}

/// `hash` says of itself that it was made with Argon2id.
pub open spec fn is_argon2id(hash: Seq<char>) -> bool {
    hash.len() >= 10 && hash.take(10) == "$argon2id$"@
}

/// `hash` is what hashing `password` can give; `None` where it is too long.
pub open spec fn hashes_to(password: Seq<char>, hash: Option<Seq<char>>) -> bool {
    match hash {
        Some(hash) => can_be_hashed(password) && password_accepted(password, hash) && is_argon2id(
            hash,
        ),
        None => !can_be_hashed(password),
    }
}

/// Calls `hash_password` of `argon2::Argon2` on a salt that `SaltString::generate` draws from
/// `rand_core::OsRng`, which panics where the operating system gives no randomness. Claimed: it
/// succeeds unless the password is too long; the hash that comes back begins with the name of
/// Argon2id and asks for the default degree of parallelism, which is 1; and the password
/// matches it. The hash itself is left to chance.
#[verifier::external_body]
fn hash_with_salt(password: &str) -> (r: Result<String, argon2::password_hash::Error>)
    ensures
        match r {
            Ok(hash) => {
                &&& can_be_hashed(password@)
                &&& password_matches(password@, hash@)
                &&& is_argon2id(hash@)
                &&& !too_parallel(hash@)
            },
            Err(_) => !can_be_hashed(password@),
        },
{
    let salt = argon2::password_hash::SaltString::generate(&mut rand_core::OsRng);
    let hash = argon2::Argon2::default().hash_password(password.as_bytes(), &salt)?;
    Ok(hash.to_string())
}

/// Hashes a password for storage, with Argon2id; `None` where it is too long.
pub fn hash_password(password: &str) -> (r: Option<String>)
    ensures
        hashes_to(password@, r.deep_view()),
{
    match hash_with_salt(password) {
        Ok(hash) => Some(hash),
        Err(_) => None,
    }
}

/// A fresh session token: 256 random bits, hex encoded.
pub fn generate_token() -> (r: String)
    ensures
        is_hex(r@, 64),
{
    let bytes = random_bytes(32);
    to_hex(&bytes)
}

/// The token that an `Authorization` header with the value `header` carries.
pub open spec fn token_of(header: Option<Seq<char>>) -> Option<Seq<char>> {
    match header {
        Some(value) => {
            if value.len() >= 7 && value.take(7) == "Bearer "@ {
                Some(value.skip(7))
            } else {
                None
            }
        },
        None => None,
    }
}

/// The token in the value of an `Authorization` header: what follows `Bearer `.
pub fn bearer_token(header: Option<String>) -> (r: Option<String>)
    ensures
        r.deep_view() == token_of(header.deep_view()),
{
    match header {
        Some(value) => {
            let n = value.as_str().unicode_len();
            proof {
                reveal_strlit("Bearer ");
            }
            if n >= 7 && value.as_str().substring_char(0, 7).to_owned() == "Bearer ".to_owned() {
                proof {
                    assert(value@.take(7) =~= value@.subrange(0, 7));
                    assert(value@.skip(7) =~= value@.subrange(7, n as int));
                }
                Some(value.as_str().substring_char(7, n).to_owned())
            } else {
                proof {
                    assert(value@.len() >= 7 ==> value@.take(7) =~= value@.subrange(0, 7));
                }
                None
            }
        },
        None => None,
    }
}

} // verus!
