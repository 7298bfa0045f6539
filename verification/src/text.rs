//! Small operations on text, stated over sequences of characters.

use vstd::prelude::*;
use vstd::string::StringExecFns;

verus! {

/// Appends one character: `String::push` adds it at the end and changes nothing else.
pub assume_specification[ String::push ](s: &mut String, c: char)
    ensures
        final(s)@ == old(s)@.push(c),
;

/// `c` with an upper-case ASCII letter replaced by its lower-case form.
pub open spec fn lower_char(c: char) -> char {
    if 'A' <= c && c <= 'Z' {
        ((c as u8) + 32) as char
    } else {
        c
    }
}

/// `s` with every upper-case ASCII letter replaced by its lower-case form.
pub open spec fn lower(s: Seq<char>) -> Seq<char> {
    Seq::new(s.len(), |i: int| lower_char(s[i]))
}

/// `part` stands in `s` from position `i` on.
pub open spec fn found_at(s: Seq<char>, part: Seq<char>, i: int) -> bool {
    &&& 0 <= i
    &&& i + part.len() <= s.len()
    &&& s.subrange(i, i + part.len()) == part
}

/// `part` stands somewhere in `s`.
pub open spec fn has(s: Seq<char>, part: Seq<char>) -> bool {
    exists|i: int| #[trigger] found_at(s, part, i)
}

/// The characters of `s`, one by one.
pub fn chars(s: &str) -> (r: Vec<char>)
    ensures
        r@ == s@,
{
    let mut r: Vec<char> = Vec::new();
    for c in it: s.chars()
        invariant
            it.seq() == s@,
            r@ == s@.take(it.index() as int),
    {
        r.push(c);
    }
    proof {
        assert(s@.take(s@.len() as int) == s@);
    }
    r
}

/// The characters of `part` from `from` up to `to`, as text.
pub fn collect(part: &Vec<char>, from: usize, to: usize) -> (r: String)
    requires
        from <= to <= part@.len(),
    ensures
        r@ == part@.subrange(from as int, to as int),
{
    let mut r = String::new();
    let mut i: usize = from;
    while i < to
        invariant
            from <= i <= to <= part@.len(),
            r@ == part@.subrange(from as int, i as int),
        decreases to - i,
    {
        r.push(part[i]);
        i = i + 1;
    }
    r
}

/// Lower-cases the ASCII letters of `s`.
pub fn to_lower(s: &str) -> (r: Vec<char>)
    ensures
        r@ == lower(s@),
{
    let mut r: Vec<char> = Vec::new();
    for c in it: s.chars()
        invariant
            it.seq() == s@,
            r@ == lower(s@).take(it.index() as int),
    {
        let l = if 'A' <= c && c <= 'Z' {
            ((c as u8) + 32) as char
        } else {
            c
        };
        r.push(l);
    }
    proof {
        assert(lower(s@).take(s@.len() as int) == lower(s@));
    }
    r
}

/// Whether `part` stands in `s` from position `at` on.
fn stands_at(s: &Vec<char>, part: &Vec<char>, at: usize) -> (r: bool)
    requires
        at + part@.len() <= s@.len(),
    ensures
        r == found_at(s@, part@, at as int),
{
    let n: usize = s.len();
    let mut k: usize = 0;
    while k < part.len()
        invariant
            n == s@.len(),
            k <= part@.len(),
            at + part@.len() <= n,
            forall|j: int| 0 <= j < k ==> s@[at + j] == part@[j],
        decreases part@.len() - k,
    {
        if s[at + k] != part[k] {
            proof {
                if found_at(s@, part@, at as int) {
                    assert(s@.subrange(at as int, at + part@.len())[k as int] == part@[k as int]);
                }
            }
            return false;
        }
        k = k + 1;
    }
    proof {
        assert(s@.subrange(at as int, at + part@.len()) =~= part@);
    }
    true
}

/// Whether `part` stands somewhere in `s`.
pub fn contains(s: &Vec<char>, part: &str) -> (r: bool)
    ensures
        r == has(s@, part@),
{
    let pattern = chars(part);
    if pattern.len() > s.len() {
        return false;
    }
    let last: usize = s.len() - pattern.len();
    let mut i: usize = 0;
    loop
        invariant
            pattern@ == part@,
            last == s@.len() - pattern@.len(),
            i <= last,
            forall|j: int| 0 <= j < i ==> !#[trigger] found_at(s@, pattern@, j),
        decreases last - i,
    {
        if stands_at(s, &pattern, i) {
            return true;
        }
        if i == last {
            return false;
        }
        i = i + 1;
    }
}

/// `a` followed by `b`.
pub fn join(a: &str, b: &str) -> (r: String)
    ensures
        r@ == a@ + b@,
{
    let mut r = a.to_owned();
    r.append(b);
    r
}

/// `n` spaces.
pub open spec fn spaces(n: nat) -> Seq<char> {
    Seq::new(n, |i: int| ' ')
}

/// `s` filled up on the right with spaces to `width` characters; longer text stays whole.
pub open spec fn padded(s: Seq<char>, width: nat) -> Seq<char> {
    if s.len() < width {
        s + spaces((width - s.len()) as nat)
    } else {
        s
    }
}

/// Fills `s` up on the right with spaces to `width` characters.
pub fn pad(s: &str, width: usize) -> (r: String)
    ensures
        r@ == padded(s@, width as nat),
{
    let mut r = s.to_owned();
    let n = s.unicode_len();
    let mut i: usize = n;
    while i < width
        invariant
            n == s@.len(),
            n <= i,
            n < width ==> i <= width,
            n >= width ==> i == n,
            r@ == s@ + spaces((i - n) as nat),
        decreases width - i,
    {
        r.push(' ');
        i = i + 1;
        proof {
            assert(spaces((i - n) as nat) == spaces((i - n - 1) as nat).push(' '));
        }
    }
    proof {
        assert(s@ + spaces(0) == s@);
    }
    r
}

/// `c` is a decimal digit.
pub open spec fn is_digit(c: char) -> bool {
    '0' <= c && c <= '9'
}

/// The decimal digit of `d`.
pub open spec fn digit(d: int) -> char
    recommends
        0 <= d < 10,
{
    (('0' as u8) + d) as char
}

/// `n` in decimal, without leading zeros.
pub open spec fn decimal(n: nat) -> Seq<char>
    decreases n,
{
    if n < 10 {
        seq![digit(n as int)]
    } else {
        decimal(n / 10).push(digit((n % 10) as int))
    }
}

/// Writes `n` in decimal.
pub fn to_decimal(n: u64) -> (r: String)
    ensures
        r@ == decimal(n as nat),
    decreases n,
{
    let mut r = if n < 10 {
        String::new()
    } else {
        to_decimal(n / 10)
    };
    r.push(((n % 10) as u8 + '0' as u8) as char);
    r
}

} // verus!
