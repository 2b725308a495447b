//! Shared utility functions: decimal rendering of integers, masking of
//! sensitive strings, and identifier / timestamp helpers that lean on
//! outside crates.

use vstd::prelude::*;

verus! {

/// The decimal digit character for a value below ten.
pub open spec fn spec_digit_char(d: nat) -> char {
    if d == 0 {
        '0'
    } else if d == 1 {
        '1'
    } else if d == 2 {
        '2'
    } else if d == 3 {
        '3'
    } else if d == 4 {
        '4'
    } else if d == 5 {
        '5'
    } else if d == 6 {
        '6'
    } else if d == 7 {
        '7'
    } else if d == 8 {
        '8'
    } else {
        '9'
    }
}

/// The decimal rendering of a natural number, most significant digit first.
pub open spec fn spec_dec_digits(n: nat) -> Seq<char>
    decreases n,
{
    if n < 10 {
        seq![spec_digit_char(n)]
    } else {
        spec_dec_digits(n / 10) + seq![spec_digit_char(n % 10)]
    }
}

/// One decimal digit as a string slice.
fn digit_str(d: u32) -> (r: &'static str)
    requires
        d < 10,
    ensures
        r@ == seq![spec_digit_char(d as nat)],
{
    proof {
        reveal_strlit("0");
        reveal_strlit("1");
        reveal_strlit("2");
        reveal_strlit("3");
        reveal_strlit("4");
        reveal_strlit("5");
        reveal_strlit("6");
        reveal_strlit("7");
        reveal_strlit("8");
        reveal_strlit("9");
    }
    let r = if d == 0 {
        "0"
    } else if d == 1 {
        "1"
    } else if d == 2 {
        "2"
    } else if d == 3 {
        "3"
    } else if d == 4 {
        "4"
    } else if d == 5 {
        "5"
    } else if d == 6 {
        "6"
    } else if d == 7 {
        "7"
    } else if d == 8 {
        "8"
    } else {
        "9"
    };
    proof {
        assert(r@ =~= seq![spec_digit_char(d as nat)]);
    }
    r
}

/// Renders an unsigned integer in decimal notation.
pub fn u64_to_dec_string(n: u64) -> (r: String)
    ensures
        r@ == spec_dec_digits(n as nat),
    decreases n,
{
    if n < 10 {
        digit_str((n % 10) as u32).to_owned()
    } else {
        let prefix = u64_to_dec_string(n / 10);
        prefix.concat(digit_str((n % 10) as u32))
    }
}

/// A run of `count` copies of the masking character.
pub open spec fn spec_mask_run(count: nat) -> Seq<char> {
    Seq::new(count, |i: int| '*')
}

/// Masks the tail of a sensitive string (a password, an API key): the first
/// `visible_chars` characters stay, every later character becomes `*`.
/// Strings no longer than `visible_chars` are returned unchanged.
pub fn mask_sensitive_data(data: &str, visible_chars: usize) -> (r: String)
    ensures
        data@.len() <= visible_chars ==> r@ == data@,
        data@.len() > visible_chars ==> r@ == data@.subrange(0, visible_chars as int)
            + spec_mask_run((data@.len() - visible_chars) as nat),
{
    proof {
        reveal_strlit("*");
    }
    let n = data.unicode_len();
    if n <= visible_chars {
        return data.to_owned();
    }
    let head = data.substring_char(0, visible_chars);
    let mut r = head.to_owned();
    let mut i: usize = visible_chars;
    while i < n
        invariant
            visible_chars <= i <= n,
            n == data@.len(),
            r@ == data@.subrange(0, visible_chars as int) + spec_mask_run(
                (i - visible_chars) as nat,
            ),
        decreases n - i,
    {
        r.append("*");
        i = i + 1;
        proof {
            reveal_strlit("*");
            assert(r@ =~= data@.subrange(0, visible_chars as int) + spec_mask_run(
                (i - visible_chars) as nat,
            ));
        }
    }
    r
}

/// The uppercase folding of a character sequence, as `str::to_uppercase`
/// computes it: a function of the characters alone.
pub uninterp spec fn upper_of(s: Seq<char>) -> Seq<char>;

/// The lowercase folding of a character sequence, as `str::to_lowercase`
/// computes it: a function of the characters alone.
pub uninterp spec fn lower_of(s: Seq<char>) -> Seq<char>;

/// A character sequence with leading and trailing whitespace removed, as
/// `str::trim` computes it: a function of the characters alone.
pub uninterp spec fn trim_of(s: Seq<char>) -> Seq<char>;

/// Relies on `str::to_uppercase`: the result depends on the input's
/// characters alone.
#[verifier::external_body]
pub(crate) fn to_uppercase_str(s: &str) -> (r: String)
    ensures
        r@ == upper_of(s@),
{
    s.to_uppercase()
}

/// Relies on `str::to_lowercase`: the result depends on the input's
/// characters alone.
#[verifier::external_body]
pub(crate) fn to_lowercase_str(s: &str) -> (r: String)
    ensures
        r@ == lower_of(s@),
{
    s.to_lowercase()
}

/// Relies on `str::trim`: the result depends on the input's characters
/// alone.
#[verifier::external_body]
pub(crate) fn trim_str<'a>(s: &'a str) -> (r: &'a str)
    ensures
        r@ == trim_of(s@),
{
    s.trim()
}

/// Relies on `uuid::Uuid::new_v4` and `Uuid::as_u128`: a fresh random
/// version-4 UUID as its 128-bit value. Nothing is promised of a random
/// value.
#[verifier::external_body]
pub(crate) fn fresh_uuid_u128() -> u128 {
    uuid::Uuid::new_v4().as_u128()
}

/// Relies on `chrono::Utc::now` and `DateTime::timestamp_millis`: the
/// current UTC time in milliseconds since the Unix epoch. Nothing is
/// promised of the clock's reading.
#[verifier::external_body]
pub(crate) fn now_timestamp_millis() -> i64 {
    chrono::Utc::now().timestamp_millis()
}

/// Generates a fresh UUID rendered as text.
///
/// Relies on `uuid::Uuid::new_v4` and uuid's `Display` impl: the hyphenated
/// form is always 36 ASCII characters.
#[verifier::external_body]
pub fn generate_uuid() -> (r: String)
    ensures
        r@.len() == 36,
{
    format!("{}", uuid::Uuid::new_v4())
}

} // verus!
