//! Parsing and rendering of chart timeframes, and their durations.

use vstd::prelude::*;

use crate::types::Timeframe;
use crate::util::lower_of;
use crate::util::to_lowercase_str;
use crate::util::trim_of;
use crate::util::trim_str;

verus! {

/// Why a timeframe failed to parse.
#[derive(Debug)]
pub enum TimeframeError {
    /// The input does not have the shape of a timeframe code.
    InvalidFormat(String),
    /// The shape is right but the period is not one of the known ones.
    UnsupportedTimeframe(String),
}

impl TimeframeError {
    /// The rendered message of this error.
    pub open spec fn spec_message(&self) -> Seq<char> {
        match self {
            TimeframeError::InvalidFormat(m) => "잘못된 타임프레임 형식: "@ + m@,
            TimeframeError::UnsupportedTimeframe(m) => "지원되지 않는 타임프레임: "@ + m@,
        }
    }

    /// Renders the error as text.
    pub fn to_string(&self) -> (r: String)
        ensures
            r@ == self.spec_message(),
    {
        match self {
            TimeframeError::InvalidFormat(m) => "잘못된 타임프레임 형식: ".to_owned().concat(
                m.as_str(),
            ),
            TimeframeError::UnsupportedTimeframe(m) => "지원되지 않는 타임프레임: ".to_owned().concat(
                m.as_str(),
            ),
        }
    }
}

/// Whether `c` is a decimal digit.
pub open spec fn is_digit(c: char) -> bool {
    '0' <= c && c <= '9'
}

/// Whether `d` is a non-empty run of digits.
pub open spec fn all_digits(d: Seq<char>) -> bool {
    d.len() > 0 && forall|i: int| 0 <= i < d.len() ==> is_digit(#[trigger] d[i])
}

/// Whether `v` is a non-empty run of digits, after an optional leading
/// plus sign.
pub open spec fn spec_is_number(v: Seq<char>) -> bool {
    if v.len() > 0 && v[0] == '+' {
        all_digits(v.skip(1))
    } else {
        all_digits(v)
    }
}

/// The value of a run of digits, most significant first.
pub open spec fn spec_digits_val(d: Seq<char>) -> int
    decreases d.len(),
{
    if d.len() == 0 {
        0
    } else {
        spec_digits_val(d.drop_last()) * 10 + (d.last() as u32 - 48)
    }
}

/// The numeric value of `v` (after an optional leading plus sign).
pub open spec fn spec_number_val(v: Seq<char>) -> int {
    if v.len() > 0 && v[0] == '+' {
        spec_digits_val(v.skip(1))
    } else {
        spec_digits_val(v)
    }
}

/// The timeframe a lower-cased code `l` names, by the exact-match table.
pub open spec fn spec_code_table(l: Seq<char>) -> Option<Timeframe> {
    if l == "1m"@ {
        Some(Timeframe::Minute1)
    } else if l == "5m"@ {
        Some(Timeframe::Minute5)
    } else if l == "15m"@ {
        Some(Timeframe::Minute15)
    } else if l == "30m"@ {
        Some(Timeframe::Minute30)
    } else if l == "1h"@ {
        Some(Timeframe::Hour1)
    } else if l == "4h"@ {
        Some(Timeframe::Hour4)
    } else if l == "12h"@ {
        Some(Timeframe::Hour12)
    } else if l == "1d"@ {
        Some(Timeframe::Day1)
    } else if l == "1w"@ {
        Some(Timeframe::Week1)
    } else if l == "1mo"@ {
        Some(Timeframe::Month1)
    } else {
        None
    }
}

/// The timeframe named by a number and unit character, e.g. `15` and
/// `m`; `None` when the unit knows no such period.
pub open spec fn spec_unit_table(unit: char, num: int) -> Option<Timeframe> {
    match unit {
        'm' => {
            if num == 1 {
                Some(Timeframe::Minute1)
            } else if num == 5 {
                Some(Timeframe::Minute5)
            } else if num == 15 {
                Some(Timeframe::Minute15)
            } else if num == 30 {
                Some(Timeframe::Minute30)
            } else {
                None
            }
        },
        'h' => {
            if num == 1 {
                Some(Timeframe::Hour1)
            } else if num == 4 {
                Some(Timeframe::Hour4)
            } else if num == 12 {
                Some(Timeframe::Hour12)
            } else {
                None
            }
        },
        'd' => {
            if num == 1 {
                Some(Timeframe::Day1)
            } else {
                None
            }
        },
        'w' => {
            if num == 1 {
                Some(Timeframe::Week1)
            } else {
                None
            }
        },
        'M' => {
            if num == 1 {
                Some(Timeframe::Month1)
            } else {
                None
            }
        },
        _ => None,
    }
}

/// Whether the unit character is one the numeric fallback understands.
pub open spec fn spec_known_unit(unit: char) -> bool {
    unit == 'm' || unit == 'h' || unit == 'd' || unit == 'w' || unit == 'M'
}

/// The timeframe a lower-cased code `l` parses to: the exact-match table
/// first, then a `<number><unit>` fallback.
pub open spec fn spec_parse_timeframe(l: Seq<char>) -> Option<Timeframe> {
    match spec_code_table(l) {
        Some(tf) => Some(tf),
        None => {
            if l.len() == 0 {
                None
            } else {
                let v = l.drop_last();
                if spec_is_number(v) && spec_number_val(v) <= u32::MAX {
                    spec_unit_table(l.last(), spec_number_val(v))
                } else {
                    None
                }
            }
        },
    }
}

/// When parsing fails, whether the failure is a format error (as opposed
/// to a known shape naming an unsupported period).
pub open spec fn spec_parse_invalid(l: Seq<char>) -> bool {
    if l.len() == 0 {
        true
    } else {
        let v = l.drop_last();
        if spec_is_number(v) && spec_number_val(v) <= u32::MAX {
            !spec_known_unit(l.last())
        } else {
            true
        }
    }
}

impl Timeframe {
    /// The timeframe's length in whole seconds. A month is approximated
    /// as thirty days.
    pub fn duration_secs(&self) -> (r: u64)
        ensures
            r == self.spec_minutes() * 60,
    {
        self.to_minutes() as u64 * 60
    }

    /// The timeframe's length as a standard duration.
    pub fn duration(&self) -> core::time::Duration {
        duration_from_secs(self.duration_secs())
    }

    /// The timeframe's standard code, e.g. `1m` or `4h`.
    pub open spec fn spec_code(&self) -> Seq<char> {
        match self {
            Timeframe::Minute1 => "1m"@,
            Timeframe::Minute5 => "5m"@,
            Timeframe::Minute15 => "15m"@,
            Timeframe::Minute30 => "30m"@,
            Timeframe::Hour1 => "1h"@,
            Timeframe::Hour4 => "4h"@,
            Timeframe::Hour12 => "12h"@,
            Timeframe::Day1 => "1d"@,
            Timeframe::Week1 => "1w"@,
            Timeframe::Month1 => "1M"@,
        }
    }

    /// Renders the timeframe as its standard code.
    pub fn to_code(&self) -> (r: &'static str)
        ensures
            r@ == self.spec_code(),
    {
        match self {
            Timeframe::Minute1 => "1m",
            Timeframe::Minute5 => "5m",
            Timeframe::Minute15 => "15m",
            Timeframe::Minute30 => "30m",
            Timeframe::Hour1 => "1h",
            Timeframe::Hour4 => "4h",
            Timeframe::Hour12 => "12h",
            Timeframe::Day1 => "1d",
            Timeframe::Week1 => "1w",
            Timeframe::Month1 => "1M",
        }
    }

    /// Renders the timeframe as its standard code, as owned text.
    pub fn to_string(&self) -> (r: String)
        ensures
            r@ == self.spec_code(),
    {
        self.to_code().to_owned()
    }

    /// Every timeframe, shortest first.
    pub fn all() -> (r: Vec<Timeframe>)
        ensures
            r@ == seq![
                Timeframe::Minute1,
                Timeframe::Minute5,
                Timeframe::Minute15,
                Timeframe::Minute30,
                Timeframe::Hour1,
                Timeframe::Hour4,
                Timeframe::Hour12,
                Timeframe::Day1,
                Timeframe::Week1,
                Timeframe::Month1,
            ],
    {
        let mut r: Vec<Timeframe> = Vec::new();
        r.push(Timeframe::Minute1);
        r.push(Timeframe::Minute5);
        r.push(Timeframe::Minute15);
        r.push(Timeframe::Minute30);
        r.push(Timeframe::Hour1);
        r.push(Timeframe::Hour4);
        r.push(Timeframe::Hour12);
        r.push(Timeframe::Day1);
        r.push(Timeframe::Week1);
        r.push(Timeframe::Month1);
        proof {
            assert(r@ =~= seq![
                Timeframe::Minute1,
                Timeframe::Minute5,
                Timeframe::Minute15,
                Timeframe::Minute30,
                Timeframe::Hour1,
                Timeframe::Hour4,
                Timeframe::Hour12,
                Timeframe::Day1,
                Timeframe::Week1,
                Timeframe::Month1,
            ]);
        }
        r
    }

    /// Parses a timeframe code, e.g. `1m`, `4h` or `1d`, after trimming
    /// and lower-casing the input. Inputs of a known shape naming an
    /// unknown period are rejected as unsupported; anything else as
    /// malformed. Either error carries the normalized input.
    pub fn from_str(s: &str) -> (r: Result<Timeframe, TimeframeError>)
        ensures
            ({
                let l = lower_of(trim_of(s@));
                match spec_parse_timeframe(l) {
                    Some(tf) => r matches Ok(t) && t == tf,
                    None => r matches Err(e) && (match e {
                        TimeframeError::InvalidFormat(m) => spec_parse_invalid(l) && m@ == l,
                        TimeframeError::UnsupportedTimeframe(m) => !spec_parse_invalid(l) && m@
                            == l,
                    }),
                }
            }),
    {
        let lowered = to_lowercase_str(trim_str(s));
        let l = lowered.as_str();
        if let Some(tf) = Timeframe::lookup_code(l) {
            return Ok(tf);
        }
        let n = l.unicode_len();
        if n == 0 {
            return Err(TimeframeError::InvalidFormat(lowered));
        }
        let unit = l.get_char(n - 1);
        let value = l.substring_char(0, n - 1);
        if let Some(num) = parse_u32(value) {
            match unit {
                'm' => match num {
                    1u32 => Ok(Timeframe::Minute1),
                    5u32 => Ok(Timeframe::Minute5),
                    15u32 => Ok(Timeframe::Minute15),
                    30u32 => Ok(Timeframe::Minute30),
                    _ => Err(TimeframeError::UnsupportedTimeframe(lowered)),
                },
                'h' => match num {
                    1u32 => Ok(Timeframe::Hour1),
                    4u32 => Ok(Timeframe::Hour4),
                    12u32 => Ok(Timeframe::Hour12),
                    _ => Err(TimeframeError::UnsupportedTimeframe(lowered)),
                },
                'd' => match num {
                    1u32 => Ok(Timeframe::Day1),
                    _ => Err(TimeframeError::UnsupportedTimeframe(lowered)),
                },
                'w' => match num {
                    1u32 => Ok(Timeframe::Week1),
                    _ => Err(TimeframeError::UnsupportedTimeframe(lowered)),
                },
                'M' => match num {
                    1u32 => Ok(Timeframe::Month1),
                    _ => Err(TimeframeError::UnsupportedTimeframe(lowered)),
                },
                _ => Err(TimeframeError::InvalidFormat(lowered)),
            }
        } else {
            Err(TimeframeError::InvalidFormat(lowered))
        }
    }

    /// Looks a code up in the exact-match table.
    fn lookup_code(l: &str) -> (r: Option<Timeframe>)
        ensures
            r == spec_code_table(l@),
    {
        let codes: [&str; 10] = ["1m", "5m", "15m", "30m", "1h", "4h", "12h", "1d", "1w", "1mo"];
        if str_eq(l, codes[0]) {
            Some(Timeframe::Minute1)
        } else if str_eq(l, codes[1]) {
            Some(Timeframe::Minute5)
        } else if str_eq(l, codes[2]) {
            Some(Timeframe::Minute15)
        } else if str_eq(l, codes[3]) {
            Some(Timeframe::Minute30)
        } else if str_eq(l, codes[4]) {
            Some(Timeframe::Hour1)
        } else if str_eq(l, codes[5]) {
            Some(Timeframe::Hour4)
        } else if str_eq(l, codes[6]) {
            Some(Timeframe::Hour12)
        } else if str_eq(l, codes[7]) {
            Some(Timeframe::Day1)
        } else if str_eq(l, codes[8]) {
            Some(Timeframe::Week1)
        } else if str_eq(l, codes[9]) {
            Some(Timeframe::Month1)
        } else {
            None
        }
    }
}

/// Relies on `core::time::Duration::from_secs` to build the duration of
/// the given number of seconds.
#[verifier::external_body]
fn duration_from_secs(secs: u64) -> core::time::Duration {
    core::time::Duration::from_secs(secs)
}

/// Character-wise string equality.
fn str_eq(a: &str, b: &str) -> (r: bool)
    ensures
        r == (a@ == b@),
{
    let n = a.unicode_len();
    let m = b.unicode_len();
    if n != m {
        proof {
            assert(a@ != b@);
        }
        return false;
    }
    let mut i: usize = 0;
    while i < n
        invariant
            0 <= i <= n,
            n == a@.len(),
            n == b@.len(),
            forall|j: int| 0 <= j < i ==> a@[j] == b@[j],
        decreases n - i,
    {
        if a.get_char(i) != b.get_char(i) {
            proof {
                assert(a@[i as int] != b@[i as int]);
            }
            return false;
        }
        i = i + 1;
    }
    proof {
        assert(a@ =~= b@);
    }
    true
}

/// Parses a non-negative number as `u32::from_str` accepts it: an
/// optional leading plus sign, then one or
/// more digits; `None` on any other shape or past `u32::MAX`.
pub fn parse_u32(v: &str) -> (r: Option<u32>)
    ensures
        (spec_is_number(v@) && spec_number_val(v@) <= u32::MAX) <==> (r is Some),
        r matches Some(num) ==> num == spec_number_val(v@),
{
    let n = v.unicode_len();
    let start: usize = if n > 0 && v.get_char(0) == '+' {
        1
    } else {
        0
    };
    let ghost d = if v@.len() > 0 && v@[0] == '+' {
        v@.skip(1)
    } else {
        v@
    };
    proof {
        assert(d =~= v@.subrange(start as int, n as int));
    }
    if n == start {
        return None;
    }
    let mut acc: u64 = 0;
    let mut i: usize = start;
    proof {
        assert(d.subrange(0, 0) =~= Seq::<char>::empty());
    }
    while i < n
        invariant
            start <= i <= n,
            n == v@.len(),
            d == v@.subrange(start as int, n as int),
            d == (if v@.len() > 0 && v@[0] == '+' {
                v@.skip(1)
            } else {
                v@
            }),
            forall|j: int| start <= j < i ==> is_digit(#[trigger] v@[j]),
            acc == spec_digits_val(d.subrange(0, i - start)),
            acc <= u32::MAX,
        decreases n - i,
    {
        let c = v.get_char(i);
        if c < '0' || c > '9' {
            proof {
                assert(d[i - start] == v@[i as int]);
                assert(!is_digit(d[i - start]));
            }
            return None;
        }
        let digit: u64 = (c as u64) - 48;
        proof {
            assert('0' <= c <= '9');
            assert(digit <= 9);
            assert(d.subrange(0, i + 1 - start).drop_last() =~= d.subrange(0, i - start));
            assert(d.subrange(0, i + 1 - start).last() == v@[i as int]);
        }
        let next: u64 = acc * 10 + digit;
        if next > u32::MAX as u64 {
            proof {
                if spec_is_number(v@) {
                    lemma_digits_val_grows(d, i + 1 - start);
                }
            }
            return None;
        }
        acc = next;
        i = i + 1;
    }
    proof {
        assert(d.subrange(0, n - start) =~= d);
    }
    Some(acc as u32)
}

/// A run of digits has a non-negative value that only grows as the run
/// extends.
proof fn lemma_digits_val_grows(d: Seq<char>, k: int)
    requires
        0 <= k <= d.len(),
        forall|x: int| 0 <= x < d.len() ==> is_digit(#[trigger] d[x]),
    ensures
        0 <= spec_digits_val(d.subrange(0, k)) <= spec_digits_val(d),
    decreases d.len(),
{
    if k < d.len() {
        assert(d.drop_last().subrange(0, k) =~= d.subrange(0, k));
        assert forall|x: int| 0 <= x < d.drop_last().len() implies is_digit(
            #[trigger] d.drop_last()[x],
        ) by {
            assert(d.drop_last()[x] == d[x]);
        }
        lemma_digits_val_grows(d.drop_last(), k);
        assert(is_digit(d.last()));
    } else {
        assert(d.subrange(0, k) =~= d);
        if d.len() > 0 {
            assert forall|x: int| 0 <= x < d.drop_last().len() implies is_digit(
                #[trigger] d.drop_last()[x],
            ) by {
                assert(d.drop_last()[x] == d[x]);
            }
            lemma_digits_val_grows(d.drop_last(), d.len() - 1);
            assert(d.drop_last().subrange(0, d.len() - 1) =~= d.drop_last());
            assert(is_digit(d.last()));
        }
    }
}

} // verus!
