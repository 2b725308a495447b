//! The symbol pair value object: a normalized (upper-case) trading pair
//! with parsing from common notations.

use vstd::prelude::*;

use crate::util::to_uppercase_str;
use crate::util::trim_of;
use crate::util::trim_str;
use crate::util::upper_of;

verus! {

/// The first position of `d` in `s` at or after `from`; `s.len()` when
/// there is none.
pub open spec fn idx_of(s: Seq<char>, d: char, from: int) -> int
    decreases s.len() - from
        when 0 <= from <= s.len()
{
    if from >= s.len() {
        s.len() as int
    } else if s[from] == d {
        from
    } else {
        idx_of(s, d, from + 1)
    }
}

/// Whether `d` occurs in `s`.
pub open spec fn has_char(s: Seq<char>, d: char) -> bool {
    idx_of(s, d, 0) < s.len()
}

/// Whether `s` ends with `suffix`.
pub open spec fn spec_ends_with(s: Seq<char>, suffix: Seq<char>) -> bool {
    s.len() >= suffix.len() && s.subrange(s.len() - suffix.len(), s.len() as int) == suffix
}

/// The first two fields of `s` split at `d`: the part before the first
/// occurrence, and the part between the first and second occurrences.
pub open spec fn split_parts(s: Seq<char>, d: char) -> (Seq<char>, Seq<char>) {
    let i0 = idx_of(s, d, 0);
    if i0 == s.len() {
        (s, Seq::empty())
    } else {
        (s.subrange(0, i0), s.subrange(i0 + 1, idx_of(s, d, i0 + 1)))
    }
}

/// How a symbol pair is read from an upper-cased, trimmed input `u`:
/// split at the first `/`, `-` or `_` when one occurs (both parts trimmed
/// again, empty parts rejected); otherwise inputs of up to four
/// characters are rejected, a known quote-asset suffix is split off, and
/// failing that the last four characters are taken as the quote asset.
pub open spec fn spec_parse_pair(u: Seq<char>) -> Option<(Seq<char>, Seq<char>)> {
    if has_char(u, '/') || has_char(u, '-') || has_char(u, '_') {
        let d = if has_char(u, '/') {
            '/'
        } else if has_char(u, '-') {
            '-'
        } else {
            '_'
        };
        let parts = split_parts(u, d);
        let b = trim_of(parts.0);
        let q = trim_of(parts.1);
        if b.len() == 0 || q.len() == 0 {
            None
        } else {
            Some((b, q))
        }
    } else if u.len() <= 4 {
        None
    } else if spec_ends_with(u, "USDT"@) {
        Some((u.subrange(0, u.len() - 4), "USDT"@))
    } else if spec_ends_with(u, "USD"@) {
        Some((u.subrange(0, u.len() - 3), "USD"@))
    } else if spec_ends_with(u, "BTC"@) {
        Some((u.subrange(0, u.len() - 3), "BTC"@))
    } else if spec_ends_with(u, "ETH"@) {
        Some((u.subrange(0, u.len() - 3), "ETH"@))
    } else if spec_ends_with(u, "EUR"@) {
        Some((u.subrange(0, u.len() - 3), "EUR"@))
    } else if spec_ends_with(u, "JPY"@) {
        Some((u.subrange(0, u.len() - 3), "JPY"@))
    } else {
        Some((u.subrange(0, u.len() - 4), u.subrange(u.len() - 4, u.len() as int)))
    }
}

/// A trading pair value object. Both asset names are normalized to upper
/// case on construction and never change afterwards.
#[derive(Debug)]
pub struct SymbolPair {
    base: String,
    quote: String,
}

impl SymbolPair {
    /// The normalized base asset name.
    pub closed spec fn spec_base(&self) -> Seq<char> {
        self.base@
    }

    /// The normalized quote asset name.
    pub closed spec fn spec_quote(&self) -> Seq<char> {
        self.quote@
    }

    /// Builds a pair, folding both asset names to upper case.
    pub fn new(base: &str, quote: &str) -> (r: SymbolPair)
        ensures
            r.spec_base() == upper_of(base@),
            r.spec_quote() == upper_of(quote@),
    {
        SymbolPair { base: to_uppercase_str(base), quote: to_uppercase_str(quote) }
    }

    /// Reads the base asset name.
    pub fn base(&self) -> (r: &str)
        ensures
            r@ == self.spec_base(),
    {
        self.base.as_str()
    }

    /// Reads the quote asset name.
    pub fn quote(&self) -> (r: &str)
        ensures
            r@ == self.spec_quote(),
    {
        self.quote.as_str()
    }

    /// Standard notation: the two assets joined by a slash, e.g.
    /// `BTC/USDT`.
    pub fn to_standard_notation(&self) -> (r: String)
        ensures
            r@ == self.spec_base() + seq!['/'] + self.spec_quote(),
    {
        proof {
            reveal_strlit("/");
        }
        let r = self.base.clone().concat("/").concat(self.quote.as_str());
        proof {
            assert(r@ =~= self.spec_base() + seq!['/'] + self.spec_quote());
        }
        r
    }

    /// Exchange notation: the two assets joined by the given delimiter, or
    /// simply concatenated, e.g. `BTC-USDT` or `BTCUSDT`.
    pub fn to_exchange_format(&self, delimiter: Option<&str>) -> (r: String)
        ensures
            match delimiter {
                Some(d) => r@ == self.spec_base() + d@ + self.spec_quote(),
                None => r@ == self.spec_base() + self.spec_quote(),
            },
    {
        match delimiter {
            Some(d) => self.base.clone().concat(d).concat(self.quote.as_str()),
            None => self.base.clone().concat(self.quote.as_str()),
        }
    }

    /// Parses a pair from common notations: `BTC/USDT`, `BTC-USDT`,
    /// `BTC_USDT` or `BTCUSDT`, after trimming and upper-casing the
    /// input, as `spec_parse_pair` lays down.
    pub fn from_str(input: &str) -> (r: Option<SymbolPair>)
        ensures
            ({
                let u = upper_of(trim_of(input@));
                match spec_parse_pair(u) {
                    None => r is None,
                    Some((b, q)) => r matches Some(p) && p.spec_base() == upper_of(b)
                        && p.spec_quote() == upper_of(q),
                }
            }),
    {
        let trimmed = trim_str(input);
        let upper = to_uppercase_str(trimmed);
        let u = upper.as_str();
        let n = u.unicode_len();
        let slash = find_char(u, '/', 0);
        let dash = find_char(u, '-', 0);
        let under = find_char(u, '_', 0);
        if slash < n || dash < n || under < n {
            let d: char = if slash < n {
                '/'
            } else if dash < n {
                '-'
            } else {
                '_'
            };
            let i0 = find_char(u, d, 0);
            let i1 = find_char(u, d, i0 + 1);
            let p0 = u.substring_char(0, i0);
            let p1 = u.substring_char(i0 + 1, i1);
            let b = trim_str(p0);
            let q = trim_str(p1);
            if b.unicode_len() == 0 || q.unicode_len() == 0 {
                None
            } else {
                Some(SymbolPair::new(b, q))
            }
        } else if n <= 4 {
            None
        } else if ends_with_str(u, "USDT") {
            Some(SymbolPair::new(u.substring_char(0, n - 4), "USDT"))
        } else if ends_with_str(u, "USD") {
            Some(SymbolPair::new(u.substring_char(0, n - 3), "USD"))
        } else if ends_with_str(u, "BTC") {
            Some(SymbolPair::new(u.substring_char(0, n - 3), "BTC"))
        } else if ends_with_str(u, "ETH") {
            Some(SymbolPair::new(u.substring_char(0, n - 3), "ETH"))
        } else if ends_with_str(u, "EUR") {
            Some(SymbolPair::new(u.substring_char(0, n - 3), "EUR"))
        } else if ends_with_str(u, "JPY") {
            Some(SymbolPair::new(u.substring_char(0, n - 3), "JPY"))
        } else {
            Some(SymbolPair::new(u.substring_char(0, n - 4), u.substring_char(n - 4, n)))
        }
    }
}

impl Clone for SymbolPair {
    fn clone(&self) -> (r: SymbolPair)
        ensures
            r == self,
    {
        SymbolPair { base: self.base.clone(), quote: self.quote.clone() }
    }
}

impl PartialEq for SymbolPair {
    fn eq(&self, other: &SymbolPair) -> (r: bool) {
        self.base == other.base && self.quote == other.quote
    }
}

impl Eq for SymbolPair {}

impl vstd::std_specs::cmp::PartialEqSpecImpl for SymbolPair {
    open spec fn obeys_eq_spec() -> bool {
        true
    }

    open spec fn eq_spec(&self, other: &SymbolPair) -> bool {
        self.spec_base() == other.spec_base() && self.spec_quote() == other.spec_quote()
    }
}

/// The first position of `d` in `s` at or after `from`; the character
/// count when there is none.
fn find_char(s: &str, d: char, from: usize) -> (r: usize)
    requires
        from <= s@.len(),
    ensures
        r == idx_of(s@, d, from as int),
        from <= r <= s@.len(),
        r < s@.len() ==> s@[r as int] == d,
{
    let n = s.unicode_len();
    let mut i: usize = from;
    while i < n
        invariant
            from <= i <= n,
            n == s@.len(),
            idx_of(s@, d, from as int) == idx_of(s@, d, i as int),
        decreases n - i,
    {
        if s.get_char(i) == d {
            return i;
        }
        i = i + 1;
    }
    n
}

/// Whether `s` ends with `suffix`, by characters.
fn ends_with_str(s: &str, suffix: &str) -> (r: bool)
    ensures
        r == spec_ends_with(s@, suffix@),
{
    let n = s.unicode_len();
    let m = suffix.unicode_len();
    if m > n {
        return false;
    }
    let mut k: usize = 0;
    while k < m
        invariant
            0 <= k <= m <= n,
            n == s@.len(),
            m == suffix@.len(),
            forall|j: int| 0 <= j < k ==> s@[n - m + j] == suffix@[j],
        decreases m - k,
    {
        if s.get_char(n - m + k) != suffix.get_char(k) {
            proof {
                assert(s@.subrange(n - m, n as int)[k as int] != suffix@[k as int]);
            }
            return false;
        }
        k = k + 1;
    }
    proof {
        assert(s@.subrange(n - m, n as int) =~= suffix@);
    }
    true
}

} // verus!
