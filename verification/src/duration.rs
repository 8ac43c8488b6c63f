//! Durations in whole seconds, their decimal parsing, and their rendering.

use vstd::prelude::*;
use vstd::string::StringExecFns;

verus! {

/// A duration in whole seconds.
#[derive(Clone, Copy, PartialEq, Eq, Structural, Debug)]
pub struct Duration(pub u32);

/// The character for a single decimal digit value.
pub open spec fn digit_char(d: int) -> char {
    if d == 0 {
        '0'
    } else if d == 1 {
        '1'
    } else if d == 2 {
        '2'
    } else if d == 3 {
        '3'
    } else if d == 4 {
        '4'
    } else if d == 5 {
        '5'
    } else if d == 6 {
        '6'
    } else if d == 7 {
        '7'
    } else if d == 8 {
        '8'
    } else {
        '9'
    }
}

pub open spec fn is_digit(c: char) -> bool {
    '0' as int <= c as int <= '9' as int
}

pub open spec fn digit_value(c: char) -> int {
    c as int - '0' as int
}

/// Decimal text of a nonnegative integer, most significant digit first.
pub open spec fn dec_str(n: int) -> Seq<char>
    decreases n,
{
    if n < 0 {
        Seq::empty()
    } else if n < 10 {
        seq![digit_char(n)]
    } else {
        dec_str(n / 10) + seq![digit_char(n % 10)]
    }
}

/// The text chrono's `Display` impl for `TimeDelta` produces for a delta of
/// `secs` whole seconds (an ISO 8601 duration): `P0D` for zero, otherwise
/// `PT{secs}S`.
pub open spec fn timedelta_text(secs: int) -> Seq<char> {
    if secs == 0 {
        "P0D"@
    } else {
        "PT"@ + dec_str(secs) + "S"@
    }
}

/// Relies on `chrono::TimeDelta::seconds` (which accepts any `u32` count
/// without panicking) and on chrono's ISO 8601 `Display` impl for
/// `TimeDelta`: with zero nanoseconds it writes `P0D` for a zero delta and
/// `PT{secs}S` otherwise.
#[verifier::external_body]
fn timedelta_string(secs: u32) -> (r: String)
    ensures
        r@ == timedelta_text(secs as int),
{
    chrono::TimeDelta::seconds(secs as i64).to_string()
}

impl Duration {
    /// The duration's text, as chrono renders an ISO 8601 duration.
    pub fn render(&self) -> (r: String)
        ensures
            r@ == timedelta_text(self.0 as int),
    {
        timedelta_string(self.0)
    }
}

/// The digits a decimal numeral is made of: everything after an optional
/// leading plus sign.
pub open spec fn digits_of(s: Seq<char>) -> Seq<char> {
    if s.len() > 0 && s[0] == '+' {
        s.skip(1)
    } else {
        s
    }
}

pub open spec fn all_digits(s: Seq<char>) -> bool {
    forall|i: int| 0 <= i < s.len() ==> is_digit(#[trigger] s[i])
}

/// The value of a string of decimal digits, most significant first.
pub open spec fn dec_value(s: Seq<char>) -> int
    decreases s.len(),
{
    if s.len() == 0 {
        0
    } else {
        dec_value(s.drop_last()) * 10 + digit_value(s.last())
    }
}

/// What `str::parse::<u32>` returns: the numeral may carry one leading plus
/// sign, must have at least one digit and no other characters, and must not
/// exceed `u32::MAX`.
pub open spec fn parsed_u32(s: Seq<char>) -> Option<u32> {
    let d = digits_of(s);
    if d.len() > 0 && all_digits(d) && dec_value(d) <= u32::MAX {
        Some(dec_value(d) as u32)
    } else {
        None
    }
}

proof fn lemma_dec_value_nonneg(s: Seq<char>)
    requires
        all_digits(s),
    ensures
        dec_value(s) >= 0,
    decreases s.len(),
{
    if s.len() > 0 {
        lemma_dec_value_nonneg(s.drop_last());
    }
}

/// A string of digits is worth at least any of its prefixes.
proof fn lemma_dec_value_prefix(s: Seq<char>, k: int)
    requires
        all_digits(s),
        0 <= k <= s.len(),
    ensures
        dec_value(s) >= dec_value(s.subrange(0, k)),
    decreases s.len() - k,
{
    if k == s.len() {
        assert(s.subrange(0, k) =~= s);
    } else {
        lemma_dec_value_prefix(s, k + 1);
        let p = s.subrange(0, k + 1);
        assert(p.drop_last() =~= s.subrange(0, k));
        assert(all_digits(s.subrange(0, k))) by {
            assert(forall|i: int|
                0 <= i < k ==> s.subrange(0, k)[i] == #[trigger] s[i]);
        }
        lemma_dec_value_nonneg(s.subrange(0, k));
        assert(dec_value(p) == dec_value(s.subrange(0, k)) * 10 + digit_value(p.last()));
    }
}

/// Parse a decimal `u32`, accepting exactly what `str::parse::<u32>` accepts.
pub fn parse_u32(s: &str) -> (r: Option<u32>)
    ensures
        r == parsed_u32(s@),
{
    let len: usize = s.unicode_len();
    let ghost d = digits_of(s@);
    let mut i: usize = 0;
    if len > 0 && s.get_char(0) == '+' {
        i = 1;
    }
    let start: usize = i;
    if i == len {
        // no digits at all
        assert(d.len() == 0);
        return None;
    }
    let mut acc: u32 = 0;
    while i < len
        invariant
            start <= i <= len,
            start == 0 || start == 1,
            len == s@.len(),
            start == 1 ==> s@.len() > 0 && s@[0] == '+',
            start == 0 ==> !(s@.len() > 0 && s@[0] == '+'),
            d == digits_of(s@),
            d.len() == len - start,
            forall|j: int| 0 <= j < d.len() ==> d[j] == s@[j + start],
            acc == dec_value(d.subrange(0, i - start)),
            all_digits(d.subrange(0, i - start)),
        decreases len - i,
    {
        let c = s.get_char(i);
        let cv: u32 = c as u32;
        let ghost j: int = i - start;
        if cv < 48 || cv > 57 {
            assert(d[j] == c && !is_digit(c));
            assert(!all_digits(d));
            return None;
        }
        let dv: u32 = cv - 48;
        assert(is_digit(c) && digit_value(c) == dv);
        let ghost pre = d.subrange(0, j);
        let ghost ext = d.subrange(0, j + 1);
        assert(ext.drop_last() =~= pre);
        assert(ext.last() == c);
        if acc > (u32::MAX - dv) / 10 {
            // the value through this digit already exceeds u32::MAX, and
            // further digits cannot bring it back down
            assert(acc * 10 + dv > u32::MAX) by (nonlinear_arith)
                requires
                    acc > (u32::MAX - dv) / 10,
                    dv <= 9,
            ;
            proof {
                if all_digits(d) {
                    lemma_dec_value_prefix(d, j + 1);
                    assert(dec_value(d) > u32::MAX);
                }
            }
            return None;
        }
        assert(acc * 10 + dv <= u32::MAX) by (nonlinear_arith)
            requires
                acc <= (u32::MAX - dv) / 10,
                dv <= 9,
        ;
        acc = acc * 10 + dv;
        assert(acc == dec_value(ext));
        i = i + 1;
    }
    assert(d.subrange(0, d.len() as int) =~= d);
    assert(parsed_u32(s@) == Some(acc));
    Some(acc)
}

} // verus!
