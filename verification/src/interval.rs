//! Parsing of interval strings such as `300`, `300s`, `5min`, `1h` or
//! `2d` into whole seconds.
//!
//! The platform reports its measurement interval as text on some
//! systems; this parser turns that text into seconds.  A bare number is
//! seconds; the suffixes `ms`, `s`, `min`, `h` and `d` scale as
//! expected (milliseconds round down to whole seconds); anything
//! unparsable falls back to the 300-second default.  Out-of-range
//! products saturate instead of overflowing, in line with the library's
//! saturation policy elsewhere.

use vstd::prelude::*;
use vstd::string::StringSliceAdditionalSpecFns;

verus! {

/// ASCII whitespace as trimming recognises it.
pub open spec fn spec_is_space(b: u8) -> bool {
    b == 32 || b == 9 || b == 10 || b == 13
}

/// `s` with leading whitespace removed.
pub open spec fn spec_trim_start(s: Seq<u8>) -> Seq<u8>
    decreases s.len(),
{
    if s.len() > 0 && spec_is_space(s[0]) {
        spec_trim_start(s.drop_first())
    } else {
        s
    }
}

/// `s` with trailing whitespace removed.
pub open spec fn spec_trim_end(s: Seq<u8>) -> Seq<u8>
    decreases s.len(),
{
    if s.len() > 0 && spec_is_space(s.last()) {
        spec_trim_end(s.drop_last())
    } else {
        s
    }
}

/// `s` with whitespace removed from both ends.
pub open spec fn spec_trim(s: Seq<u8>) -> Seq<u8> {
    spec_trim_end(spec_trim_start(s))
}

/// Every byte of `s` is a decimal digit.
pub open spec fn spec_all_digits(s: Seq<u8>) -> bool {
    forall|i: int| 0 <= i < s.len() ==> 48 <= #[trigger] s[i] <= 57
}

/// The number the digit string `s` denotes.
pub open spec fn spec_digits_val(s: Seq<u8>) -> int
    decreases s.len(),
{
    if s.len() == 0 {
        0
    } else {
        spec_digits_val(s.drop_last()) * 10 + (s.last() - 48)
    }
}

/// What parsing `s` as an unsigned 64-bit number yields: the denoted
/// value for a non-empty all-digit string that fits, nothing otherwise.
pub open spec fn spec_parse_u64(s: Seq<u8>) -> Option<u64> {
    if s.len() > 0 && spec_all_digits(s) && spec_digits_val(s) <= u64::MAX as int {
        Some(spec_digits_val(s) as u64)
    } else {
        None
    }
}

/// Whether `s` ends with `suffix`.
pub open spec fn spec_ends_with(s: Seq<u8>, suffix: Seq<u8>) -> bool {
    s.len() >= suffix.len() && s.subrange(s.len() - suffix.len(), s.len() as int) == suffix
}

/// `x` held at the top of the unsigned 64-bit range.
pub open spec fn spec_sat_u64(x: int) -> int {
    if x > u64::MAX as int {
        u64::MAX as int
    } else {
        x
    }
}

/// The seconds an interval string denotes: a bare number counts as
/// seconds; `ms`, `s`, `min`, `h` and `d` suffixes scale their number;
/// anything else, and any suffix whose number does not parse, yields
/// the 300-second default.
pub open spec fn spec_parse_interval_secs(raw: Seq<u8>) -> int {
    let t = spec_trim(raw);
    if spec_parse_u64(t) is Some {
        spec_parse_u64(t)->Some_0 as int
    } else if spec_ends_with(t, seq![109u8, 115u8]) {
        match spec_parse_u64(spec_trim(t.subrange(0, t.len() - 2))) {
            Some(n) => n as int / 1000,
            None => 300,
        }
    } else if spec_ends_with(t, seq![115u8]) {
        match spec_parse_u64(spec_trim(t.subrange(0, t.len() - 1))) {
            Some(n) => n as int,
            None => 300,
        }
    } else if spec_ends_with(t, seq![109u8, 105u8, 110u8]) {
        match spec_parse_u64(spec_trim(t.subrange(0, t.len() - 3))) {
            Some(n) => spec_sat_u64(n as int * 60),
            None => 300,
        }
    } else if spec_ends_with(t, seq![104u8]) {
        match spec_parse_u64(spec_trim(t.subrange(0, t.len() - 1))) {
            Some(n) => spec_sat_u64(n as int * 3600),
            None => 300,
        }
    } else if spec_ends_with(t, seq![100u8]) {
        match spec_parse_u64(spec_trim(t.subrange(0, t.len() - 1))) {
            Some(n) => spec_sat_u64(n as int * 86400),
            None => 300,
        }
    } else {
        300
    }
}

/// A suffix match fixes the bytes at the end of the string.
proof fn lemma_ends_with_index(s: Seq<u8>, suffix: Seq<u8>)
    requires
        spec_ends_with(s, suffix),
    ensures
        forall|j: int|
            0 <= j < suffix.len() ==> s[s.len() - suffix.len() + j] == #[trigger] suffix[j],
{
    assert forall|j: int|
        0 <= j < suffix.len() implies s[s.len() - suffix.len() + j] == #[trigger] suffix[j] by {
        assert(s.subrange(s.len() - suffix.len(), s.len() as int)[j] == s[s.len() - suffix.len()
            + j]);
    }
}

/// A digit string denotes a non-negative number.
proof fn lemma_digits_val_nonneg(s: Seq<u8>)
    requires
        spec_all_digits(s),
    ensures
        spec_digits_val(s) >= 0,
    decreases s.len(),
{
    if s.len() > 0 {
        assert(spec_all_digits(s.drop_last()));
        lemma_digits_val_nonneg(s.drop_last());
    }
}

/// Extending a digit string on the right never shrinks its value.
proof fn lemma_digits_val_prefix(s: Seq<u8>, n: int)
    requires
        spec_all_digits(s),
        0 <= n <= s.len(),
    ensures
        spec_digits_val(s) >= spec_digits_val(s.subrange(0, n)),
    decreases s.len() - n,
{
    if n == s.len() {
        assert(s.subrange(0, n) =~= s);
    } else {
        lemma_digits_val_prefix(s, n + 1);
        let shorter = s.subrange(0, n);
        let longer = s.subrange(0, n + 1);
        assert(longer.drop_last() =~= shorter);
        assert(spec_all_digits(shorter));
        lemma_digits_val_nonneg(shorter);
        assert(spec_digits_val(longer) == spec_digits_val(shorter) * 10 + (longer.last() - 48));
    }
}

/// Find the whitespace-trimmed core of `b[lo..hi]`, as a pair of
/// indices into `b`.
fn trim_range(b: &[u8], lo: usize, hi: usize) -> (r: (usize, usize))
    requires
        lo <= hi <= b@.len(),
    ensures
        lo <= r.0 <= r.1 <= hi,
        b@.subrange(r.0 as int, r.1 as int) == spec_trim(b@.subrange(lo as int, hi as int)),
{
    let mut l: usize = lo;
    loop
        invariant
            lo <= l <= hi <= b@.len(),
            spec_trim_start(b@.subrange(lo as int, hi as int)) == spec_trim_start(
                b@.subrange(l as int, hi as int),
            ),
        ensures
            lo <= l <= hi,
            spec_trim_start(b@.subrange(lo as int, hi as int)) == b@.subrange(l as int, hi as int),
        decreases hi - l,
    {
        if l == hi {
            proof {
                assert(b@.subrange(l as int, hi as int).len() == 0);
            }
            break;
        }
        let c = b[l];
        if c == 32 || c == 9 || c == 10 || c == 13 {
            proof {
                assert(b@.subrange(l as int, hi as int).drop_first() =~= b@.subrange(
                    l as int + 1,
                    hi as int,
                ));
            }
            l = l + 1;
        } else {
            proof {
                assert(b@.subrange(l as int, hi as int)[0] == b@[l as int]);
            }
            break;
        }
    }
    let mut h: usize = hi;
    loop
        invariant
            l <= h <= hi <= b@.len(),
            spec_trim_end(b@.subrange(l as int, hi as int)) == spec_trim_end(
                b@.subrange(l as int, h as int),
            ),
        ensures
            l <= h <= hi,
            spec_trim_end(b@.subrange(l as int, hi as int)) == b@.subrange(l as int, h as int),
        decreases h - l,
    {
        if h == l {
            proof {
                assert(b@.subrange(l as int, h as int).len() == 0);
            }
            break;
        }
        let c = b[h - 1];
        if c == 32 || c == 9 || c == 10 || c == 13 {
            proof {
                assert(b@.subrange(l as int, h as int).drop_last() =~= b@.subrange(
                    l as int,
                    h as int - 1,
                ));
            }
            h = h - 1;
        } else {
            proof {
                assert(b@.subrange(l as int, h as int).last() == b@[h as int - 1]);
            }
            break;
        }
    }
    (l, h)
}

/// Parse `b[lo..hi]` as an unsigned 64-bit decimal number.
fn parse_u64_range(b: &[u8], lo: usize, hi: usize) -> (r: Option<u64>)
    requires
        lo <= hi <= b@.len(),
    ensures
        r == spec_parse_u64(b@.subrange(lo as int, hi as int)),
{
    let ghost full = b@.subrange(lo as int, hi as int);
    if lo == hi {
        return None;
    }
    let mut acc: u64 = 0;
    let mut i: usize = lo;
    loop
        invariant
            lo <= i <= hi <= b@.len(),
            lo < hi,
            full == b@.subrange(lo as int, hi as int),
            spec_all_digits(b@.subrange(lo as int, i as int)),
            acc as int == spec_digits_val(b@.subrange(lo as int, i as int)),
        ensures
            i == hi,
            spec_all_digits(full),
            acc as int == spec_digits_val(full),
        decreases hi - i,
    {
        if i == hi {
            break;
        }
        let c = b[i];
        if c < 48 || c > 57 {
            proof {
                assert(full[i - lo] == b@[i as int]);
                assert(!spec_all_digits(full));
            }
            return None;
        }
        let d: u64 = (c - 48) as u64;
        let ghost prev = b@.subrange(lo as int, i as int);
        let ghost ext = b@.subrange(lo as int, i as int + 1);
        proof {
            assert(ext.drop_last() =~= prev);
            assert(ext.last() == b@[i as int]);
            assert(spec_all_digits(ext));
            assert(spec_digits_val(ext) == (acc as int) * 10 + d);
        }
        let overflowed: bool = match acc.checked_mul(10) {
            Some(x) => match x.checked_add(d) {
                Some(y) => {
                    acc = y;
                    false
                },
                None => true,
            },
            None => true,
        };
        if overflowed {
            proof {
                if spec_all_digits(full) {
                    lemma_digits_val_prefix(full, i as int + 1 - lo);
                    assert(full.subrange(0, i as int + 1 - lo) =~= ext);
                }
            }
            return None;
        }
        i = i + 1;
    }
    proof {
        assert(spec_parse_u64(full) == Some(acc));
    }
    Some(acc)
}

/// Scale a parsed number by a positive per-second multiplier, holding
/// the product at the top of the unsigned 64-bit range.
fn scale_saturating(n: u64, multiplier: u64) -> (r: u64)
    requires
        multiplier >= 1,
    ensures
        r as int == spec_sat_u64(n as int * multiplier as int),
{
    match n.checked_mul(multiplier) {
        Some(x) => x,
        None => u64::MAX,
    }
}

/// Parse an interval string into whole seconds.
///
/// A bare number is seconds; `ms`, `s`, `min`, `h` and `d` suffixes
/// scale their (whitespace-trimmed) number, with milliseconds rounded
/// down to whole seconds; anything unparsable yields the 300-second
/// default, and oversized products saturate.
pub fn parse_interval_to_secs(s: &str) -> (secs: u64)
    ensures
        secs as int == spec_parse_interval_secs(s.spec_bytes()),
{
    let b = s.as_bytes();
    let ghost raw = b@;
    let (lo, hi) = trim_range(b, 0, b.len());
    proof {
        assert(b@.subrange(0, b@.len() as int) =~= b@);
    }
    let ghost t = spec_trim(raw);
    match parse_u64_range(b, lo, hi) {
        Some(n) => {
            return n;
        },
        None => {},
    }
    let len = hi - lo;
    if len >= 2 && b[hi - 2] == 109 && b[hi - 1] == 115 {
        proof {
            assert(t[t.len() - 2] == b@[hi as int - 2]);
            assert(t[t.len() - 1] == b@[hi as int - 1]);
            assert(t.subrange(t.len() - 2, t.len() as int) =~= seq![109u8, 115u8]);
            assert(t.subrange(0, t.len() - 2) =~= b@.subrange(lo as int, hi as int - 2));
        }
        let (l2, h2) = trim_range(b, lo, hi - 2);
        match parse_u64_range(b, l2, h2) {
            Some(n) => n / 1000,
            None => 300,
        }
    } else {
        proof {
            if spec_ends_with(t, seq![109u8, 115u8]) {
                lemma_ends_with_index(t, seq![109u8, 115u8]);
                assert(seq![109u8, 115u8][0] == 109u8);
                assert(seq![109u8, 115u8][1] == 115u8);
                assert(t[t.len() - 2] == 109 && t[t.len() - 1] == 115);
                assert(b@[hi as int - 2] == t[t.len() - 2]);
                assert(b@[hi as int - 1] == t[t.len() - 1]);
            }
        }
        if len >= 1 && b[hi - 1] == 115 {
            proof {
                assert(t[t.len() - 1] == b@[hi as int - 1]);
                assert(t.subrange(t.len() - 1, t.len() as int) =~= seq![115u8]);
                assert(t.subrange(0, t.len() - 1) =~= b@.subrange(lo as int, hi as int - 1));
            }
            let (l2, h2) = trim_range(b, lo, hi - 1);
            match parse_u64_range(b, l2, h2) {
                Some(n) => n,
                None => 300,
            }
        } else {
            proof {
                if spec_ends_with(t, seq![115u8]) {
                    lemma_ends_with_index(t, seq![115u8]);
                    assert(seq![115u8][0] == 115u8);
                    assert(t[t.len() - 1] == 115);
                    assert(b@[hi as int - 1] == t[t.len() - 1]);
                }
            }
            if len >= 3 && b[hi - 3] == 109 && b[hi - 2] == 105 && b[hi - 1] == 110 {
                proof {
                    assert(t[t.len() - 3] == b@[hi as int - 3]);
                    assert(t[t.len() - 2] == b@[hi as int - 2]);
                    assert(t[t.len() - 1] == b@[hi as int - 1]);
                    assert(t.subrange(t.len() - 3, t.len() as int) =~= seq![109u8, 105u8, 110u8]);
                    assert(t.subrange(0, t.len() - 3) =~= b@.subrange(lo as int, hi as int - 3));
                }
                let (l2, h2) = trim_range(b, lo, hi - 3);
                match parse_u64_range(b, l2, h2) {
                    Some(n) => scale_saturating(n, 60),
                    None => 300,
                }
            } else {
                proof {
                    if spec_ends_with(t, seq![109u8, 105u8, 110u8]) {
                        lemma_ends_with_index(t, seq![109u8, 105u8, 110u8]);
                        assert(seq![109u8, 105u8, 110u8][0] == 109u8);
                        assert(seq![109u8, 105u8, 110u8][1] == 105u8);
                        assert(seq![109u8, 105u8, 110u8][2] == 110u8);
                        assert(t[t.len() - 3] == 109 && t[t.len() - 2] == 105 && t[t.len() - 1]
                            == 110);
                        assert(b@[hi as int - 3] == t[t.len() - 3]);
                        assert(b@[hi as int - 2] == t[t.len() - 2]);
                        assert(b@[hi as int - 1] == t[t.len() - 1]);
                    }
                }
                if len >= 1 && b[hi - 1] == 104 {
                    proof {
                        assert(t[t.len() - 1] == b@[hi as int - 1]);
                        assert(t.subrange(t.len() - 1, t.len() as int) =~= seq![104u8]);
                        assert(t.subrange(0, t.len() - 1) =~= b@.subrange(lo as int, hi as int - 1));
                    }
                    let (l2, h2) = trim_range(b, lo, hi - 1);
                    match parse_u64_range(b, l2, h2) {
                        Some(n) => scale_saturating(n, 3600),
                        None => 300,
                    }
                } else {
                    proof {
                        if spec_ends_with(t, seq![104u8]) {
                            lemma_ends_with_index(t, seq![104u8]);
                            assert(seq![104u8][0] == 104u8);
                            assert(t[t.len() - 1] == 104);
                            assert(b@[hi as int - 1] == t[t.len() - 1]);
                        }
                    }
                    if len >= 1 && b[hi - 1] == 100 {
                        proof {
                            assert(t[t.len() - 1] == b@[hi as int - 1]);
                            assert(t.subrange(t.len() - 1, t.len() as int) =~= seq![100u8]);
                            assert(t.subrange(0, t.len() - 1) =~= b@.subrange(
                                lo as int,
                                hi as int - 1,
                            ));
                        }
                        let (l2, h2) = trim_range(b, lo, hi - 1);
                        match parse_u64_range(b, l2, h2) {
                            Some(n) => scale_saturating(n, 86400),
                            None => 300,
                        }
                    } else {
                        proof {
                            if spec_ends_with(t, seq![100u8]) {
                                lemma_ends_with_index(t, seq![100u8]);
                                assert(seq![100u8][0] == 100u8);
                                assert(t[t.len() - 1] == 100);
                                assert(b@[hi as int - 1] == t[t.len() - 1]);
                            }
                        }
                        300
                    }
                }
            }
        }
    }
}

} // verus!
