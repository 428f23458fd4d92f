//! Character-level text utilities for the line-oriented template format:
//! exact splitting on a separator and whole-string comparison.

use vstd::prelude::*;
use vstd::string::StrSliceExecFns;
use vstd::string::StringExecFns;

verus! {

/// Split on every occurrence of `sep`, keeping empty segments, exactly as
/// splitting on a single-character pattern does.
pub open spec fn spec_split(s: Seq<char>, sep: char) -> Seq<Seq<char>>
    decreases s.len(),
{
    if s.len() == 0 {
        seq![Seq::<char>::empty()]
    } else if s[0] == sep {
        seq![Seq::<char>::empty()] + spec_split(s.drop_first(), sep)
    } else {
        let r = spec_split(s.drop_first(), sep);
        seq![seq![s[0]] + r[0]] + r.skip(1)
    }
}

/// Splitting always yields at least one segment.
pub proof fn lemma_split_len(s: Seq<char>, sep: char)
    ensures
        spec_split(s, sep).len() >= 1,
    decreases s.len(),
{
    if s.len() > 0 {
        lemma_split_len(s.drop_first(), sep);
    }
}

/// When the first `m` characters hold no separator and position `m` is the
/// end or a separator, the first segment is exactly those `m` characters.
pub proof fn lemma_split_first_seg(s: Seq<char>, sep: char, m: int)
    requires
        0 <= m <= s.len(),
        forall|i: int| 0 <= i < m ==> s[i] != sep,
        m == s.len() || s[m] == sep,
    ensures
        m == s.len() ==> spec_split(s, sep) =~~= seq![s],
        m < s.len() ==> spec_split(s, sep) =~~= seq![s.take(m)] + spec_split(s.skip(m + 1), sep),
    decreases s.len(),
{
    lemma_split_len(s, sep);
    if s.len() == 0 {
    } else if s[0] == sep {
        assert(m == 0);
        assert(s.take(0) =~= Seq::<char>::empty());
        assert(s.skip(1) =~= s.drop_first());
    } else {
        assert(m > 0);
        let t = s.drop_first();
        lemma_split_len(t, sep);
        lemma_split_first_seg(t, sep, m - 1);
        if m == s.len() {
            assert(spec_split(t, sep) =~~= seq![t]);
            assert(seq![s[0]] + t =~= s);
        } else {
            assert(spec_split(t, sep) =~~= seq![t.take(m - 1)] + spec_split(t.skip(m), sep));
            assert(seq![s[0]] + t.take(m - 1) =~= s.take(m));
            assert(t.skip(m) =~= s.skip(m + 1));
        }
    }
}

/// Exact character-wise string comparison.
pub fn str_eq(a: &str, b: &str) -> (r: bool)
    ensures
        r == (a@ == b@),
{
    let na = a.unicode_len();
    let nb = b.unicode_len();
    if na != nb {
        return false;
    }
    let mut i: usize = 0;
    while i < na
        invariant
            na == a@.len(),
            na == b@.len(),
            i <= na,
            forall|j: int| 0 <= j < i ==> a@[j] == b@[j],
        decreases na - i,
    {
        if a.get_char(i) != b.get_char(i) {
            return false;
        }
        i = i + 1;
    }
    proof {
        assert(a@ =~= b@);
    }
    true
}

/// Split `s` on every `sep`, returning owned segments.
pub fn split_str(s: &str, sep: char) -> (r: Vec<String>)
    ensures
        r@.map(|i: int, x: String| x@) == spec_split(s@, sep),
        forall|i: int| 0 <= i < r@.len() ==> (#[trigger] r@[i])@.len() <= s@.len(),
    decreases s@.len(),
{
    let n = s.unicode_len();
    let mut out: Vec<String> = Vec::new();
    let mut start: usize = 0;
    let mut i: usize = 0;
    proof {
        assert(s@.skip(0) =~= s@);
        assert(out@.map(|k: int, x: String| x@) =~~= Seq::<Seq<char>>::empty());
        assert(spec_split(s@, sep) =~~= out@.map(|k: int, x: String| x@) + spec_split(
            s@.skip(0),
            sep,
        ));
    }
    while i < n
        invariant
            n == s@.len(),
            start <= i <= n,
            forall|j: int| start <= j < i ==> s@[j] != sep,
            spec_split(s@, sep) =~~= out@.map(|k: int, x: String| x@) + spec_split(
                s@.skip(start as int),
                sep,
            ),
            forall|k: int| 0 <= k < out@.len() ==> (#[trigger] out@[k])@.len() <= s@.len(),
        decreases n - i,
    {
        if s.get_char(i) == sep {
            let seg = String::from_str(s.substring_char(start, i));
            proof {
                let rest = s@.skip(start as int);
                lemma_split_first_seg(rest, sep, i - start);
                assert(rest.take(i - start) =~= s@.subrange(start as int, i as int));
                assert(rest.skip(i - start + 1) =~= s@.skip(i + 1));
                assert((out@.push(seg)).map(|k: int, x: String| x@) =~~= out@.map(
                    |k: int, x: String| x@,
                ).push(seg@));
            }
            out.push(seg);
            start = i + 1;
        }
        i = i + 1;
    }
    let seg = String::from_str(s.substring_char(start, n));
    proof {
        let rest = s@.skip(start as int);
        lemma_split_first_seg(rest, sep, n - start);
        assert(rest.take(n - start) =~= s@.subrange(start as int, n as int));
        assert(rest =~= s@.subrange(start as int, n as int));
        assert((out@.push(seg)).map(|k: int, x: String| x@) =~~= out@.map(
            |k: int, x: String| x@,
        ).push(seg@));
    }
    out.push(seg);
    proof {
        assert(out@.map(|k: int, x: String| x@) =~~= spec_split(s@, sep));
    }
    out
}

/// A non-empty run of decimal digits.
pub open spec fn spec_is_digits(s: Seq<char>) -> bool {
    s.len() > 0 && spec_all_digits(s)
}

/// A possibly empty run of decimal digits.
pub open spec fn spec_all_digits(s: Seq<char>) -> bool {
    forall|i: int| 0 <= i < s.len() ==> 48 <= (#[trigger] s[i]) as int <= 57
}

/// Value of a digit run, most significant first; zero when empty.
pub open spec fn spec_digits_val(s: Seq<char>) -> int
    decreases s.len(),
{
    if s.len() == 0 {
        0
    } else {
        spec_digits_val(s.drop_last()) * 10 + (s.last() as int - 48)
    }
}

pub proof fn lemma_digits_val_nonneg(s: Seq<char>)
    requires
        spec_all_digits(s),
    ensures
        spec_digits_val(s) >= 0,
    decreases s.len(),
{
    if s.len() > 0 {
        assert(spec_all_digits(s.drop_last()));
        lemma_digits_val_nonneg(s.drop_last());
    }
}

/// A digit run is worth at least any of its prefixes.
pub proof fn lemma_digits_val_prefix(s: Seq<char>, i: int)
    requires
        spec_all_digits(s),
        0 <= i <= s.len(),
    ensures
        spec_digits_val(s.take(i)) <= spec_digits_val(s),
    decreases s.len() - i,
{
    if i == s.len() {
        assert(s.take(i) =~= s);
    } else {
        lemma_digits_val_prefix(s, i + 1);
        assert(s.take(i + 1).drop_last() =~= s.take(i));
        assert(spec_all_digits(s.take(i)));
        lemma_digits_val_nonneg(s.take(i));
        assert(spec_digits_val(s.take(i + 1)) == spec_digits_val(s.take(i)) * 10 + (s[i] as int
            - 48));
        assert(spec_digits_val(s.take(i)) <= spec_digits_val(s.take(i + 1)));
    }
}

/// Parse an unsigned decimal integer exactly as the platform-sized integer
/// type accepts one: a non-empty digit run whose value fits.
pub fn parse_usize(w: &str) -> (r: Option<usize>)
    ensures
        match r {
            Some(v) => spec_is_digits(w@) && v == spec_digits_val(w@) && spec_digits_val(w@)
                <= usize::MAX,
            None => !spec_is_digits(w@) || spec_digits_val(w@) > usize::MAX,
        },
{
    let n = w.unicode_len();
    if n == 0 {
        return None;
    }
    let mut acc: u128 = 0;
    let mut i: usize = 0;
    while i < n
        invariant
            n == w@.len(),
            i <= n,
            spec_all_digits(w@.take(i as int)),
            acc == spec_digits_val(w@.take(i as int)),
            acc <= usize::MAX,
        decreases n - i,
    {
        let c = w.get_char(i);
        let cu = c as u32;
        if cu < 48 || cu > 57 {
            return None;
        }
        let d: u128 = (cu - 48) as u128;
        acc = acc * 10 + d;
        i = i + 1;
        proof {
            assert(w@.take(i as int).drop_last() =~= w@.take(i as int - 1));
        }
        if acc > usize::MAX as u128 {
            proof {
                if spec_all_digits(w@) {
                    lemma_digits_val_prefix(w@, i as int);
                }
            }
            return None;
        }
    }
    proof {
        assert(w@.take(n as int) =~= w@);
    }
    Some(acc as usize)
}

/// Parse a byte-sized palette index: a non-empty digit run of value at most
/// 255.
pub fn parse_u8(w: &str) -> (r: Option<u8>)
    ensures
        match r {
            Some(v) => spec_is_digits(w@) && v == spec_digits_val(w@) && spec_digits_val(w@) <= 255,
            None => !spec_is_digits(w@) || spec_digits_val(w@) > 255,
        },
{
    match parse_usize(w) {
        Some(v) => if v <= 255 {
            Some(v as u8)
        } else {
            None
        },
        None => None,
    }
}

pub open spec fn spec_pow10(n: int) -> int
    decreases n,
{
    if n <= 0 {
        1
    } else {
        10 * spec_pow10(n - 1)
    }
}

/// Parse a possibly empty digit run of at most nine digits.
fn parse_frac(w: &str) -> (r: Option<u64>)
    ensures
        match r {
            Some(v) => spec_all_digits(w@) && w@.len() <= 9 && v == spec_digits_val(w@),
            None => !spec_all_digits(w@) || w@.len() > 9,
        },
{
    let n = w.unicode_len();
    if n > 9 {
        return None;
    }
    let mut acc: u64 = 0;
    let mut i: usize = 0;
    while i < n
        invariant
            n == w@.len(),
            n <= 9,
            i <= n,
            spec_all_digits(w@.take(i as int)),
            acc == spec_digits_val(w@.take(i as int)),
            acc <= 999_999_999,
        decreases n - i,
    {
        let c = w.get_char(i);
        let cu = c as u32;
        if cu < 48 || cu > 57 {
            return None;
        }
        let d: u64 = (cu - 48) as u64;
        proof {
            reveal_with_fuel(spec_pow10, 11);
            lemma_digits_val_nonneg(w@.take(i as int));
            assert(spec_digits_val(w@.take(i as int)) <= spec_pow10(i as int) - 1) by {
                lemma_digits_val_ubound(w@.take(i as int));
            }
            lemma_pow10_mono(i as int, 8);
            assert(spec_pow10(8) == 100_000_000);
        }
        acc = acc * 10 + d;
        i = i + 1;
        proof {
            assert(w@.take(i as int).drop_last() =~= w@.take(i as int - 1));
        }
    }
    proof {
        assert(w@.take(n as int) =~= w@);
    }
    Some(acc)
}

/// A digit run of `n` digits is worth less than ten to the `n`.
pub proof fn lemma_digits_val_ubound(s: Seq<char>)
    requires
        spec_all_digits(s),
    ensures
        spec_digits_val(s) <= spec_pow10(s.len() as int) - 1,
    decreases s.len(),
{
    if s.len() > 0 {
        assert(spec_all_digits(s.drop_last()));
        lemma_digits_val_ubound(s.drop_last());
    }
}

pub proof fn lemma_pow10_mono(a: int, b: int)
    requires
        a <= b,
    ensures
        spec_pow10(a) <= spec_pow10(b),
        spec_pow10(a) >= 1,
    decreases b - a + if a >= 0 {
        a
    } else {
        0
    },
{
    if a < b {
        lemma_pow10_mono(a, b - 1);
    } else if a > 0 {
        lemma_pow10_mono(a - 1, a - 1);
    }
}

/// The fixed-point decimal numeral grammar of the template format,
/// chosen deliberately and stated in full rather than inherited from a
/// general-purpose decimal parser: an optional minus sign (no plus), a
/// non-empty integer digit run worth at most 32767 (the template
/// coordinate range), and optionally a point followed by at most nine
/// fraction digits.  The value is the raw count of 1/65536 steps with the
/// fraction truncated toward zero, matching the crate's arithmetic
/// rounding policy.  Anything else - a bare point, a lone sign, an
/// exponent, a longer fraction - is a parse failure, never silently
/// rounded.
pub open spec fn spec_parse_fx(w: Seq<char>) -> Option<int> {
    let neg = w.len() > 0 && w[0] == '-';
    let body = if neg {
        w.drop_first()
    } else {
        w
    };
    let parts = spec_split(body, '.');
    if parts.len() == 1 && spec_is_digits(parts[0]) && spec_digits_val(parts[0]) <= 32767 {
        let mag = spec_digits_val(parts[0]) * 65536;
        Some(
            if neg {
                -mag
            } else {
                mag
            },
        )
    } else if parts.len() == 2 && spec_is_digits(parts[0]) && spec_digits_val(parts[0]) <= 32767
        && spec_all_digits(parts[1]) && parts[1].len() <= 9 {
        let mag = spec_digits_val(parts[0]) * 65536 + (spec_digits_val(parts[1]) * 65536)
            / spec_pow10(parts[1].len() as int);
        Some(
            if neg {
                -mag
            } else {
                mag
            },
        )
    } else {
        None
    }
}

/// Parse a fixed-point decimal numeral.  The result's magnitude stays under
/// two to the thirty-first.
pub fn parse_fx(w: &str) -> (r: Option<crate::fx::Fx>)
    ensures
        match r {
            Some(v) => spec_parse_fx(w@) == Some(v.raw as int) && -0x8000_0000 <= v.raw
                <= 0x8000_0000,
            None => spec_parse_fx(w@) is None,
        },
{
    let n = w.unicode_len();
    let neg: bool = n > 0 && w.get_char(0) == '-';
    let s0: usize = if neg {
        1
    } else {
        0
    };
    let body = w.substring_char(s0, n);
    proof {
        if neg {
            assert(body@ =~= w@.drop_first());
        } else {
            assert(body@ =~= w@);
        }
    }
    let parts = split_str(body, '.');
    let ghost sparts = spec_split(body@, '.');
    if parts.len() == 1 {
        let ip = match parse_usize(parts[0].as_str()) {
            Some(v) => v,
            None => {
                return None;
            },
        };
        if ip > 32767 {
            proof {
                lemma_digits_val_prefix(parts@[0]@, parts@[0]@.len() as int);
            }
            return None;
        }
        let raw: i64 = (ip as i64) * 65536;
        Some(crate::fx::Fx { raw: if neg { -raw } else { raw } })
    } else if parts.len() == 2 {
        let ip = match parse_usize(parts[0].as_str()) {
            Some(v) => v,
            None => {
                return None;
            },
        };
        if ip > 32767 {
            return None;
        }
        let fp = match parse_frac(parts[1].as_str()) {
            Some(v) => v,
            None => {
                return None;
            },
        };
        let d = parts[1].as_str().unicode_len();
        let p10: u64 = pow10_exec(d);
        proof {
            reveal_with_fuel(spec_pow10, 11);
            lemma_digits_val_ubound(parts@[1]@);
            lemma_pow10_mono(d as int, 9);
            lemma_digits_val_nonneg(parts@[1]@);
            assert(spec_pow10(9) == 1_000_000_000);
            assert(fp <= 999_999_999);
        }
        let fraw: u64 = (fp * 65536) / p10;
        proof {
            assert(fraw <= 65535) by {
                lemma_frac_bound(spec_digits_val(parts@[1]@), spec_pow10(d as int));
            }
        }
        let raw: i64 = (ip as i64) * 65536 + (fraw as i64);
        Some(crate::fx::Fx { raw: if neg { -raw } else { raw } })
    } else {
        None
    }
}

/// Ten to the power of `d`, for `d` at most nine.
fn pow10_exec(d: usize) -> (r: u64)
    requires
        d <= 9,
    ensures
        r == spec_pow10(d as int),
        r >= 1,
{
    let mut r: u64 = 1;
    let mut i: usize = 0;
    while i < d
        invariant
            i <= d,
            d <= 9,
            r == spec_pow10(i as int),
            1 <= r <= 1_000_000_000,
        decreases d - i,
    {
        proof {
            reveal_with_fuel(spec_pow10, 11);
            lemma_pow10_mono(i as int, 8);
            assert(spec_pow10(8) == 100_000_000);
        }
        r = r * 10;
        i = i + 1;
    }
    r
}

/// A truncated fraction of less than one unit stays under one unit of scale.
proof fn lemma_frac_bound(v: int, p: int)
    requires
        0 <= v,
        1 <= p,
        v <= p - 1,
    ensures
        (v * 65536) / p <= 65535,
{
    assert(v * 65536 <= (p - 1) * 65536) by (nonlinear_arith)
        requires
            0 <= v <= p - 1,
    ;
    assert(((p - 1) * 65536) / p <= 65535) by (nonlinear_arith)
        requires
            1 <= p,
    ;
    assert((v * 65536) / p <= ((p - 1) * 65536) / p) by (nonlinear_arith)
        requires
            1 <= p,
            v * 65536 <= (p - 1) * 65536,
            0 <= v,
    ;
}

} // verus!
