//! Character-level helpers for the textual configuration values: ASCII
//! case-insensitive matching, whitespace trimming, and decimal parsing.

use vstd::prelude::*;

verus! {

/// ASCII whitespace (what the configuration values can realistically hold).
pub open spec fn is_space(c: char) -> bool {
    c as u32 == 32 || (9 <= c as u32 <= 13)
}

/// ASCII decimal digit.
pub open spec fn is_digit(c: char) -> bool {
    48 <= c as u32 <= 57
}

/// The two characters are equal up to ASCII case.
pub open spec fn eq_ignore_case(a: char, b: char) -> bool {
    ||| a == b
    ||| (65 <= a as u32 <= 90 && a as u32 + 32 == b as u32)
    ||| (65 <= b as u32 <= 90 && b as u32 + 32 == a as u32)
}

/// The string equals the keyword up to ASCII case.
pub open spec fn matches_keyword(s: Seq<char>, kw: Seq<char>) -> bool {
    s.len() == kw.len() && forall|i: int| 0 <= i < s.len() ==> eq_ignore_case(#[trigger] s[i], kw[i])
}

/// The string with leading and trailing ASCII whitespace removed.
pub open spec fn spec_trim(s: Seq<char>) -> Seq<char>
    decreases s.len(),
{
    if s.len() > 0 && is_space(s[0]) {
        spec_trim(s.drop_first())
    } else if s.len() > 0 && is_space(s.last()) {
        spec_trim(s.drop_last())
    } else {
        s
    }
}

/// The value of a big-endian string of decimal digits, unbounded.
pub open spec fn spec_dec_value(s: Seq<char>) -> int
    decreases s.len(),
{
    if s.len() == 0 {
        0
    } else {
        spec_dec_value(s.drop_last()) * 10 + (s.last() as u32 - 48)
    }
}

/// The digits of a decimal literal: one optional leading `+`, then the
/// digits themselves.
pub open spec fn spec_usize_digits(s: Seq<char>) -> Seq<char> {
    if s.len() > 0 && s[0] == '+' {
        s.drop_first()
    } else {
        s
    }
}

/// Decimal parsing as `usize::from_str` performs it: an optional `+`,
/// then at least one digit, rejecting overflow.
pub open spec fn spec_parse_usize(s: Seq<char>) -> Option<int> {
    let d = spec_usize_digits(s);
    if d.len() > 0 && (forall|k: int| 0 <= k < d.len() ==> is_digit(#[trigger] d[k]))
        && spec_dec_value(d) <= usize::MAX {
        Some(spec_dec_value(d))
    } else {
        None
    }
}

proof fn lemma_dec_value_nonneg(s: Seq<char>)
    requires
        forall|k: int| 0 <= k < s.len() ==> is_digit(#[trigger] s[k]),
    ensures
        spec_dec_value(s) >= 0,
    decreases s.len(),
{
    if s.len() > 0 {
        lemma_dec_value_nonneg(s.drop_last());
    }
}

proof fn lemma_dec_value_step(s: Seq<char>, j: int)
    requires
        0 <= j < s.len(),
    ensures
        spec_dec_value(s.subrange(0, j + 1)) == spec_dec_value(s.subrange(0, j)) * 10 + (
        s[j] as u32 - 48),
{
    let t = s.subrange(0, j + 1);
    assert(t.drop_last() =~= s.subrange(0, j));
    assert(t.last() == s[j]);
}

proof fn lemma_dec_value_overflow(s: Seq<char>, j: int)
    requires
        0 <= j <= s.len(),
        spec_dec_value(s.subrange(0, j)) > usize::MAX,
    ensures
        spec_dec_value(s) > usize::MAX,
    decreases s.len() - j,
{
    if j < s.len() {
        lemma_dec_value_step(s, j);
        assert(s[j] as u32 - 48 >= -48);
        lemma_dec_value_overflow(s, j + 1);
    } else {
        assert(s.subrange(0, j) =~= s);
    }
}

/// The characters of a string, in order, as a vector.
pub fn chars_of(s: &str) -> (v: Vec<char>)
    ensures
        v@ == s@,
{
    let n = s.unicode_len();
    let mut v: Vec<char> = Vec::new();
    let mut i: usize = 0;
    while i < n
        invariant
            i <= n,
            n == s@.len(),
            v@ == s@.subrange(0, i as int),
        decreases n - i,
    {
        v.push(s.get_char(i));
        proof {
            assert(s@.subrange(0, i as int).push(s@[i as int]) =~= s@.subrange(0, i + 1));
        }
        i += 1;
    }
    proof {
        assert(s@.subrange(0, n as int) =~= s@);
    }
    v
}

pub fn eq_ignore_case_exec(a: char, b: char) -> (r: bool)
    ensures
        r == eq_ignore_case(a, b),
{
    let au = a as u32;
    let bu = b as u32;
    au == bu || (au >= 65 && au <= 90 && au + 32 == bu) || (bu >= 65 && bu <= 90 && bu + 32 == au)
}

/// The bounds of `spec_trim(v@.subrange(from, to))` inside `v`: the first
/// and one-past-the-last non-whitespace positions.
pub fn trim_range(v: &Vec<char>, from: usize, to: usize) -> (r: (usize, usize))
    requires
        from <= to <= v@.len(),
    ensures
        from <= r.0 <= r.1 <= to,
        v@.subrange(r.0 as int, r.1 as int) == spec_trim(v@.subrange(from as int, to as int)),
    decreases to - from,
{
    if from < to && {
        let c = v[from];
        (c as u32 == 32 || (c as u32 >= 9 && c as u32 <= 13))
    } {
        proof {
            let s = v@.subrange(from as int, to as int);
            assert(is_space(s[0]));
            assert(s.drop_first() =~= v@.subrange(from + 1, to as int));
        }
        trim_range(v, from + 1, to)
    } else if from < to && {
        let c = v[to - 1];
        (c as u32 == 32 || (c as u32 >= 9 && c as u32 <= 13))
    } {
        proof {
            let s = v@.subrange(from as int, to as int);
            assert(!(s.len() > 0 && is_space(s[0])));
            assert(is_space(s.last()));
            assert(s.drop_last() =~= v@.subrange(from as int, to - 1));
        }
        trim_range(v, from, to - 1)
    } else {
        (from, to)
    }
}

/// `usize::from_str` over the character range `[from, to)` of `v`.
pub fn parse_usize_range(v: &Vec<char>, from: usize, to: usize) -> (r: Option<usize>)
    requires
        from <= to <= v@.len(),
    ensures
        ({
            let s = v@.subrange(from as int, to as int);
            match r {
                Some(n) => spec_parse_usize(s) == Some(n as int),
                None => spec_parse_usize(s) is None,
            }
        }),
{
    let ghost s = v@.subrange(from as int, to as int);
    let mut i = from;
    if i < to && v[i] == '+' {
        i += 1;
    }
    let ghost d = spec_usize_digits(s);
    proof {
        assert(d =~= v@.subrange(i as int, to as int));
    }
    if i == to {
        return None;
    }
    let start = i;
    let mut acc: usize = 0;
    proof {
        assert(d.subrange(0, 0) =~= Seq::<char>::empty());
    }
    while i < to
        invariant
            from <= start <= i <= to,
            start < to,
            to <= v@.len(),
            s == v@.subrange(from as int, to as int),
            d == v@.subrange(start as int, to as int),
            d == spec_usize_digits(s),
            forall|k: int| 0 <= k < i - start ==> is_digit(#[trigger] d[k]),
            acc == spec_dec_value(d.subrange(0, i - start)),
        decreases to - i,
    {
        let c = v[i];
        proof {
            assert(d[i - start] == v@[i as int]);
        }
        if !((c as u32) >= 48 && (c as u32) <= 57) {
            proof {
                assert(!is_digit(d[i - start]));
                assert(spec_parse_usize(s) is None);
            }
            return None;
        }
        let dv: usize = ((c as u32) - 48) as usize;
        let next = match acc.checked_mul(10) {
            Some(m) => m.checked_add(dv),
            None => None,
        };
        match next {
            Some(m) => {
                proof {
                    lemma_dec_value_step(d, i - start);
                }
                acc = m;
            },
            None => {
                // The value no longer fits in usize; appending digits only
                // grows it, so the parse fails as a whole.
                proof {
                    lemma_dec_value_step(d, i - start);
                    lemma_dec_value_nonneg(d.subrange(0, i - start));
                    assert(spec_dec_value(d.subrange(0, i - start + 1)) > usize::MAX);
                    lemma_dec_value_overflow(d, i - start + 1);
                }
                return None;
            },
        }
        i += 1;
    }
    proof {
        assert(d.subrange(0, d.len() as int) =~= d);
        lemma_dec_value_nonneg(d);
    }
    Some(acc)
}

} // verus!
