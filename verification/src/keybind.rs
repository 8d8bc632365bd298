//! Key names to keysyms and modifier names to server modifier masks.

use vstd::prelude::*;

use crate::text::{chars_of, eq_ignore_case, eq_ignore_case_exec, matches_keyword, spec_trim,
    trim_range};

verus! {

/// Server modifier masks (the X protocol values).
pub const SHIFT_MASK: u32 = 1;

pub const CONTROL_MASK: u32 = 4;

pub const MOD1_MASK: u32 = 8;

pub const MOD4_MASK: u32 = 64;

/// The keysym a configured key name stands for.
///
/// Letters and digits carry their own code points as keysyms; `space` is
/// its code point too. Letter names fold case. Anything unrecognised
/// falls back to the keysym of `w`.
pub open spec fn spec_keysym(s: Seq<char>) -> u64 {
    if s.len() == 1 && 97 <= s[0] as u32 <= 122 {
        s[0] as u32 as u64
    } else if s.len() == 1 && 65 <= s[0] as u32 <= 90 {
        (s[0] as u32 + 32) as u64
    } else if s.len() == 1 && 48 <= s[0] as u32 <= 57 {
        s[0] as u32 as u64
    } else if matches_keyword(s, "space"@) {
        32
    } else {
        119
    }
}

/// The mask one modifier name stands for; unknown names fall back to alt.
pub open spec fn spec_modifier_token(t: Seq<char>) -> u32 {
    if matches_keyword(t, "alt"@) {
        MOD1_MASK
    } else if matches_keyword(t, "ctrl"@) {
        CONTROL_MASK
    } else if matches_keyword(t, "shift"@) {
        SHIFT_MASK
    } else if matches_keyword(t, "super"@) || matches_keyword(t, "win"@) {
        MOD4_MASK
    } else {
        MOD1_MASK
    }
}

/// The position of the first `+`, or the length when there is none.
pub open spec fn first_plus(s: Seq<char>) -> int
    decreases s.len(),
{
    if s.len() == 0 {
        0
    } else if s[0] == '+' {
        0
    } else {
        1 + first_plus(s.drop_first())
    }
}

proof fn lemma_first_plus(s: Seq<char>, i: int)
    requires
        0 <= i <= s.len(),
        forall|k: int| 0 <= k < i ==> s[k] != '+',
        i < s.len() ==> s[i] == '+',
    ensures
        first_plus(s) == i,
    decreases i,
{
    if i == 0 {
    } else {
        let t = s.drop_first();
        lemma_first_plus(t, i - 1);
    }
}

/// The combined mask of a `+`-separated modifier string: each token is
/// trimmed and looked up, and the masks are OR'd together.
pub open spec fn spec_modifier_mask(s: Seq<char>) -> u32
    decreases s.len(),
{
    let i = first_plus(s);
    if 0 <= i < s.len() {
        spec_modifier_token(spec_trim(s.subrange(0, i))) | spec_modifier_mask(
            s.subrange(i + 1, s.len() as int),
        )
    } else {
        spec_modifier_token(spec_trim(s))
    }
}

proof fn lemma_first_plus_bounds(s: Seq<char>)
    ensures
        0 <= first_plus(s) <= s.len(),
    decreases s.len(),
{
    if s.len() > 0 && s[0] != '+' {
        lemma_first_plus_bounds(s.drop_first());
    }
}

/// The characters of `[from, to)` of `v` equal the keyword up to ASCII
/// case.
fn range_matches_keyword(v: &Vec<char>, from: usize, to: usize, kw: &str) -> (r: bool)
    requires
        from <= to <= v@.len(),
    ensures
        r == matches_keyword(v@.subrange(from as int, to as int), kw@),
{
    let kn = kw.unicode_len();
    if to - from != kn {
        return false;
    }
    let mut i: usize = 0;
    while i < kn
        invariant
            i <= kn,
            kn == kw@.len(),
            from <= to <= v@.len(),
            to - from == kn,
            forall|k: int|
                0 <= k < i ==> eq_ignore_case(#[trigger] v@.subrange(from as int, to as int)[k], kw@[k]),
        decreases kn - i,
    {
        if !eq_ignore_case_exec(v[from + i], kw.get_char(i)) {
            proof {
                assert(v@.subrange(from as int, to as int)[i as int] == v@[from + i]);
            }
            return false;
        }
        proof {
            assert(v@.subrange(from as int, to as int)[i as int] == v@[from + i]);
        }
        i += 1;
    }
    true
}

/// The mask of one trimmed token inside `v`.
fn token_mask(v: &Vec<char>, from: usize, to: usize) -> (m: u32)
    requires
        from <= to <= v@.len(),
    ensures
        m == spec_modifier_token(v@.subrange(from as int, to as int)),
{
    if range_matches_keyword(v, from, to, "alt") {
        MOD1_MASK
    } else if range_matches_keyword(v, from, to, "ctrl") {
        CONTROL_MASK
    } else if range_matches_keyword(v, from, to, "shift") {
        SHIFT_MASK
    } else if range_matches_keyword(v, from, to, "super") || range_matches_keyword(
        v,
        from,
        to,
        "win",
    ) {
        MOD4_MASK
    } else {
        MOD1_MASK
    }
}

/// The mask of the `+`-separated modifier string starting at `from`.
fn modifier_mask_from(v: &Vec<char>, from: usize) -> (m: u32)
    requires
        from <= v@.len(),
    ensures
        m == spec_modifier_mask(v@.subrange(from as int, v@.len() as int)),
    decreases v@.len() - from,
{
    let n = v.len();
    let ghost s = v@.subrange(from as int, n as int);
    let mut i = from;
    while i < n && v[i] != '+'
        invariant
            from <= i <= n,
            n == v@.len(),
            forall|k: int| from <= k < i ==> v@[k] != '+',
        decreases n - i,
    {
        i += 1;
    }
    proof {
        assert forall|k: int| 0 <= k < i - from implies s[k] != '+' by {
            assert(s[k] == v@[from + k]);
        }
        if (i as int) < n as int {
            assert(s[i - from] == v@[i as int]);
        }
        lemma_first_plus(s, i - from);
    }
    let (a, b) = trim_range(v, from, i);
    proof {
        assert(v@.subrange(from as int, i as int) =~= s.subrange(0, i - from));
        if i == n {
            assert(s.subrange(0, i - from) =~= s);
        }
    }
    let t = token_mask(v, a, b);
    proof {
        assert(v@.subrange(a as int, b as int) == spec_trim(v@.subrange(from as int, i as int)));
    }
    if i == n {
        t
    } else {
        let rest = modifier_mask_from(v, i + 1);
        proof {
            assert(v@.subrange(i + 1, n as int) =~= s.subrange(i - from + 1, s.len() as int));
        }
        t | rest
    }
}

/// The keysym bound to a configured key name.
pub fn get_keysym_for_key(key: &str) -> (k: u64)
    ensures
        k == spec_keysym(key@),
{
    let v = chars_of(key);
    if v.len() == 1 {
        let c = v[0] as u32;
        if c >= 97 && c <= 122 {
            c as u64
        } else if c >= 65 && c <= 90 {
            (c + 32) as u64
        } else if c >= 48 && c <= 57 {
            c as u64
        } else {
            proof {
                reveal_strlit("space");
            }
            119
        }
    } else if range_matches_keyword(&v, 0, v.len(), "space") {
        proof {
            assert(v@.subrange(0, v@.len() as int) =~= v@);
        }
        32
    } else {
        proof {
            assert(v@.subrange(0, v@.len() as int) =~= v@);
        }
        119
    }
}

/// The combined server mask of a `+`-separated modifier string.
pub fn get_modifier(modifier: &str) -> (m: u32)
    ensures
        m == spec_modifier_mask(modifier@),
{
    let v = chars_of(modifier);
    let m = modifier_mask_from(&v, 0);
    proof {
        assert(v@.subrange(0, v@.len() as int) =~= v@);
    }
    m
}

/// The server mask of a single modifier name, without splitting.
pub fn get_modifier_for_key(key: &str) -> (m: u32)
    ensures
        m == spec_modifier_token(key@),
{
    let v = chars_of(key);
    let m = token_mask(&v, 0, v.len());
    proof {
        assert(v@.subrange(0, v@.len() as int) =~= v@);
    }
    m
}

} // verus!
