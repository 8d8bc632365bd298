//! Appearance configuration: border colours, gaps, floating defaults, and
//! the status-bar palette, with the `#RRGGBB` parsing they all share.

use vstd::prelude::*;
use vstd::string::*;
use vstd::utf8::encode_utf8;

verus! {

/// True for the ASCII digits and hex letters in both cases.
pub open spec fn is_hex_digit(b: u8) -> bool {
    (48 <= b <= 57) || (65 <= b <= 70) || (97 <= b <= 102)
}

/// The numeric value of one hex digit.
pub open spec fn hex_digit_value(b: u8) -> int {
    if 48 <= b <= 57 {
        b - 48
    } else if 65 <= b <= 70 {
        b - 55
    } else {
        b - 87
    }
}

/// The value of a big-endian string of hex digits, unbounded.
pub open spec fn spec_hex_value(s: Seq<u8>) -> int
    decreases s.len(),
{
    if s.len() == 0 {
        0
    } else {
        spec_hex_value(s.drop_last()) * 16 + hex_digit_value(s.last())
    }
}

/// The byte string with every leading `#` removed.
pub open spec fn spec_trim_hashes(s: Seq<u8>) -> Seq<u8>
    decreases s.len(),
{
    if s.len() > 0 && s[0] == 35 {
        spec_trim_hashes(s.drop_first())
    } else {
        s
    }
}

/// The digits of a base-16 integer literal: one optional leading `+`,
/// then the digits themselves.
pub open spec fn spec_hex_digits(s: Seq<u8>) -> Seq<u8> {
    if s.len() > 0 && s[0] == 43 {
        s.drop_first()
    } else {
        s
    }
}

/// Base-16 unsigned parsing: at least one digit, every byte a hex digit,
/// and the value within range; anything else is rejected.
pub open spec fn spec_parse_hex_u64(s: Seq<u8>) -> Option<u64> {
    let d = spec_hex_digits(s);
    if d.len() > 0 && (forall|k: int| 0 <= k < d.len() ==> is_hex_digit(#[trigger] d[k]))
        && spec_hex_value(d) <= u64::MAX {
        Some(spec_hex_value(d) as u64)
    } else {
        None
    }
}

/// A colour string as the configuration holds it: leading `#`s dropped,
/// the rest read as hex, with `default` filling in for anything invalid.
pub open spec fn spec_color_value(s: Seq<u8>, default: u64) -> u64 {
    match spec_parse_hex_u64(spec_trim_hashes(s)) {
        Some(v) => v,
        None => default,
    }
}

/// The UTF-8 bytes of an owned string, for stating contracts over
/// `String` fields.
pub open spec fn utf8_bytes(s: Seq<char>) -> Seq<u8> {
    encode_utf8(s)
}

proof fn lemma_hex_value_nonneg(s: Seq<u8>)
    requires
        forall|k: int| 0 <= k < s.len() ==> is_hex_digit(#[trigger] s[k]),
    ensures
        spec_hex_value(s) >= 0,
    decreases s.len(),
{
    if s.len() > 0 {
        lemma_hex_value_nonneg(s.drop_last());
    }
}

proof fn lemma_hex_value_step(s: Seq<u8>, j: int)
    requires
        0 <= j < s.len(),
    ensures
        spec_hex_value(s.subrange(0, j + 1)) == spec_hex_value(s.subrange(0, j)) * 16
            + hex_digit_value(s[j]),
{
    let t = s.subrange(0, j + 1);
    assert(t.drop_last() =~= s.subrange(0, j));
    assert(t.last() == s[j]);
}

proof fn lemma_hex_value_overflow(s: Seq<u8>, j: int)
    requires
        0 <= j <= s.len(),
        spec_hex_value(s.subrange(0, j)) > u64::MAX,
    ensures
        spec_hex_value(s) > u64::MAX,
    decreases s.len() - j,
{
    if j < s.len() {
        lemma_hex_value_step(s, j);
        assert(hex_digit_value(s[j]) >= -87);
        lemma_hex_value_overflow(s, j + 1);
    } else {
        assert(s.subrange(0, j) =~= s);
    }
}

proof fn lemma_trim_hashes_subrange(s: Seq<u8>, i: int)
    requires
        0 <= i <= s.len(),
        forall|k: int| 0 <= k < i ==> s[k] == 35,
        i < s.len() ==> s[i] != 35,
    ensures
        spec_trim_hashes(s) == s.subrange(i, s.len() as int),
    decreases i,
{
    if i == 0 {
        assert(s.subrange(0, s.len() as int) =~= s);
    } else {
        let t = s.drop_first();
        lemma_trim_hashes_subrange(t, i - 1);
        assert(t.subrange(i - 1, t.len() as int) =~= s.subrange(i, s.len() as int));
    }
}

/// Hex parsing as `u64::from_str_radix(s, 16)` performs it: an optional
/// `+`, then at least one digit, rejecting overflow.
fn parse_hex_u64(bytes: &Vec<u8>) -> (r: Option<u64>)
    ensures
        r == spec_parse_hex_u64(bytes@),
{
    let ghost d = spec_hex_digits(bytes@);
    let n = bytes.len();
    let mut i: usize = 0;
    if n > 0 && bytes[0] == 43 {
        i = 1;
    }
    proof {
        assert(d =~= bytes@.subrange(i as int, n as int));
    }
    if i == n {
        return None;
    }
    let start = i;
    let mut acc: u64 = 0;
    proof {
        assert(d.subrange(0, 0) =~= Seq::<u8>::empty());
    }
    while i < n
        invariant
            start <= i <= n,
            n == bytes@.len(),
            start == (if n > 0 && bytes@[0] == 43 {
                1int
            } else {
                0int
            }),
            d == bytes@.subrange(start as int, n as int),
            forall|k: int| 0 <= k < i - start ==> is_hex_digit(#[trigger] d[k]),
            acc == spec_hex_value(d.subrange(0, i - start)),
        decreases n - i,
    {
        let b = bytes[i];
        proof {
            assert(d[i - start] == bytes@[i as int]);
        }
        let v: u64 = if b >= 48 && b <= 57 {
            (b - 48) as u64
        } else if b >= 65 && b <= 70 {
            (b - 55) as u64
        } else if b >= 97 && b <= 102 {
            (b - 87) as u64
        } else {
            proof {
                assert(!is_hex_digit(d[i - start]));
                assert(spec_parse_hex_u64(bytes@) is None);
            }
            return None;
        };
        proof {
            assert(d[i - start] == bytes@[i as int]);
            assert(is_hex_digit(d[i - start]));
            assert(v == hex_digit_value(d[i - start]));
        }
        let next = match acc.checked_mul(16) {
            Some(m) => m.checked_add(v),
            None => None,
        };
        match next {
            Some(m) => {
                proof {
                    lemma_hex_value_step(d, i - start);
                }
                acc = m;
            },
            None => {
                // The value no longer fits; appending digits only grows
                // it, so the whole literal overflows and is rejected.
                proof {
                    lemma_hex_value_step(d, i - start);
                    lemma_hex_value_nonneg(d.subrange(0, i - start));
                    assert(spec_hex_value(d.subrange(0, i - start + 1)) > u64::MAX);
                    lemma_hex_value_overflow(d, i - start + 1);
                    assert(spec_hex_digits(bytes@) =~= d);
                }
                return None;
            },
        }
        i += 1;
        proof {
            assert(forall|k: int| 0 <= k < i - start ==> is_hex_digit(#[trigger] d[k]));
        }
    }
    proof {
        assert(d.subrange(0, d.len() as int) =~= d);
        assert(spec_hex_value(d) == acc);
        lemma_hex_value_nonneg(d);
        assert(spec_hex_digits(bytes@) =~= d);
    }
    Some(acc)
}

/// `#`-trimmed hex colour parsing shared by every colour getter; `default`
/// stands in when the string is not a valid hex number.
fn color_value(s: &String, default: u64) -> (c: u64)
    ensures
        c == spec_color_value(utf8_bytes(s@), default),
{
    let bytes: Vec<u8> = s.as_str().as_bytes_vec();
    let n = bytes.len();
    let mut i: usize = 0;
    while i < n && bytes[i] == 35
        invariant
            i <= n,
            n == bytes@.len(),
            forall|k: int| 0 <= k < i ==> bytes@[k] == 35,
        decreases n - i,
    {
        i += 1;
    }
    proof {
        lemma_trim_hashes_subrange(bytes@, i as int);
    }
    let mut trimmed: Vec<u8> = Vec::new();
    let mut j = i;
    while j < n
        invariant
            i <= j <= n,
            n == bytes@.len(),
            trimmed@ == bytes@.subrange(i as int, j as int),
        decreases n - j,
    {
        trimmed.push(bytes[j]);
        proof {
            assert(bytes@.subrange(i as int, j as int).push(bytes@[j as int]) =~= bytes@.subrange(
                i as int,
                j + 1,
            ));
        }
        j += 1;
    }
    proof {
        assert(trimmed@ =~= spec_trim_hashes(bytes@));
    }
    match parse_hex_u64(&trimmed) {
        Some(v) => v,
        None => default,
    }
}

/// Placement defaults for windows that are toggled to floating.
#[derive(Clone, Debug)]
pub struct FloatingWindow {
    pub center_on_float: bool,
    pub width: u32,
    pub height: u32,
}

impl Default for FloatingWindow {
    /// Centring off, 800 by 600 pixels.
    fn default() -> (d: FloatingWindow)
        ensures
            d.center_on_float == false,
            d.width == 800,
            d.height == 600,
    {
        FloatingWindow { center_on_float: false, width: 800, height: 600 }
    }
}

/// Window decoration and spacing settings.
#[derive(Clone, Debug)]
pub struct Appearance {
    pub border_width: u32,
    pub border_color: String,
    pub focused_border_color: String,
    pub gaps: u32,
    pub floating: FloatingWindow,
    pub focus_follows_mouse: bool,
}

impl Default for Appearance {
    /// The documented defaults: 2px dark-red border, red focused border,
    /// 8px gaps, focus following the mouse.
    fn default() -> (d: Appearance)
        ensures
            d.border_width == 2,
            d.border_color@ == "#2B0000"@,
            d.focused_border_color@ == "#FF0000"@,
            d.gaps == 8,
            d.floating.center_on_float == false,
            d.floating.width == 800,
            d.floating.height == 600,
            d.focus_follows_mouse == true,
    {
        Appearance {
            border_width: 2,
            border_color: "#2B0000".to_owned(),
            focused_border_color: "#FF0000".to_owned(),
            gaps: 8,
            floating: FloatingWindow::default(),
            focus_follows_mouse: true,
        }
    }
}

impl Appearance {
    /// The normal border colour as a pixel value; an unparsable string
    /// falls back to the built-in grey-green.
    pub fn get_border_color(&self) -> (c: u64)
        ensures
            c == spec_color_value(utf8_bytes(self.border_color@), 0x7A8478),
    {
        color_value(&self.border_color, 0x7A8478)
    }

    /// The focused border colour as a pixel value; an unparsable string
    /// falls back to the built-in light green.
    pub fn get_focused_border_color(&self) -> (c: u64)
        ensures
            c == spec_color_value(utf8_bytes(self.focused_border_color@), 0xA7C080),
    {
        color_value(&self.focused_border_color, 0xA7C080)
    }
}

/// Status-bar palette (the bar itself is an opaque surface outside the
/// core; only its configuration and colour parsing live here).
#[derive(Clone, Debug)]
pub struct Bar {
    pub enabled: bool,
    pub background_color: String,
    pub text_color: String,
    pub highlight_color: String,
    pub show_underline: bool,
    pub underline_color: String,
}

impl Default for Bar {
    /// Disabled, with the built-in dark palette.
    fn default() -> (d: Bar)
        ensures
            d.enabled == false,
            d.background_color@ == "#0F0F0F"@,
            d.text_color@ == "#ABB2BF"@,
            d.highlight_color@ == "#3E4451"@,
            d.show_underline == false,
            d.underline_color@ == "#3E4451"@,
    {
        Bar {
            enabled: false,
            background_color: "#0F0F0F".to_owned(),
            text_color: "#ABB2BF".to_owned(),
            highlight_color: "#3E4451".to_owned(),
            show_underline: false,
            underline_color: "#3E4451".to_owned(),
        }
    }
}

impl Bar {
    pub fn get_background_color(&self) -> (c: u64)
        ensures
            c == spec_color_value(utf8_bytes(self.background_color@), 0x282C34),
    {
        color_value(&self.background_color, 0x282C34)
    }

    pub fn get_text_color(&self) -> (c: u64)
        ensures
            c == spec_color_value(utf8_bytes(self.text_color@), 0xABB2BF),
    {
        color_value(&self.text_color, 0xABB2BF)
    }

    pub fn get_highlight_color(&self) -> (c: u64)
        ensures
            c == spec_color_value(utf8_bytes(self.highlight_color@), 0x3E4451),
    {
        color_value(&self.highlight_color, 0x3E4451)
    }

    pub fn get_underline_color(&self) -> (c: u64)
        ensures
            c == spec_color_value(utf8_bytes(self.underline_color@), 0x3E4451),
    {
        color_value(&self.underline_color, 0x3E4451)
    }
}

} // verus!
