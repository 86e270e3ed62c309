//! Hex color notation: `#RGB` up to `#RRRRRRRRGGGGGGGGBBBBBBBB`, with `_` as a
//! visual separator.

use vstd::prelude::*;

use crate::text::chars_of;

verus! {

/// Why a string is not a hex color.
#[derive(Debug, Clone, PartialEq)]
pub enum ParseHexError {
    /// `c` is neither a hex digit nor `_`.
    NotHexadecimal { string: String, c: char },
    /// No digits are left after removing `#` and `_`.
    NoDigits,
    /// More than eight digits per channel.
    TooManyDigits { string: String, got: u32, max: u32 },
    /// The digits cannot be split into three equal groups.
    DigitsNotDivisibleBy3 { string: String, got: u32 },
}

/// The three digit groups of a hex color, each read as an integer, and the
/// number of digits in each group.
#[derive(Debug, Copy, Clone, PartialEq, Eq, Structural)]
pub struct HexColor {
    pub r: u32,
    pub g: u32,
    pub b: u32,
    pub width: u32,
}

/// The most digits that a hex color may have.
pub const MAX_DIGITS: u32 = 24;

pub open spec fn is_hex_digit(c: char) -> bool {
    ('0' <= c && c <= '9') || ('a' <= c && c <= 'f') || ('A' <= c && c <= 'F')
}

/// The value of one hex digit.
pub open spec fn digit_value(c: char) -> nat {
    if '0' <= c && c <= '9' {
        (c as nat - '0' as nat) as nat
    } else if 'a' <= c && c <= 'f' {
        (c as nat - 'a' as nat + 10) as nat
    } else {
        (c as nat - 'A' as nat + 10) as nat
    }
}

/// The value of a string of hex digits, most significant first.
pub open spec fn hex_value(s: Seq<char>) -> nat
    decreases s.len(),
{
    if s.len() == 0 {
        0
    } else {
        hex_value(s.drop_last()) * 16 + digit_value(s.last())
    }
}

pub open spec fn pow16(n: nat) -> nat
    decreases n,
{
    if n == 0 {
        1
    } else {
        16 * pow16((n - 1) as nat)
    }
}

/// The string without its leading `#` signs.
pub open spec fn strip_hashes(s: Seq<char>) -> Seq<char>
    decreases s.len(),
{
    if s.len() > 0 && s[0] == '#' {
        strip_hashes(s.drop_first())
    } else {
        s
    }
}

/// The string without its `_` separators.
pub open spec fn drop_underscores(s: Seq<char>) -> Seq<char>
    decreases s.len(),
{
    if s.len() == 0 {
        s
    } else if s.last() == '_' {
        drop_underscores(s.drop_last())
    } else {
        drop_underscores(s.drop_last()).push(s.last())
    }
}

/// Whether every character is a hex digit or `_`.
pub open spec fn well_formed(e: Seq<char>) -> bool {
    forall|i: int| 0 <= i < e.len() ==> e[i] == '_' || is_hex_digit(#[trigger] e[i])
}

/// The digits of a hex color string.
pub open spec fn digits_of(s: Seq<char>) -> Seq<char> {
    drop_underscores(strip_hashes(s))
}

/// Whether `c` is the first character of `s`, after the leading `#` signs,
/// that is neither a hex digit nor `_`.
pub open spec fn first_bad_char(s: Seq<char>, c: char) -> bool {
    let e = strip_hashes(s);
    exists|i: int| 0 <= i < e.len() && e[i] == c && c != '_' && !is_hex_digit(c)
        && well_formed(#[trigger] e.subrange(0, i))
}

/// The color that the digits `d` stand for, split into three equal groups.
pub open spec fn groups_of(d: Seq<char>) -> HexColor {
    let k = d.len() / 3;
    HexColor {
        r: hex_value(d.subrange(0, k as int)) as u32,
        g: hex_value(d.subrange(k as int, 2 * k as int)) as u32,
        b: hex_value(d.subrange(2 * k as int, 3 * k as int)) as u32,
        width: k as u32,
    }
}

/// Whether `r` is the result of parsing `s` as a hex color: the checks come
/// in this order, and each error carries the whole input.
pub open spec fn is_parse_result(s: Seq<char>, r: Result<HexColor, ParseHexError>) -> bool {
    let d = digits_of(s);
    if !well_formed(strip_hashes(s)) {
        r matches Err(ParseHexError::NotHexadecimal { string, c }) && string@ == s && first_bad_char(s, c)
    } else if d.len() == 0 {
        r == Err::<HexColor, ParseHexError>(ParseHexError::NoDigits)
    } else if d.len() % 3 != 0 {
        r matches Err(ParseHexError::DigitsNotDivisibleBy3 { string, got })
            && string@ == s && got == d.len() as u32
    } else if d.len() > MAX_DIGITS {
        r matches Err(ParseHexError::TooManyDigits { string, got, max })
            && string@ == s && got == d.len() as u32 && max == MAX_DIGITS
    } else {
        r == Ok::<HexColor, ParseHexError>(groups_of(d))
    }
}

/// The color that `s` stands for, where it is a valid hex color.
pub open spec fn spec_decode(s: Seq<char>) -> Option<HexColor> {
    let d = digits_of(s);
    if well_formed(strip_hashes(s)) && d.len() != 0 && d.len() % 3 == 0 && d.len() <= MAX_DIGITS {
        Some(groups_of(d))
    } else {
        None
    }
}

proof fn lemma_hex_value_bound(s: Seq<char>)
    requires
        forall|i: int| 0 <= i < s.len() ==> is_hex_digit(#[trigger] s[i]),
    ensures
        hex_value(s) < pow16(s.len()),
    decreases s.len(),
{
    if s.len() > 0 {
        let t = s.drop_last();
        assert forall|i: int| 0 <= i < t.len() implies is_hex_digit(#[trigger] t[i]) by {
            assert(t[i] == s[i]);
        }
        lemma_hex_value_bound(t);
        assert(is_hex_digit(s[s.len() - 1]));
        let v = hex_value(t);
        let p = pow16(t.len());
        let d = digit_value(s.last());
        assert(d < 16);
        assert(v * 16 + d < 16 * p) by (nonlinear_arith)
            requires v < p, d < 16;
    }
}

proof fn lemma_pow16_mono(a: nat, b: nat)
    requires
        a <= b,
    ensures
        pow16(a) <= pow16(b),
    decreases b,
{
    if a < b {
        lemma_pow16_mono(a, (b - 1) as nat);
    }
}

/// Reads the hex digits `d[from..to]` as an integer.
fn read_group(d: &Vec<char>, from: usize, to: usize) -> (v: u32)
    requires
        from <= to <= d@.len(),
        to - from <= 8,
        forall|i: int| 0 <= i < d@.len() ==> is_hex_digit(#[trigger] d@[i]),
    ensures
        v == hex_value(d@.subrange(from as int, to as int)),
        v < pow16((to - from) as nat),
{
    let mut v: u32 = 0;
    let mut i: usize = from;
    while i < to
        invariant
            from <= i <= to <= d@.len(),
            to - from <= 8,
            forall|j: int| 0 <= j < d@.len() ==> is_hex_digit(#[trigger] d@[j]),
            v == hex_value(d@.subrange(from as int, i as int)),
        decreases to - i,
    {
        let c = d[i];
        assert(is_hex_digit(d@[i as int]));
        let digit: u32 = if '0' <= c && c <= '9' {
            (c as u32) - ('0' as u32)
        } else if 'a' <= c && c <= 'f' {
            (c as u32) - ('a' as u32) + 10
        } else {
            (c as u32) - ('A' as u32) + 10
        };
        let ghost next = d@.subrange(from as int, i + 1);
        proof {
            assert(next.drop_last() =~= d@.subrange(from as int, i as int));
            assert forall|j: int| 0 <= j < next.len() implies is_hex_digit(#[trigger] next[j]) by {
                assert(next[j] == d@[from + j]);
            }
            lemma_hex_value_bound(next);
            lemma_pow16_mono(next.len(), 8);
            reveal_with_fuel(pow16, 9);
            assert(pow16(8) == 4294967296);
        }
        v = v * 16 + digit;
        i = i + 1;
    }
    proof {
        let t = d@.subrange(from as int, to as int);
        assert forall|j: int| 0 <= j < t.len() implies is_hex_digit(#[trigger] t[j]) by {
            assert(t[j] == d@[from + j]);
        }
        lemma_hex_value_bound(t);
    }
    v
}

/// Parses a hex color (e.g. `#FF7700`).
///
/// Each channel has 1 to 8 digits (e.g. `#F70`, `#FFFFFFFF_77777777_00000000`).
/// Leading `#` signs and all underscores are removed first.
pub fn parse(input: &str) -> (r: Result<HexColor, ParseHexError>)
    ensures
        is_parse_result(input@, r),
        r is Ok <==> spec_decode(input@) is Some,
        r matches Ok(h) ==> spec_decode(input@) == Some(h) && h.wf(),
{
    let v = chars_of(input);
    let n = v.len();
    let mut start: usize = 0;
    assert(v@.subrange(0, n as int) =~= v@);
    while start < n && v[start] == '#'
        invariant
            start <= n == v@.len(),
            strip_hashes(v@) == strip_hashes(v@.subrange(start as int, n as int)),
        decreases n - start,
    {
        assert(v@.subrange(start as int, n as int).drop_first() =~= v@.subrange(start + 1, n as int));
        start = start + 1;
    }
    let ghost e = v@.subrange(start as int, n as int);
    assert(strip_hashes(v@) == e);

    let mut digits: Vec<char> = Vec::new();
    let mut i: usize = start;
    while i < n
        invariant
            start <= i <= n == v@.len(),
            e == v@.subrange(start as int, n as int),
            e == strip_hashes(input@),
            v@ == input@,
            well_formed(v@.subrange(start as int, i as int)),
            digits@ == drop_underscores(v@.subrange(start as int, i as int)),
            forall|j: int| 0 <= j < digits@.len() ==> is_hex_digit(#[trigger] digits@[j]),
        decreases n - i,
    {
        let c = v[i];
        let ghost prefix = v@.subrange(start as int, i as int);
        let ghost next = v@.subrange(start as int, i + 1);
        assert(next.drop_last() =~= prefix);
        if c != '_' {
            let hexdigit = ('0' <= c && c <= '9') || ('a' <= c && c <= 'f') || ('A' <= c && c <= 'F');
            if !hexdigit {
                proof {
                    let k = i - start;
                    assert(e[k] == c);
                    assert(e.subrange(0, k) =~= prefix);
                }
                return Err(ParseHexError::NotHexadecimal { string: String::from_str(input), c });
            }
            digits.push(c);
        }
        assert forall|j: int| 0 <= j < next.len() implies next[j] == '_' || is_hex_digit(#[trigger] next[j]) by {
            if j < prefix.len() {
                assert(next[j] == prefix[j]);
            }
        }
        i = i + 1;
    }
    assert(v@.subrange(start as int, n as int) =~= e);
    assert(well_formed(e));
    let len = digits.len();
    if len == 0 {
        return Err(ParseHexError::NoDigits);
    }
    if len % 3 != 0 {
        return Err(ParseHexError::DigitsNotDivisibleBy3 { string: String::from_str(input), got: #[verifier::truncate] (len as u32) });
    }
    if len > 24 {
        return Err(ParseHexError::TooManyDigits { string: String::from_str(input), got: #[verifier::truncate] (len as u32), max: MAX_DIGITS });
    }
    let k = len / 3;
    let r = read_group(&digits, 0, k);
    let g = read_group(&digits, k, 2 * k);
    let b = read_group(&digits, 2 * k, 3 * k);
    Ok(HexColor { r, g, b, width: k as u32 })
}

/// The byte nearest to `v * 255 / max`.
pub open spec fn scaled(v: nat, max: nat) -> nat {
    (2 * v * 255 + max) / (2 * max)
}

/// Scales `v` in `0..=max` down to the nearest byte.
fn scale_channel(v: u32, max: u32) -> (r: u8)
    requires
        0 < max,
        v <= max,
    ensures
        r == scaled(v as nat, max as nat),
{
    let num: u64 = 2 * (v as u64) * 255 + (max as u64);
    let den: u64 = 2 * (max as u64);
    proof {
        let (vv, mm) = (v as int, max as int);
        assert(2 * vv * 255 + mm < 256 * (2 * mm)) by (nonlinear_arith)
            requires 0 < mm, 0 <= vv <= mm;
        assert(num / den < 256) by (nonlinear_arith)
            requires num < 256 * den, den > 0;
    }
    (num / den) as u8
}

impl HexColor {
    /// Each group holds `width` digits, between 1 and 8.
    pub open spec fn wf(self) -> bool {
        1 <= self.width <= 8
            && self.r < pow16(self.width as nat)
            && self.g < pow16(self.width as nat)
            && self.b < pow16(self.width as nat)
    }

    /// The three channels scaled down to bytes, each rounded to the nearest
    /// integer: `F70` and `FF7700` both give `(255, 119, 0)`.
    pub fn to_rgb8(&self) -> (r: (u8, u8, u8))
        requires
            self.wf(),
        ensures
            r.0 == scaled(self.r as nat, self.spec_max()),
            r.1 == scaled(self.g as nat, self.spec_max()),
            r.2 == scaled(self.b as nat, self.spec_max()),
    {
        let max = self.max();
        proof { lemma_pow16_mono(0, self.width as nat); }
        (scale_channel(self.r, max), scale_channel(self.g, max), scale_channel(self.b, max))
    }

    /// The largest value that a group of `width` digits can hold.
    pub open spec fn spec_max(self) -> nat {
        (pow16(self.width as nat) - 1) as nat
    }

    /// The largest value that a group of `width` digits can hold; a channel
    /// scales down to 0..=255 by `255 / max`.
    pub fn max(&self) -> (m: u32)
        requires
            1 <= self.width <= 8,
        ensures
            m == self.spec_max(),
    {
        let mut m: u64 = 1;
        let mut i: u32 = 0;
        while i < self.width
            invariant
                i <= self.width <= 8,
                m == pow16(i as nat),
            decreases self.width - i,
        {
            proof {
                lemma_pow16_mono((i + 1) as nat, 8);
                reveal_with_fuel(pow16, 9);
            }
            m = m * 16;
            i = i + 1;
        }
        proof {
            lemma_pow16_mono(0, i as nat);
            lemma_pow16_mono(i as nat, 8);
            reveal_with_fuel(pow16, 9);
        }
        (m - 1) as u32
    }
}

/// The uppercase hex digit for a value below 16.
pub open spec fn hex_char(d: nat) -> char {
    if d < 10 {
        ('0' as nat + d) as char
    } else {
        ('A' as nat + d - 10) as char
    }
}

/// The canonical `#RRGGBB` form of a color.
pub open spec fn hex_string(r: u8, g: u8, b: u8) -> Seq<char> {
    seq![
        '#',
        hex_char(r as nat / 16), hex_char(r as nat % 16),
        hex_char(g as nat / 16), hex_char(g as nat % 16),
        hex_char(b as nat / 16), hex_char(b as nat % 16),
    ]
}

/// Packs three channels into one integer, red in the highest byte.
pub fn rgb_to_u32(r: u8, g: u8, b: u8) -> (v: u32)
    ensures
        v == r as nat * 65536 + g as nat * 256 + b as nat,
{
    (r as u32) * 65536 + (g as u32) * 256 + (b as u32)
}

/// The one-character string of a hex digit.
fn digit_str(d: u8) -> (s: &'static str)
    requires
        d < 16,
    ensures
        s@ == seq![hex_char(d as nat)],
{
    proof {
        reveal_strlit("0"); reveal_strlit("1"); reveal_strlit("2"); reveal_strlit("3");
        reveal_strlit("4"); reveal_strlit("5"); reveal_strlit("6"); reveal_strlit("7");
        reveal_strlit("8"); reveal_strlit("9"); reveal_strlit("A"); reveal_strlit("B");
        reveal_strlit("C"); reveal_strlit("D"); reveal_strlit("E"); reveal_strlit("F");
    }
    let s = match d {
        0 => "0", 1 => "1", 2 => "2", 3 => "3", 4 => "4", 5 => "5", 6 => "6", 7 => "7",
        8 => "8", 9 => "9", 10 => "A", 11 => "B", 12 => "C", 13 => "D", 14 => "E", _ => "F",
    };
    assert(s@ =~= seq![hex_char(d as nat)]);
    s
}

/// Formats a color as `#RRGGBB`, with uppercase digits.
pub fn format_hex(r: u8, g: u8, b: u8) -> (s: String)
    ensures
        s@ == hex_string(r, g, b),
{
    proof { reveal_strlit("#"); }
    let mut s = String::from_str("#");
    s.append(digit_str(r / 16));
    s.append(digit_str(r % 16));
    s.append(digit_str(g / 16));
    s.append(digit_str(g % 16));
    s.append(digit_str(b / 16));
    s.append(digit_str(b % 16));
    assert(s@ =~= hex_string(r, g, b));
    s
}

proof fn lemma_hex_char(d: nat)
    requires
        d < 16,
    ensures
        is_hex_digit(hex_char(d)),
        digit_value(hex_char(d)) == d,
        hex_char(d) != '#',
        hex_char(d) != '_',
{
}

proof fn lemma_no_underscores(s: Seq<char>)
    requires
        forall|i: int| 0 <= i < s.len() ==> #[trigger] s[i] != '_',
    ensures
        drop_underscores(s) == s,
    decreases s.len(),
{
    if s.len() > 0 {
        let t = s.drop_last();
        assert forall|i: int| 0 <= i < t.len() implies #[trigger] t[i] != '_' by {
            assert(t[i] == s[i]);
        }
        lemma_no_underscores(t);
        assert(s.last() == s[s.len() - 1]);
        assert(t.push(s.last()) =~= s);
    }
}

proof fn lemma_two_digits(x: u8, s: Seq<char>)
    requires
        s == seq![hex_char(x as nat / 16), hex_char(x as nat % 16)],
    ensures
        hex_value(s) == x,
{
    lemma_hex_char(x as nat / 16);
    lemma_hex_char(x as nat % 16);
    reveal_with_fuel(hex_value, 3);
    assert(s.drop_last().drop_last() =~= Seq::<char>::empty());
    assert(s.drop_last() =~= seq![hex_char(x as nat / 16)]);
}

proof fn lemma_scaled_byte(v: nat)
    ensures
        scaled(v, 255) == v,
{
    assert((2 * v * 255 + 255) == 510 * v + 255) by (nonlinear_arith);
    assert((510 * v + 255) / 510 == v) by (nonlinear_arith);
}

/// Formatting a color as `#RRGGBB` and parsing that text again gives back
/// the three channels exactly, each as a group of two digits, which scale
/// back to the same bytes.
pub proof fn lemma_hex_round_trip(r: u8, g: u8, b: u8)
    ensures
        is_parse_result(
            hex_string(r, g, b),
            Ok((HexColor { r: r as u32, g: g as u32, b: b as u32, width: 2 })),
        ),
        pow16(2) - 1 == 255,
        scaled(r as nat, 255) == r,
        scaled(g as nat, 255) == g,
        scaled(b as nat, 255) == b,
{
    reveal_with_fuel(pow16, 3);
    lemma_scaled_byte(r as nat);
    lemma_scaled_byte(g as nat);
    lemma_scaled_byte(b as nat);
    let s = hex_string(r, g, b);
    let t = s.drop_first();
    lemma_hex_char(r as nat / 16);
    lemma_hex_char(r as nat % 16);
    lemma_hex_char(g as nat / 16);
    lemma_hex_char(g as nat % 16);
    lemma_hex_char(b as nat / 16);
    lemma_hex_char(b as nat % 16);
    assert(t =~= seq![
        hex_char(r as nat / 16), hex_char(r as nat % 16),
        hex_char(g as nat / 16), hex_char(g as nat % 16),
        hex_char(b as nat / 16), hex_char(b as nat % 16),
    ]);
    reveal_with_fuel(strip_hashes, 2);
    assert(strip_hashes(s) == t);
    assert(forall|i: int| 0 <= i < t.len() ==> is_hex_digit(#[trigger] t[i]) && t[i] != '_');
    lemma_no_underscores(t);
    assert(digits_of(s) == t);
    assert(t.subrange(0, 2) =~= seq![hex_char(r as nat / 16), hex_char(r as nat % 16)]);
    assert(t.subrange(2, 4) =~= seq![hex_char(g as nat / 16), hex_char(g as nat % 16)]);
    assert(t.subrange(4, 6) =~= seq![hex_char(b as nat / 16), hex_char(b as nat % 16)]);
    lemma_two_digits(r, t.subrange(0, 2));
    lemma_two_digits(g, t.subrange(2, 4));
    lemma_two_digits(b, t.subrange(4, 6));
}

} // verus!
