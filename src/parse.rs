//! The grammar of free-form color input.
//!
//! The input holds any number of colors, separated by whitespace or commas.
//! A color is a color space keyword followed by its components, optionally
//! in parentheses (`rgb(255, 0, 0)`, `hsl 30 50% 50%`), or a single word: an
//! HTML color name, a hex color, `rand` or `pick`. A `-` alone asks for one
//! more color from a second input line. A keyword that is also an HTML color
//! name (`gray`) introduces its space only where a paren, a digit, a `.` or
//! `rand` follows it; elsewhere it is the HTML color.
//!
//! Parsing yields the syntax of each color with its text as character
//! positions in the input; turning numbers into values and components into
//! colors is left to the caller, in the order the colors come.

use vstd::prelude::*;

use crate::hex::{self, HexColor};
use crate::html;
use crate::space::ColorSpace;
use crate::text::chars_of;

verus! {

/// How a random component is drawn.
#[derive(Debug, Copy, Clone, PartialEq, Eq, Structural)]
pub enum RandPolicy {
    /// Any byte, `0..=255`.
    Byte,
    /// A fraction in `0..1`.
    Unit,
    /// An integer in `0..n`.
    Below(u32),
    /// An integer in `0..=n`.
    Through(u32),
}

/// One component of a color written with a color space keyword.
#[derive(Debug, Copy, Clone, PartialEq, Eq, Structural)]
pub enum Component {
    /// A number written at `start..end` of the input; with a `%` sign after
    /// it where `percent` holds.
    Number { start: usize, end: usize, percent: bool },
    /// The word `rand`.
    Rand(RandPolicy),
}

/// The syntax of one color.
#[derive(Debug, Copy, Clone, PartialEq, Eq, Structural)]
pub enum Expr {
    /// A color space keyword; its components are the next `arity` entries of
    /// the parsed component list.
    Components { space: ColorSpace },
    /// `-`: one more color is to be read from a second input line.
    Stdin,
    /// `pick`: the color is to be picked interactively.
    Pick,
    /// `rand`: a random RGB color.
    Random,
    /// An HTML color name, with its value `0xRRGGBB`.
    Html(u32),
    /// A hex color.
    Hex(HexColor),
}

/// Why the input is not well formed.
#[derive(Debug, Copy, Clone, PartialEq, Eq, Structural)]
pub enum SyntaxError {
    /// A number was expected at position `at`.
    MissingFloat { at: usize },
    /// The paren `open` is not closed by `expected` at position `at`.
    UnclosedParen { open: char, expected: char, at: usize },
    /// A word was expected at position `at`.
    ExpectedWord { at: usize },
    /// The word at `start..end` is neither an HTML color nor a hex color.
    /// Where `suggest` holds, it is made of more than three ASCII letters and
    /// may be a misspelled color name.
    UnknownWord { start: usize, end: usize, suggest: bool },
    /// `rand` stands where the color space has no random policy.
    UnsupportedRand { space: ColorSpace },
}

/// The result of parsing: the colors read, in order, with the components of
/// those written with a keyword, in order; and where the input is not well
/// formed, the error and the components of the unfinished color read before
/// it. A color whose closing paren is wrong is among the colors read, so
/// that what is wrong with it comes before the paren error.
pub struct Parsed {
    pub exprs: Vec<Expr>,
    pub components: Vec<Component>,
    pub pending: Vec<Component>,
    pub error: Option<SyntaxError>,
}

/// Whitespace as `char::is_whitespace` defines it (the Unicode White_Space
/// property).
pub open spec fn is_ws(c: char) -> bool {
    ('\u{9}' <= c && c <= '\u{d}') || c == ' ' || c == '\u{85}' || c == '\u{a0}'
        || c == '\u{1680}' || ('\u{2000}' <= c && c <= '\u{200a}') || c == '\u{2028}'
        || c == '\u{2029}' || c == '\u{202f}' || c == '\u{205f}' || c == '\u{3000}'
}

pub open spec fn is_word_char(c: char) -> bool {
    ('a' <= c && c <= 'z') || ('A' <= c && c <= 'Z') || ('0' <= c && c <= '9') || c == '_' || c == '#'
}

pub open spec fn is_number_char(c: char) -> bool {
    ('0' <= c && c <= '9') || c == '.' || c == '_' || c == '-'
}

pub open spec fn is_alpha(c: char) -> bool {
    ('a' <= c && c <= 'z') || ('A' <= c && c <= 'Z')
}

/// The first position from `p` on that holds no whitespace.
pub open spec fn skip_ws(v: Seq<char>, p: int) -> int
    decreases v.len() - p,
{
    if 0 <= p < v.len() && is_ws(v[p]) {
        skip_ws(v, p + 1)
    } else {
        p
    }
}

/// The end of the word that starts at `p`.
pub open spec fn word_end(v: Seq<char>, p: int) -> int
    decreases v.len() - p,
{
    if 0 <= p < v.len() && is_word_char(v[p]) {
        word_end(v, p + 1)
    } else {
        p
    }
}

/// The end of the number that starts at `p`.
pub open spec fn number_end(v: Seq<char>, p: int) -> int
    decreases v.len() - p,
{
    if 0 <= p < v.len() && is_number_char(v[p]) {
        number_end(v, p + 1)
    } else {
        p
    }
}

/// Past the character `c` at `p`, if it stands there.
pub open spec fn skip_char(v: Seq<char>, p: int, c: char) -> int {
    if 0 <= p < v.len() && v[p] == c {
        p + 1
    } else {
        p
    }
}

/// The paren that closes `c`.
pub open spec fn spec_closing_for(c: char) -> char {
    if c == '<' {
        '>'
    } else if c == '(' {
        ')'
    } else if c == '[' {
        ']'
    } else if c == '{' {
        '}'
    } else {
        c
    }
}

/// How `rand` in component `i` of `space` is drawn, if it may stand there.
pub open spec fn spec_rand_policy(space: ColorSpace, i: int) -> Option<RandPolicy> {
    match space {
        ColorSpace::Rgb => Some(RandPolicy::Byte),
        ColorSpace::Cmy | ColorSpace::Cmyk | ColorSpace::Gray => Some(RandPolicy::Unit),
        ColorSpace::Hsv | ColorSpace::Hsl => if i == 0 { Some(RandPolicy::Below(360)) } else { Some(RandPolicy::Unit) },
        ColorSpace::Lch => if i <= 1 { Some(RandPolicy::Through(100)) } else { Some(RandPolicy::Below(360)) },
        ColorSpace::Luv => if i <= 1 { Some(RandPolicy::Through(100)) } else { Some(RandPolicy::Through(122)) },
        ColorSpace::Lab | ColorSpace::HunterLab | ColorSpace::Yxy => if i == 0 { Some(RandPolicy::Through(100)) } else { None },
        ColorSpace::Xyz => if i == 1 { Some(RandPolicy::Through(100)) } else { None },
    }
}

pub fn is_whitespace(c: char) -> (r: bool)
    ensures
        r == is_ws(c),
{
    ('\u{9}' <= c && c <= '\u{d}') || c == ' ' || c == '\u{85}' || c == '\u{a0}'
        || c == '\u{1680}' || ('\u{2000}' <= c && c <= '\u{200a}') || c == '\u{2028}'
        || c == '\u{2029}' || c == '\u{202f}' || c == '\u{205f}' || c == '\u{3000}'
}

fn skip_whitespace(v: &Vec<char>, p: usize) -> (q: usize)
    requires
        p <= v@.len(),
    ensures
        q == skip_ws(v@, p as int),
        p <= q <= v@.len(),
{
    let mut q = p;
    while q < v.len() && is_whitespace(v[q])
        invariant
            p <= q <= v@.len(),
            skip_ws(v@, p as int) == skip_ws(v@, q as int),
        decreases v@.len() - q,
    {
        q = q + 1;
    }
    q
}

/// Returns the end of the word starting at `p`.
fn take_word(v: &Vec<char>, p: usize) -> (q: usize)
    requires
        p <= v@.len(),
    ensures
        q == word_end(v@, p as int),
        p <= q <= v@.len(),
{
    let mut q = p;
    while q < v.len() && (('a' <= v[q] && v[q] <= 'z') || ('A' <= v[q] && v[q] <= 'Z')
        || ('0' <= v[q] && v[q] <= '9') || v[q] == '_' || v[q] == '#')
        invariant
            p <= q <= v@.len(),
            word_end(v@, p as int) == word_end(v@, q as int),
        decreases v@.len() - q,
    {
        q = q + 1;
    }
    q
}

/// Returns the end of the number starting at `p`.
fn take_number(v: &Vec<char>, p: usize) -> (q: usize)
    requires
        p <= v@.len(),
    ensures
        q == number_end(v@, p as int),
        p <= q <= v@.len(),
{
    let mut q = p;
    while q < v.len() && (('0' <= v[q] && v[q] <= '9') || v[q] == '.' || v[q] == '_' || v[q] == '-')
        invariant
            p <= q <= v@.len(),
            number_end(v@, p as int) == number_end(v@, q as int),
        decreases v@.len() - q,
    {
        q = q + 1;
    }
    q
}

/// Skips the character `c` at `p`, if it stands there.
fn skip(v: &Vec<char>, p: usize, c: char) -> (q: usize)
    requires
        p <= v@.len(),
    ensures
        q == skip_char(v@, p as int, c),
        q <= v@.len(),
{
    if p < v.len() && v[p] == c {
        p + 1
    } else {
        p
    }
}

/// The paren that closes `c`; other characters close themselves.
pub fn closing_for(c: char) -> (r: char)
    ensures
        r == spec_closing_for(c),
{
    match c {
        '<' => '>',
        '(' => ')',
        '[' => ']',
        '{' => '}',
        c => c,
    }
}

/// How `rand` in component `i` of `space` is drawn, if it may stand there.
pub fn rand_policy(space: ColorSpace, i: usize) -> (r: Option<RandPolicy>)
    ensures
        r == spec_rand_policy(space, i as int),
{
    match space {
        ColorSpace::Rgb => Some(RandPolicy::Byte),
        ColorSpace::Cmy | ColorSpace::Cmyk | ColorSpace::Gray => Some(RandPolicy::Unit),
        ColorSpace::Hsv | ColorSpace::Hsl => if i == 0 { Some(RandPolicy::Below(360)) } else { Some(RandPolicy::Unit) },
        ColorSpace::Lch => if i <= 1 { Some(RandPolicy::Through(100)) } else { Some(RandPolicy::Below(360)) },
        ColorSpace::Luv => if i <= 1 { Some(RandPolicy::Through(100)) } else { Some(RandPolicy::Through(122)) },
        ColorSpace::Lab | ColorSpace::HunterLab | ColorSpace::Yxy => if i == 0 { Some(RandPolicy::Through(100)) } else { None },
        ColorSpace::Xyz => if i == 1 { Some(RandPolicy::Through(100)) } else { None },
    }
}

pub open spec fn rand_word() -> Seq<char> {
    seq!['r', 'a', 'n', 'd']
}

pub open spec fn pick_word() -> Seq<char> {
    seq!['p', 'i', 'c', 'k']
}

/// What the component `i` of `space` that stands after position `q` is, and
/// where the text after it starts. A number may be followed by `%`; a comma
/// may come before it.
pub open spec fn spec_component(v: Seq<char>, q: int, space: ColorSpace, i: int) -> Result<(Component, int), SyntaxError> {
    let a = skip_ws(v, skip_char(v, skip_ws(v, q), ','));
    let ne = number_end(v, a);
    if ne > a {
        let r = skip_ws(v, ne);
        if r < v.len() && v[r] == '%' {
            Ok((Component::Number { start: a as usize, end: ne as usize, percent: true }, skip_ws(v, r + 1)))
        } else {
            Ok((Component::Number { start: a as usize, end: ne as usize, percent: false }, r))
        }
    } else {
        let we = word_end(v, a);
        if we > a && v.subrange(a, we) == rand_word() {
            match spec_rand_policy(space, i) {
                Some(policy) => Ok((Component::Rand(policy), skip_ws(v, we))),
                None => Err(SyntaxError::UnsupportedRand { space }),
            }
        } else {
            Err(SyntaxError::MissingFloat { at: a as usize })
        }
    }
}

/// The components `i..` of `space` from position `q` on: those read, the
/// position after them, and the error that stopped them, if any.
pub open spec fn spec_parts(v: Seq<char>, q: int, space: ColorSpace, i: int) -> (Seq<Component>, int, Option<SyntaxError>)
    decreases space.arity() - i,
{
    if i >= space.arity() {
        (seq![], q, None)
    } else {
        match spec_component(v, q, space, i) {
            Ok((c, q2)) => {
                let rest = spec_parts(v, q2, space, i + 1);
                (seq![c] + rest.0, rest.1, rest.2)
            },
            Err(e) => (seq![], q, Some(e)),
        }
    }
}

/// The color that the word `v[s..e]` names.
pub open spec fn spec_word(v: Seq<char>, s: int, e: int) -> Result<Expr, SyntaxError> {
    let w = v.subrange(s, e);
    if w == pick_word() {
        Ok(Expr::Pick)
    } else if w == rand_word() {
        Ok(Expr::Random)
    } else if exists|i: usize| html::first_named(html::lower_of(w), i) {
        Ok(Expr::Html(html::table_value(choose|i: usize| html::first_named(html::lower_of(w), i))))
    } else if hex::spec_decode(w) is Some {
        Ok(Expr::Hex(hex::spec_decode(w)->0))
    } else {
        Err(SyntaxError::UnknownWord {
            start: s as usize,
            end: e as usize,
            suggest: e - s > 3 && forall|k: int| s <= k < e ==> is_alpha(#[trigger] v[k]),
        })
    }
}

/// Whether what stands at `q` begins the components of a color: a paren, a
/// digit, a `.` or the word `rand`.
pub open spec fn opens_components(v: Seq<char>, q: int) -> bool {
    0 <= q < v.len() && (v[q] == '(' || v[q] == '[' || v[q] == '{' || ('0' <= v[q] && v[q] <= '9')
        || v[q] == '.' || (word_end(v, q) > q && v.subrange(q, word_end(v, q)) == rand_word()))
}

/// The color space that the word `v[p..e]` introduces. A word that names a
/// color space and also an HTML color (`gray`) introduces the space only
/// where the components of a color follow it; otherwise it is the HTML color.
pub open spec fn spec_keyword(v: Seq<char>, p: int, e: int) -> Option<ColorSpace> {
    let w = v.subrange(p, e);
    let named = if e > p { ColorSpace::spec_from_name(w) } else { None };
    if named is Some && (exists|i: usize| html::first_named(html::lower_of(w), i))
        && !opens_components(v, skip_ws(v, e)) {
        None
    } else {
        named
    }
}

/// One color that starts at `p`: the expression, its components, and where
/// the next color may start. On an error: where the color itself was read
/// whole and only its closing paren is wrong, that color with its components;
/// otherwise the components read before the error; and the error.
pub open spec fn spec_step(v: Seq<char>, p: int) -> Result<(Expr, Seq<Component>, int), (Option<Expr>, Seq<Component>, SyntaxError)> {
    let we0 = word_end(v, p);
    let cs = spec_keyword(v, p, we0);
    let q1 = if cs is Some { we0 } else { p };
    let q2 = skip_ws(v, q1);
    let open = if q2 < v.len() && (v[q2] == '(' || v[q2] == '[' || v[q2] == '{') { Some(v[q2]) } else { None };
    let q3 = if open is Some { q2 + 1 } else { q2 };
    let q4 = skip_ws(v, q3);
    let body: Result<(Expr, Seq<Component>, int), (Seq<Component>, SyntaxError)> = match cs {
        Some(space) => {
            let (parts, q, err) = spec_parts(v, q4, space, 0);
            match err {
                None => Ok((Expr::Components { space }, parts, skip_ws(v, q))),
                Some(e) => Err((parts, e)),
            }
        },
        None => if q4 + 1 < v.len() && v[q4] == '-' && (v[q4 + 1] == ' ' || v[q4 + 1] == ',') {
            Ok((Expr::Stdin, seq![], skip_ws(v, q4 + 2)))
        } else {
            let we = word_end(v, q4);
            if we == q4 {
                Err((seq![], SyntaxError::ExpectedWord { at: q4 as usize }))
            } else {
                match spec_word(v, q4, we) {
                    Ok(x) => Ok((x, seq![], skip_ws(v, we))),
                    Err(e) => Err((seq![], e)),
                }
            }
        },
    };
    match body {
        Ok((x, parts, q)) => match open {
            Some(o) => if q < v.len() && v[q] == spec_closing_for(o) {
                Ok((x, parts, skip_char(v, q + 1, ',')))
            } else {
                Err((Some(x), parts, SyntaxError::UnclosedParen { open: o, expected: spec_closing_for(o), at: q as usize }))
            },
            None => Ok((x, parts, skip_char(v, q, ','))),
        },
        Err((pending, e)) => Err((None, pending, e)),
    }
}

/// Parsing from position `p` to the end: the expressions, their
/// components, and the pending components and error where one comes.
pub open spec fn spec_parse_from(v: Seq<char>, p: int) -> (Seq<Expr>, Seq<Component>, Seq<Component>, Option<SyntaxError>)
    decreases v.len() - p,
{
    let s = skip_ws(v, p);
    if p < 0 || s >= v.len() {
        (seq![], seq![], seq![], None)
    } else {
        match spec_step(v, s) {
            Ok((x, parts, q)) => if p < q <= v.len() {
                let rest = spec_parse_from(v, q);
                (seq![x] + rest.0, parts + rest.1, rest.2, rest.3)
            } else {
                (seq![x], parts, seq![], None)
            },
            Err((Some(x), parts, e)) => (seq![x], parts, seq![], Some(e)),
            Err((None, pending, e)) => (seq![], seq![], pending, Some(e)),
        }
    }
}

/// Whether `v[s..e]` is the word `w`.
fn span_equals(v: &Vec<char>, s: usize, e: usize, w: &Vec<char>) -> (r: bool)
    requires
        s <= e <= v@.len(),
    ensures
        r == (v@.subrange(s as int, e as int) == w@),
{
    if e - s != w.len() {
        return false;
    }
    let mut k: usize = 0;
    while k < w.len()
        invariant
            s <= e <= v@.len(),
            e - s == w@.len(),
            k <= w@.len(),
            forall|j: int| 0 <= j < k ==> v@[s + j] == w@[j],
        decreases w@.len() - k,
    {
        if v[s + k] != w[k] {
            assert(v@.subrange(s as int, e as int)[k as int] != w@[k as int]);
            return false;
        }
        k = k + 1;
    }
    assert(v@.subrange(s as int, e as int) =~= w@);
    true
}

/// Reads component `i` of `space` after position `q`.
fn read_component(v: &Vec<char>, q: usize, space: ColorSpace, i: usize) -> (r: Result<(Component, usize), SyntaxError>)
    requires
        q <= v@.len(),
    ensures
        r matches Ok((c, n)) ==> spec_component(v@, q as int, space, i as int) == Ok::<(Component, int), SyntaxError>((c, n as int))
            && q < n <= v@.len(),
        r matches Err(e) ==> spec_component(v@, q as int, space, i as int) == Err::<(Component, int), SyntaxError>(e),
{
    let q1 = skip_whitespace(v, q);
    let q2 = skip(v, q1, ',');
    let a = skip_whitespace(v, q2);
    let ne = take_number(v, a);
    if ne > a {
        let r = skip_whitespace(v, ne);
        if r < v.len() && v[r] == '%' {
            let n = skip_whitespace(v, r + 1);
            Ok((Component::Number { start: a, end: ne, percent: true }, n))
        } else {
            Ok((Component::Number { start: a, end: ne, percent: false }, r))
        }
    } else {
        let we = take_word(v, a);
        let rand = vec!['r', 'a', 'n', 'd'];
        assert(rand@ =~= rand_word());
        if we > a && span_equals(v, a, we, &rand) {
            match rand_policy(space, i) {
                Some(policy) => Ok((Component::Rand(policy), skip_whitespace(v, we))),
                None => Err(SyntaxError::UnsupportedRand { space }),
            }
        } else {
            Err(SyntaxError::MissingFloat { at: a })
        }
    }
}

/// Reads all components of `space` after position `q0`.
fn read_parts(v: &Vec<char>, q0: usize, space: ColorSpace) -> (r: (Vec<Component>, usize, Option<SyntaxError>))
    requires
        q0 <= v@.len(),
    ensures
        r.0@ == spec_parts(v@, q0 as int, space, 0).0,
        r.1 == spec_parts(v@, q0 as int, space, 0).1,
        r.2 == spec_parts(v@, q0 as int, space, 0).2,
        r.1 <= v@.len(),
        r.2 is None ==> q0 < r.1,
{
    let n = space.num_components();
    let mut parts: Vec<Component> = Vec::new();
    let mut q = q0;
    let mut i: usize = 0;
    while i < n
        invariant
            n == space.arity(),
            i <= n,
            q0 <= q <= v@.len(),
            i > 0 ==> q0 < q,
            spec_parts(v@, q0 as int, space, 0).0 == parts@ + spec_parts(v@, q as int, space, i as int).0,
            spec_parts(v@, q0 as int, space, 0).1 == spec_parts(v@, q as int, space, i as int).1,
            spec_parts(v@, q0 as int, space, 0).2 == spec_parts(v@, q as int, space, i as int).2,
        decreases n - i,
    {
        match read_component(v, q, space, i) {
            Ok((c, q2)) => {
                let ghost rest = spec_parts(v@, q2 as int, space, i + 1);
                assert(parts@.push(c) + rest.0 =~= parts@ + (seq![c] + rest.0));
                parts.push(c);
                q = q2;
                i = i + 1;
            },
            Err(e) => {
                assert(parts@ + Seq::<Component>::empty() =~= parts@);
                return (parts, q, Some(e));
            },
        }
    }
    assert(parts@ + Seq::<Component>::empty() =~= parts@);
    (parts, q, None)
}

/// Resolves the word `v[s..e]` to a color.
fn resolve_word(v: &Vec<char>, input: &str, s: usize, e: usize) -> (r: Result<Expr, SyntaxError>)
    requires
        v@ == input@,
        s < e <= v@.len(),
    ensures
        r == spec_word(v@, s as int, e as int),
{
    let ghost w = v@.subrange(s as int, e as int);
    let word = input.substring_char(s, e);
    let pick = vec!['p', 'i', 'c', 'k'];
    assert(pick@ =~= pick_word());
    if span_equals(v, s, e, &pick) {
        return Ok(Expr::Pick);
    }
    let rand = vec!['r', 'a', 'n', 'd'];
    assert(rand@ =~= rand_word());
    if span_equals(v, s, e, &rand) {
        return Ok(Expr::Random);
    }
    match html::get(word) {
        Some(value) => {
            proof {
                let l = html::lower_of(w);
                let i = choose|i: usize| html::first_named(l, i) && html::table_value(i) == value;
                let j = choose|j: usize| html::first_named(l, j);
                html::lemma_first_named_unique(l, i, j);
            }
            return Ok(Expr::Html(value));
        },
        None => {
            assert(!exists|i: usize| html::first_named(html::lower_of(w), i));
        },
    }
    match hex::parse(word) {
        Ok(h) => Ok(Expr::Hex(h)),
        Err(_) => {
            let mut alpha = true;
            let mut k: usize = s;
            while k < e
                invariant
                    s <= k <= e <= v@.len(),
                    alpha == forall|j: int| s <= j < k ==> is_alpha(#[trigger] v@[j]),
                decreases e - k,
            {
                let c = v[k];
                alpha = alpha && (('a' <= c && c <= 'z') || ('A' <= c && c <= 'Z'));
                k = k + 1;
            }
            Err(SyntaxError::UnknownWord { start: s, end: e, suggest: e - s > 3 && alpha })
        },
    }
}

/// Whether what stands at `q` begins the components of a color.
fn opens_at(v: &Vec<char>, q: usize) -> (r: bool)
    requires
        q <= v@.len(),
    ensures
        r == opens_components(v@, q as int),
{
    if q >= v.len() {
        return false;
    }
    let c = v[q];
    if c == '(' || c == '[' || c == '{' || ('0' <= c && c <= '9') || c == '.' {
        return true;
    }
    let we = take_word(v, q);
    let rand = vec!['r', 'a', 'n', 'd'];
    assert(rand@ =~= rand_word());
    we > q && span_equals(v, q, we, &rand)
}

/// The color space that the word `v[p..e]` introduces, if any.
fn keyword(v: &Vec<char>, input: &str, p: usize, e: usize) -> (r: Option<ColorSpace>)
    requires
        v@ == input@,
        p <= e <= v@.len(),
    ensures
        r == spec_keyword(v@, p as int, e as int),
{
    if e == p {
        return None;
    }
    let word = input.substring_char(p, e);
    match ColorSpace::from_name(word) {
        Ok(c) => {
            match html::get(word) {
                Some(_) => {
                    if opens_at(v, skip_whitespace(v, e)) { Some(c) } else { None }
                },
                None => Some(c),
            }
        },
        Err(_) => None,
    }
}

/// Reads the color that starts at `p`.
fn step(v: &Vec<char>, input: &str, p: usize) -> (r: Result<(Expr, Vec<Component>, usize), (Option<Expr>, Vec<Component>, SyntaxError)>)
    requires
        v@ == input@,
        p < v@.len(),
    ensures
        r matches Ok((x, parts, q)) ==> spec_step(v@, p as int) == Ok::<(Expr, Seq<Component>, int), (Option<Expr>, Seq<Component>, SyntaxError)>((x, parts@, q as int))
            && p < q <= v@.len(),
        r matches Err((done, parts, e)) ==> spec_step(v@, p as int) == Err::<(Expr, Seq<Component>, int), (Option<Expr>, Seq<Component>, SyntaxError)>((done, parts@, e)),
{
    let we0 = take_word(v, p);
    let cs = keyword(v, input, p, we0);
    let q1 = if cs.is_some() { we0 } else { p };
    let q2 = skip_whitespace(v, q1);
    let open: Option<char> = if q2 < v.len() && (v[q2] == '(' || v[q2] == '[' || v[q2] == '{') {
        Some(v[q2])
    } else {
        None
    };
    let q3 = if open.is_some() { q2 + 1 } else { q2 };
    let q4 = skip_whitespace(v, q3);
    let (x, parts, q) = match cs {
        Some(space) => {
            let (parts, q, err) = read_parts(v, q4, space);
            match err {
                None => (Expr::Components { space }, parts, skip_whitespace(v, q)),
                Some(e) => return Err((None, parts, e)),
            }
        },
        None => {
            if q4 < v.len() && q4 < v.len() - 1 && v[q4] == '-' && (v[q4 + 1] == ' ' || v[q4 + 1] == ',') {
                (Expr::Stdin, Vec::new(), skip_whitespace(v, q4 + 2))
            } else {
                let we = take_word(v, q4);
                if we == q4 {
                    return Err((None, Vec::new(), SyntaxError::ExpectedWord { at: q4 }));
                }
                match resolve_word(v, input, q4, we) {
                    Ok(x) => (x, Vec::new(), skip_whitespace(v, we)),
                    Err(e) => return Err((None, Vec::new(), e)),
                }
            }
        },
    };
    match open {
        Some(o) => {
            let expected = closing_for(o);
            if q < v.len() && v[q] == expected {
                Ok((x, parts, skip(v, q + 1, ',')))
            } else {
                Err((Some(x), parts, SyntaxError::UnclosedParen { open: o, expected, at: q }))
            }
        },
        None => Ok((x, parts, skip(v, q, ','))),
    }
}

/// Parses a string that can hold any number of colors, in different
/// notations, separated by whitespace or commas.
pub fn parse(input: &str) -> (r: Parsed)
    ensures
        r.exprs@ == spec_parse_from(input@, 0).0,
        r.components@ == spec_parse_from(input@, 0).1,
        r.pending@ == spec_parse_from(input@, 0).2,
        r.error == spec_parse_from(input@, 0).3,
{
    let v = chars_of(input);
    let mut exprs: Vec<Expr> = Vec::new();
    let mut components: Vec<Component> = Vec::new();
    let mut p: usize = 0;
    loop
        invariant
            v@ == input@,
            p <= v@.len(),
            spec_parse_from(v@, 0).0 == exprs@ + spec_parse_from(v@, p as int).0,
            spec_parse_from(v@, 0).1 == components@ + spec_parse_from(v@, p as int).1,
            spec_parse_from(v@, 0).2 == spec_parse_from(v@, p as int).2,
            spec_parse_from(v@, 0).3 == spec_parse_from(v@, p as int).3,
        decreases v@.len() - p,
    {
        let s = skip_whitespace(&v, p);
        if s >= v.len() {
            assert(exprs@ + Seq::<Expr>::empty() =~= exprs@);
            assert(components@ + Seq::<Component>::empty() =~= components@);
            return Parsed { exprs, components, pending: Vec::new(), error: None };
        }
        match step(&v, input, s) {
            Ok((x, parts, q)) => {
                let ghost rest = spec_parse_from(v@, q as int);
                assert(exprs@.push(x) + rest.0 =~= exprs@ + (seq![x] + rest.0));
                assert(components@ + parts@ + rest.1 =~= components@ + (parts@ + rest.1));
                exprs.push(x);
                let mut parts = parts;
                components.append(&mut parts);
                p = q;
            },
            Err((Some(x), parts, e)) => {
                exprs.push(x);
                let mut parts = parts;
                components.append(&mut parts);
                return Parsed { exprs, components, pending: Vec::new(), error: Some(e) };
            },
            Err((None, pending, e)) => {
                assert(exprs@ + Seq::<Expr>::empty() =~= exprs@);
                assert(components@ + Seq::<Component>::empty() =~= components@);
                return Parsed { exprs, components, pending, error: Some(e) };
            },
        }
    }
}

} // verus!
