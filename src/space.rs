//! The supported color spaces, their components and the valid range of each.

use vstd::prelude::*;

use crate::text::{chars_of, lower, seq_eq_ignore_case};

verus! {

/// A closed list of all supported color spaces.
#[derive(Debug, Copy, Clone, PartialEq, Eq, Structural)]
pub enum ColorSpace {
    Rgb,
    Cmy,
    Cmyk,
    Hsv,
    Hsl,
    Lch,
    Luv,
    Lab,
    HunterLab,
    Xyz,
    Yxy,
    Gray,
}

/// The error of parsing a word that names no color space.
#[derive(Debug, Copy, Clone, PartialEq, Eq, Structural)]
pub struct ColorSpaceParseError;

/// An inclusive range of valid values of one color component.
#[derive(Debug, Copy, Clone, PartialEq, Eq, Structural)]
pub struct ComponentRange {
    pub min: i32,
    pub max: i32,
}

/// Where a component value lies relative to its valid range.
#[derive(Debug, Copy, Clone, PartialEq, Eq, Structural)]
pub enum Placement {
    Below,
    Inside,
    Above,
}

/// Why a list of component values does not make a valid color.
#[derive(Debug, Clone, PartialEq, Eq)]
pub enum ComponentError {
    /// The list has the wrong length for the color space.
    NumberOfComponents { expected: usize, got: usize },
    /// The component at `index` is below its minimum, which is 0.
    Negative { index: usize, component: &'static str },
    /// The component at `index` is outside `min..=max`.
    OutOfRange { index: usize, component: &'static str, min: i32, max: i32 },
}

/// Whether `w` is `gray`, ignoring ASCII case.
fn is_gray(w: &Vec<char>) -> (r: bool)
    ensures
        r == (lower(w@) == seq!['g', 'r', 'a', 'y']),
{
    proof { reveal_strlit("gray"); }
    let name = chars_of("gray");
    assert(name@ =~= seq!['g', 'r', 'a', 'y']);
    assert(lower(name@) =~= name@);
    seq_eq_ignore_case(w, &name)
}

impl ColorSpace {
    /// How many components a color of this space has.
    pub open spec fn arity(self) -> nat {
        match self {
            ColorSpace::Cmyk => 4,
            ColorSpace::Gray => 1,
            _ => 3,
        }
    }

    /// The canonical lowercase name, used for display and for parsing.
    pub open spec fn spec_name(self) -> Seq<char> {
        match self {
            ColorSpace::Rgb => seq!['r', 'g', 'b'],
            ColorSpace::Cmy => seq!['c', 'm', 'y'],
            ColorSpace::Cmyk => seq!['c', 'm', 'y', 'k'],
            ColorSpace::Hsv => seq!['h', 's', 'v'],
            ColorSpace::Hsl => seq!['h', 's', 'l'],
            ColorSpace::Lch => seq!['l', 'c', 'h'],
            ColorSpace::Luv => seq!['l', 'u', 'v'],
            ColorSpace::Lab => seq!['l', 'a', 'b'],
            ColorSpace::HunterLab => seq!['h', 'u', 'n', 't', 'e', 'r', 'l', 'a', 'b'],
            ColorSpace::Xyz => seq!['x', 'y', 'z'],
            ColorSpace::Yxy => seq!['y', 'x', 'y'],
            ColorSpace::Gray => seq!['g', 'r', 'y'],
        }
    }

    /// The field names of the components, in their canonical order.
    pub open spec fn spec_component_names(self) -> Seq<Seq<char>> {
        match self {
            ColorSpace::Rgb => seq![seq!['r'], seq!['g'], seq!['b']],
            ColorSpace::Cmy => seq![seq!['c'], seq!['m'], seq!['y']],
            ColorSpace::Cmyk => seq![seq!['c'], seq!['m'], seq!['y'], seq!['k']],
            ColorSpace::Hsv => seq![seq!['h'], seq!['s'], seq!['v']],
            ColorSpace::Hsl => seq![seq!['h'], seq!['s'], seq!['l']],
            ColorSpace::Lch => seq![seq!['l'], seq!['c'], seq!['h']],
            ColorSpace::Luv => seq![seq!['l'], seq!['u'], seq!['v']],
            ColorSpace::Lab => seq![seq!['l'], seq!['a'], seq!['b']],
            ColorSpace::HunterLab => seq![seq!['l'], seq!['a'], seq!['b']],
            ColorSpace::Xyz => seq![seq!['x'], seq!['y'], seq!['z']],
            ColorSpace::Yxy => seq![seq!['y', '1'], seq!['x'], seq!['y', '2']],
            ColorSpace::Gray => seq![seq!['l']],
        }
    }

    /// The valid range of component `i`, or `None` where it is unconstrained.
    pub open spec fn spec_range(self, i: int) -> Option<ComponentRange> {
        let unit = Some(ComponentRange { min: 0, max: 1 });
        let hue = Some(ComponentRange { min: -360i32, max: 360 });
        let percent = Some(ComponentRange { min: 0, max: 100 });
        match self {
            ColorSpace::Rgb => Some(ComponentRange { min: 0, max: 255 }),
            ColorSpace::Cmy | ColorSpace::Cmyk | ColorSpace::Gray => unit,
            ColorSpace::Hsv | ColorSpace::Hsl => if i == 0 { hue } else { unit },
            ColorSpace::Lch => if i == 2 { hue } else { percent },
            ColorSpace::Luv => if i == 0 {
                percent
            } else if i == 1 {
                Some(ComponentRange { min: -134i32, max: 220 })
            } else {
                Some(ComponentRange { min: -140i32, max: 122 })
            },
            ColorSpace::Lab | ColorSpace::HunterLab => if i == 0 { percent } else { None },
            ColorSpace::Xyz | ColorSpace::Yxy => None,
        }
    }

    /// The space whose canonical name equals `w` up to ASCII case.
    pub open spec fn spec_from_name(w: Seq<char>) -> Option<ColorSpace> {
        let l = lower(w);
        if l == ColorSpace::Rgb.spec_name() { Some(ColorSpace::Rgb) }
        else if l == ColorSpace::Cmy.spec_name() { Some(ColorSpace::Cmy) }
        else if l == ColorSpace::Cmyk.spec_name() { Some(ColorSpace::Cmyk) }
        else if l == ColorSpace::Hsv.spec_name() { Some(ColorSpace::Hsv) }
        else if l == ColorSpace::Hsl.spec_name() { Some(ColorSpace::Hsl) }
        else if l == ColorSpace::Lch.spec_name() { Some(ColorSpace::Lch) }
        else if l == ColorSpace::Luv.spec_name() { Some(ColorSpace::Luv) }
        else if l == ColorSpace::Lab.spec_name() { Some(ColorSpace::Lab) }
        else if l == ColorSpace::HunterLab.spec_name() { Some(ColorSpace::HunterLab) }
        else if l == ColorSpace::Xyz.spec_name() { Some(ColorSpace::Xyz) }
        else if l == ColorSpace::Yxy.spec_name() { Some(ColorSpace::Yxy) }
        else if l == ColorSpace::Gray.spec_name() || l == seq!['g', 'r', 'a', 'y'] { Some(ColorSpace::Gray) }
        else { None }
    }

    /// Whether placement `p` of component `i` breaks the range of this space.
    pub open spec fn violates(self, i: int, p: Placement) -> bool {
        self.spec_range(i) is Some && p != Placement::Inside
    }

    /// Whether `e` is the error reported for component `i` placed at `p`,
    /// where that breaks its range: `Negative` where the value is below a
    /// minimum of 0, `OutOfRange` with the bounds otherwise.
    pub open spec fn is_violation_error(self, e: ComponentError, i: int, p: Placement) -> bool {
        let range = self.spec_range(i)->0;
        let name = self.spec_component_names()[i];
        if p == Placement::Below && range.min == 0 {
            e matches ComponentError::Negative { index, component }
                && index == i && component@ == name
        } else {
            e matches ComponentError::OutOfRange { index, component, min, max }
                && index == i && component@ == name && min == range.min && max == range.max
        }
    }

    /// Whether `e` is the error for a list of placements: a wrong length, or
    /// else the first component that breaks its range.
    pub open spec fn is_validation_error(self, e: ComponentError, ps: Seq<Placement>) -> bool {
        if ps.len() != self.arity() {
            e == ComponentError::NumberOfComponents { expected: self.arity() as usize, got: ps.len() as usize }
        } else {
            exists|i: int| 0 <= i < ps.len() && self.violates(i, ps[i])
                && (forall|j: int| 0 <= j < i ==> !self.violates(j, ps[j]))
                && self.is_violation_error(e, i, ps[i])
        }
    }

    /// Checks one component, given where its value lies relative to
    /// `component_range(i)`.
    pub fn check_component(&self, i: usize, p: Placement) -> (r: Result<(), ComponentError>)
        requires
            i < self.arity(),
        ensures
            r is Ok <==> !self.violates(i as int, p),
            r matches Err(e) ==> self.is_violation_error(e, i as int, p),
    {
        match self.component_range(i) {
            None => Ok(()),
            Some(range) => {
                if p == Placement::Inside {
                    Ok(())
                } else {
                    let component = self.component_name(i);
                    if p == Placement::Below && range.min == 0 {
                        Err(ComponentError::Negative { index: i, component })
                    } else {
                        Err(ComponentError::OutOfRange { index: i, component, min: range.min, max: range.max })
                    }
                }
            }
        }
    }

    /// Checks a list of components: first their number, then the range of
    /// each in order. `ps[i]` tells where component `i` lies relative to
    /// `component_range(i)`.
    pub fn validate(&self, ps: &Vec<Placement>) -> (r: Result<(), ComponentError>)
        ensures
            r is Ok <==> (ps@.len() == self.arity()
                && forall|i: int| 0 <= i < ps@.len() ==> !self.violates(i, ps@[i])),
            r matches Err(e) ==> self.is_validation_error(e, ps@),
    {
        let expected = self.num_components();
        if ps.len() != expected {
            return Err(ComponentError::NumberOfComponents { expected, got: ps.len() });
        }
        let mut i: usize = 0;
        while i < ps.len()
            invariant
                ps@.len() == self.arity(),
                i <= ps@.len(),
                forall|j: int| 0 <= j < i ==> !self.violates(j, ps@[j]),
            decreases ps@.len() - i,
        {
            match self.check_component(i, ps[i]) {
                Ok(()) => {},
                Err(e) => {
                    assert(self.is_validation_error(e, ps@));
                    return Err(e);
                }
            }
            i = i + 1;
        }
        Ok(())
    }

    /// Returns the number of color components (between 1 and 4).
    pub fn num_components(&self) -> (r: usize)
        ensures
            r == self.arity(),
    {
        match self {
            ColorSpace::Cmyk => 4,
            ColorSpace::Gray => 1,
            _ => 3,
        }
    }

    /// The canonical lowercase name of the space.
    pub fn name(&self) -> (r: &'static str)
        ensures
            r@ == self.spec_name(),
    {
        match self {
            ColorSpace::Rgb => { proof { reveal_strlit("rgb"); } "rgb" },
            ColorSpace::Cmy => { proof { reveal_strlit("cmy"); } "cmy" },
            ColorSpace::Cmyk => { proof { reveal_strlit("cmyk"); } "cmyk" },
            ColorSpace::Hsv => { proof { reveal_strlit("hsv"); } "hsv" },
            ColorSpace::Hsl => { proof { reveal_strlit("hsl"); } "hsl" },
            ColorSpace::Lch => { proof { reveal_strlit("lch"); } "lch" },
            ColorSpace::Luv => { proof { reveal_strlit("luv"); } "luv" },
            ColorSpace::Lab => { proof { reveal_strlit("lab"); } "lab" },
            ColorSpace::HunterLab => { proof { reveal_strlit("hunterlab"); } "hunterlab" },
            ColorSpace::Xyz => { proof { reveal_strlit("xyz"); } "xyz" },
            ColorSpace::Yxy => { proof { reveal_strlit("yxy"); } "yxy" },
            ColorSpace::Gray => { proof { reveal_strlit("gry"); } "gry" },
        }
    }

    /// Whether `w` is the name of this space, ignoring ASCII case.
    fn is_named(&self, w: &Vec<char>) -> (r: bool)
        ensures
            r == (lower(w@) == self.spec_name()),
    {
        let name = chars_of(self.name());
        assert(lower(name@) =~= name@);
        seq_eq_ignore_case(w, &name)
    }

    /// The space that the word names; the match is exact up to ASCII case.
    /// The gray space is named `gry` or `gray`.
    pub fn from_chars(w: &Vec<char>) -> (r: Result<ColorSpace, ColorSpaceParseError>)
        ensures
            r == (match ColorSpace::spec_from_name(w@) {
                Some(c) => Ok(c),
                None => Err(ColorSpaceParseError),
            }),
    {
        if ColorSpace::Rgb.is_named(w) { Ok(ColorSpace::Rgb) }
        else if ColorSpace::Cmy.is_named(w) { Ok(ColorSpace::Cmy) }
        else if ColorSpace::Cmyk.is_named(w) { Ok(ColorSpace::Cmyk) }
        else if ColorSpace::Hsv.is_named(w) { Ok(ColorSpace::Hsv) }
        else if ColorSpace::Hsl.is_named(w) { Ok(ColorSpace::Hsl) }
        else if ColorSpace::Lch.is_named(w) { Ok(ColorSpace::Lch) }
        else if ColorSpace::Luv.is_named(w) { Ok(ColorSpace::Luv) }
        else if ColorSpace::Lab.is_named(w) { Ok(ColorSpace::Lab) }
        else if ColorSpace::HunterLab.is_named(w) { Ok(ColorSpace::HunterLab) }
        else if ColorSpace::Xyz.is_named(w) { Ok(ColorSpace::Xyz) }
        else if ColorSpace::Yxy.is_named(w) { Ok(ColorSpace::Yxy) }
        else if ColorSpace::Gray.is_named(w) || is_gray(w) { Ok(ColorSpace::Gray) }
        else { Err(ColorSpaceParseError) }
    }

    /// Parses a color space name, ignoring ASCII case.
    pub fn from_name(s: &str) -> (r: Result<ColorSpace, ColorSpaceParseError>)
        ensures
            r == (match ColorSpace::spec_from_name(s@) {
                Some(c) => Ok(c),
                None => Err(ColorSpaceParseError),
            }),
    {
        let w = chars_of(s);
        ColorSpace::from_chars(&w)
    }

    /// The field name of component `i`.
    pub fn component_name(&self, i: usize) -> (r: &'static str)
        requires
            i < self.arity(),
        ensures
            r@ == self.spec_component_names()[i as int],
    {
        proof {
            reveal_strlit("r"); reveal_strlit("g"); reveal_strlit("b");
            reveal_strlit("c"); reveal_strlit("m"); reveal_strlit("y"); reveal_strlit("k");
            reveal_strlit("h"); reveal_strlit("s"); reveal_strlit("v"); reveal_strlit("l");
            reveal_strlit("u"); reveal_strlit("a"); reveal_strlit("x"); reveal_strlit("z");
            reveal_strlit("y1"); reveal_strlit("y2");
        }
        match self {
            ColorSpace::Rgb => if i == 0 { "r" } else if i == 1 { "g" } else { "b" },
            ColorSpace::Cmy => if i == 0 { "c" } else if i == 1 { "m" } else { "y" },
            ColorSpace::Cmyk => if i == 0 { "c" } else if i == 1 { "m" } else if i == 2 { "y" } else { "k" },
            ColorSpace::Hsv => if i == 0 { "h" } else if i == 1 { "s" } else { "v" },
            ColorSpace::Hsl => if i == 0 { "h" } else if i == 1 { "s" } else { "l" },
            ColorSpace::Lch => if i == 0 { "l" } else if i == 1 { "c" } else { "h" },
            ColorSpace::Luv => if i == 0 { "l" } else if i == 1 { "u" } else { "v" },
            ColorSpace::Lab | ColorSpace::HunterLab => if i == 0 { "l" } else if i == 1 { "a" } else { "b" },
            ColorSpace::Xyz => if i == 0 { "x" } else if i == 1 { "y" } else { "z" },
            ColorSpace::Yxy => if i == 0 { "y1" } else if i == 1 { "x" } else { "y2" },
            ColorSpace::Gray => "l",
        }
    }

    /// The valid range of component `i`, or `None` where any value is valid.
    pub fn component_range(&self, i: usize) -> (r: Option<ComponentRange>)
        requires
            i < self.arity(),
        ensures
            r == self.spec_range(i as int),
    {
        let unit = Some(ComponentRange { min: 0, max: 1 });
        let hue = Some(ComponentRange { min: -360, max: 360 });
        let percent = Some(ComponentRange { min: 0, max: 100 });
        match self {
            ColorSpace::Rgb => Some(ComponentRange { min: 0, max: 255 }),
            ColorSpace::Cmy | ColorSpace::Cmyk | ColorSpace::Gray => unit,
            ColorSpace::Hsv | ColorSpace::Hsl => if i == 0 { hue } else { unit },
            ColorSpace::Lch => if i == 2 { hue } else { percent },
            ColorSpace::Luv => if i == 0 {
                percent
            } else if i == 1 {
                Some(ComponentRange { min: -134, max: 220 })
            } else {
                Some(ComponentRange { min: -140, max: 122 })
            },
            ColorSpace::Lab | ColorSpace::HunterLab => if i == 0 { percent } else { None },
            ColorSpace::Xyz | ColorSpace::Yxy => None,
        }
    }
}

impl std::str::FromStr for ColorSpace {
    type Err = ColorSpaceParseError;

    fn from_str(s: &str) -> Result<ColorSpace, ColorSpaceParseError> {
        ColorSpace::from_name(s)
    }
}

/// The display name of every space parses back to that space.
pub proof fn lemma_name_round_trip(c: ColorSpace)
    ensures
        ColorSpace::spec_from_name(c.spec_name()) == Some(c),
{
    assert(lower(c.spec_name()) =~= c.spec_name());
    let n = c.spec_name();
    let l = lower(n);
    assert(n.len() == 3 ==> (l[0] == n[0] && l[1] == n[1] && l[2] == n[2]));
    assert(ColorSpace::Cmyk.spec_name().len() == 4);
    assert(ColorSpace::HunterLab.spec_name().len() == 9);
    assert(ColorSpace::Rgb.spec_name()[0] == 'r');
    assert(ColorSpace::Cmy.spec_name()[0] == 'c');
    assert(ColorSpace::Hsv.spec_name()[2] == 'v');
    assert(ColorSpace::Hsl.spec_name()[2] == 'l');
    assert(ColorSpace::Lch.spec_name()[1] == 'c');
    assert(ColorSpace::Luv.spec_name()[1] == 'u');
    assert(ColorSpace::Lab.spec_name()[1] == 'a');
    assert(ColorSpace::Xyz.spec_name()[0] == 'x');
    assert(ColorSpace::Yxy.spec_name()[0] == 'y');
    assert(ColorSpace::Gray.spec_name()[0] == 'g');
}

} // verus!
