use colo::hex::HexColor;
use colo::parse::{closing_for, parse, rand_policy, Component, Expr, RandPolicy, SyntaxError};
use colo::random::{draw_integer, random_rgb};
use colo::space::{ColorSpace, ComponentError, Placement};

fn num(start: usize, end: usize, percent: bool) -> Component {
    Component::Number { start, end, percent }
}

#[test]
fn html_names_in_sequence() {
    let p = parse("orange blue");
    assert_eq!(p.exprs, vec![Expr::Html(0xffa500), Expr::Html(0x0000ff)]);
    assert!(p.components.is_empty());
    assert_eq!(p.error, None);
}

#[test]
fn rgb_with_components() {
    let input = "rgb(255, 0, 127.5)";
    let p = parse(input);
    assert_eq!(p.exprs, vec![Expr::Components { space: ColorSpace::Rgb }]);
    assert_eq!(p.components, vec![num(4, 7, false), num(9, 10, false), num(12, 17, false)]);
    assert_eq!(&input[12..17], "127.5");
    assert_eq!(p.error, None);
}

#[test]
fn short_hex_word() {
    let p = parse("07F");
    assert_eq!(p.exprs, vec![Expr::Hex(HexColor { r: 0, g: 7, b: 15, width: 1 })]);
    assert_eq!(HexColor { r: 0, g: 7, b: 15, width: 1 }.to_rgb8(), (0, 119, 255));
}

#[test]
fn hue_out_of_range_comes_first() {
    let p = parse("hsl(400,0,0))");
    assert_eq!(p.exprs, vec![Expr::Components { space: ColorSpace::Hsl }]);
    assert_eq!(p.components, vec![num(4, 7, false), num(8, 9, false), num(10, 11, false)]);
    assert_eq!(p.error, Some(SyntaxError::ExpectedWord { at: 12 }));
    assert_eq!(
        ColorSpace::Hsl.validate(&vec![Placement::Above, Placement::Inside, Placement::Inside]),
        Err(ComponentError::OutOfRange { index: 0, component: "h", min: -360, max: 360 })
    );
}

#[test]
fn misspelled_name_may_get_a_suggestion() {
    let p = parse("rebecapurple");
    assert!(p.exprs.is_empty());
    assert_eq!(p.error, Some(SyntaxError::UnknownWord { start: 0, end: 12, suggest: true }));
    let p = parse("qq");
    assert_eq!(p.error, Some(SyntaxError::UnknownWord { start: 0, end: 2, suggest: false }));
    let p = parse("rgb(1,2,3) , red");
    assert_eq!(p.error, Some(SyntaxError::ExpectedWord { at: 11 }));
    let p = parse("blue x9zz");
    assert_eq!(p.exprs, vec![Expr::Html(0x0000ff)]);
    assert_eq!(p.error, Some(SyntaxError::UnknownWord { start: 5, end: 9, suggest: false }));
}

#[test]
fn percent_commas_and_brackets() {
    let p = parse(" hsl [ 30 , 50 %, 25%], cmyk{0,0,0,1}");
    assert_eq!(
        p.exprs,
        vec![Expr::Components { space: ColorSpace::Hsl }, Expr::Components { space: ColorSpace::Cmyk }]
    );
    assert_eq!(p.components.len(), 7);
    assert_eq!(p.components[0], num(7, 9, false));
    assert_eq!(p.components[1], num(12, 14, true));
    assert_eq!(p.components[2], num(18, 20, true));
    assert_eq!(p.error, None);
}

#[test]
fn keywords_without_parens() {
    let p = parse("gry 0.5 RGB 1 2 3");
    assert_eq!(
        p.exprs,
        vec![Expr::Components { space: ColorSpace::Gray }, Expr::Components { space: ColorSpace::Rgb }]
    );
    assert_eq!(p.components.len(), 4);
}

#[test]
fn special_words() {
    let p = parse("pick rand - ,");
    assert_eq!(p.exprs, vec![Expr::Pick, Expr::Random, Expr::Stdin]);
    assert_eq!(p.error, None);
}

#[test]
fn random_components() {
    let p = parse("hsl(rand, 50%, rand)");
    assert_eq!(
        p.components,
        vec![
            Component::Rand(RandPolicy::Below(360)),
            num(10, 12, true),
            Component::Rand(RandPolicy::Unit)
        ]
    );
    let p = parse("lab(50, rand, 0)");
    assert_eq!(p.error, Some(SyntaxError::UnsupportedRand { space: ColorSpace::Lab }));
    assert_eq!(p.pending, vec![num(4, 6, false)]);
}

#[test]
fn syntax_errors() {
    let p = parse("rgb(1,2)");
    assert_eq!(p.error, Some(SyntaxError::MissingFloat { at: 7 }));
    assert_eq!(p.pending, vec![num(4, 5, false), num(6, 7, false)]);
    let p = parse("rgb(1,2,3");
    assert_eq!(p.error, Some(SyntaxError::UnclosedParen { open: '(', expected: ')', at: 9 }));
    let p = parse("rgb[1,2,3)");
    assert_eq!(p.error, Some(SyntaxError::UnclosedParen { open: '[', expected: ']', at: 9 }));
    assert_eq!(p.exprs, vec![Expr::Components { space: ColorSpace::Rgb }]);
    assert!(p.pending.is_empty());
    let p = parse("red )");
    assert_eq!(p.exprs, vec![Expr::Html(0xff0000)]);
    assert_eq!(p.error, Some(SyntaxError::ExpectedWord { at: 4 }));
}

#[test]
fn empty_input() {
    let p = parse("   ");
    assert!(p.exprs.is_empty());
    assert_eq!(p.error, None);
}

#[test]
fn closing_parens() {
    assert_eq!(closing_for('('), ')');
    assert_eq!(closing_for('['), ']');
    assert_eq!(closing_for('{'), '}');
    assert_eq!(closing_for('<'), '>');
    assert_eq!(closing_for('|'), '|');
}

#[test]
fn rand_policies() {
    assert_eq!(rand_policy(ColorSpace::Rgb, 2), Some(RandPolicy::Byte));
    assert_eq!(rand_policy(ColorSpace::Lch, 2), Some(RandPolicy::Below(360)));
    assert_eq!(rand_policy(ColorSpace::Luv, 2), Some(RandPolicy::Through(122)));
    assert_eq!(rand_policy(ColorSpace::Xyz, 1), Some(RandPolicy::Through(100)));
    assert_eq!(rand_policy(ColorSpace::Xyz, 0), None);
}

#[test]
fn drawn_integers_stay_in_range() {
    for _ in 0..200 {
        assert!(draw_integer(RandPolicy::Below(360)).unwrap() < 360);
        assert!(draw_integer(RandPolicy::Through(100)).unwrap() <= 100);
        assert!(draw_integer(RandPolicy::Byte).unwrap() <= 255);
    }
    let hues: Vec<u32> = (0..200).map(|_| draw_integer(RandPolicy::Below(360)).unwrap()).collect();
    assert!(hues.iter().any(|&h| h != hues[0]));
    assert_eq!(draw_integer(RandPolicy::Unit), None);
    assert_eq!(draw_integer(RandPolicy::Below(0)), None);
    let _ = random_rgb();
}

#[test]
fn wrong_paren_keeps_the_color_before_it() {
    let p = parse("rgb(300, 0, 0]");
    assert_eq!(p.exprs, vec![Expr::Components { space: ColorSpace::Rgb }]);
    assert_eq!(p.components, vec![num(4, 7, false), num(9, 10, false), num(12, 13, false)]);
    assert_eq!(p.error, Some(SyntaxError::UnclosedParen { open: '(', expected: ')', at: 13 }));
    let p = parse("(red]");
    assert_eq!(p.exprs, vec![Expr::Html(0xff0000)]);
    assert_eq!(p.error, Some(SyntaxError::UnclosedParen { open: '(', expected: ')', at: 4 }));
}

#[test]
fn gray_is_a_keyword_before_components() {
    let p = parse("gray");
    assert_eq!(p.exprs, vec![Expr::Html(0x808080)]);
    assert_eq!(p.error, None);
    let p = parse("Gray red");
    assert_eq!(p.exprs, vec![Expr::Html(0x808080), Expr::Html(0xff0000)]);
    let p = parse("gray(0.5) GRAY 50% gray rand gray .5");
    assert_eq!(p.exprs, vec![Expr::Components { space: ColorSpace::Gray }; 4]);
    assert_eq!(p.components[1], num(15, 17, true));
    assert_eq!(p.components[2], Component::Rand(RandPolicy::Unit));
    assert_eq!(p.error, None);
    let p = parse("gry");
    assert_eq!(p.error, Some(SyntaxError::MissingFloat { at: 3 }));
}
