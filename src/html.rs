//! The HTML color names and their 24-bit values.

use vstd::prelude::*;

use crate::text::{chars_of, seq_eq};

verus! {

/// The number of entries in the HTML color table.
pub const TABLE_LEN: usize = 148;

/// The name of entry `i` of the table, in lowercase.
pub open spec fn table_name(i: usize) -> Seq<char> {
    match i {
        0 => "pink"@,
        1 => "lightpink"@,
        2 => "hotpink"@,
        3 => "deeppink"@,
        4 => "palevioletred"@,
        5 => "mediumvioletred"@,
        6 => "lavender"@,
        7 => "thistle"@,
        8 => "plum"@,
        9 => "orchid"@,
        10 => "violet"@,
        11 => "fuchsia"@,
        12 => "magenta"@,
        13 => "mediumorchid"@,
        14 => "darkorchid"@,
        15 => "darkviolet"@,
        16 => "blueviolet"@,
        17 => "darkmagenta"@,
        18 => "purple"@,
        19 => "mediumpurple"@,
        20 => "mediumslateblue"@,
        21 => "slateblue"@,
        22 => "darkslateblue"@,
        23 => "rebeccapurple"@,
        24 => "indigo"@,
        25 => "lightsalmon"@,
        26 => "salmon"@,
        27 => "darksalmon"@,
        28 => "lightcoral"@,
        29 => "indianred"@,
        30 => "crimson"@,
        31 => "red"@,
        32 => "firebrick"@,
        33 => "darkred"@,
        34 => "orange"@,
        35 => "darkorange"@,
        36 => "coral"@,
        37 => "tomato"@,
        38 => "orangered"@,
        39 => "gold"@,
        40 => "yellow"@,
        41 => "lightyellow"@,
        42 => "lemonchiffon"@,
        43 => "lightgoldenrodyellow"@,
        44 => "papayawhip"@,
        45 => "moccasin"@,
        46 => "peachpuff"@,
        47 => "palegoldenrod"@,
        48 => "khaki"@,
        49 => "darkkhaki"@,
        50 => "greenyellow"@,
        51 => "chartreuse"@,
        52 => "lawngreen"@,
        53 => "lime"@,
        54 => "limegreen"@,
        55 => "palegreen"@,
        56 => "lightgreen"@,
        57 => "mediumspringgreen"@,
        58 => "springgreen"@,
        59 => "mediumseagreen"@,
        60 => "seagreen"@,
        61 => "forestgreen"@,
        62 => "green"@,
        63 => "darkgreen"@,
        64 => "yellowgreen"@,
        65 => "olivedrab"@,
        66 => "darkolivegreen"@,
        67 => "mediumaquamarine"@,
        68 => "darkseagreen"@,
        69 => "lightseagreen"@,
        70 => "darkcyan"@,
        71 => "teal"@,
        72 => "aqua"@,
        73 => "cyan"@,
        74 => "lightcyan"@,
        75 => "paleturquoise"@,
        76 => "aquamarine"@,
        77 => "turquoise"@,
        78 => "mediumturquoise"@,
        79 => "darkturquoise"@,
        80 => "cadetblue"@,
        81 => "steelblue"@,
        82 => "lightsteelblue"@,
        83 => "lightblue"@,
        84 => "powderblue"@,
        85 => "lightskyblue"@,
        86 => "skyblue"@,
        87 => "cornflowerblue"@,
        88 => "deepskyblue"@,
        89 => "dodgerblue"@,
        90 => "royalblue"@,
        91 => "blue"@,
        92 => "mediumblue"@,
        93 => "darkblue"@,
        94 => "navy"@,
        95 => "midnightblue"@,
        96 => "cornsilk"@,
        97 => "blanchedalmond"@,
        98 => "bisque"@,
        99 => "navajowhite"@,
        100 => "wheat"@,
        101 => "burlywood"@,
        102 => "tan"@,
        103 => "rosybrown"@,
        104 => "sandybrown"@,
        105 => "goldenrod"@,
        106 => "darkgoldenrod"@,
        107 => "peru"@,
        108 => "chocolate"@,
        109 => "olive"@,
        110 => "saddlebrown"@,
        111 => "sienna"@,
        112 => "brown"@,
        113 => "maroon"@,
        114 => "white"@,
        115 => "snow"@,
        116 => "honeydew"@,
        117 => "mintcream"@,
        118 => "azure"@,
        119 => "aliceblue"@,
        120 => "ghostwhite"@,
        121 => "whitesmoke"@,
        122 => "seashell"@,
        123 => "beige"@,
        124 => "oldlace"@,
        125 => "floralwhite"@,
        126 => "ivory"@,
        127 => "antiquewhite"@,
        128 => "linen"@,
        129 => "lavenderblush"@,
        130 => "mistyrose"@,
        131 => "gainsboro"@,
        132 => "lightgray"@,
        133 => "silver"@,
        134 => "darkgray"@,
        135 => "dimgray"@,
        136 => "gray"@,
        137 => "lightslategray"@,
        138 => "slategray"@,
        139 => "darkslategray"@,
        140 => "lightgrey"@,
        141 => "darkgrey"@,
        142 => "dimgrey"@,
        143 => "grey"@,
        144 => "lightslategrey"@,
        145 => "slategrey"@,
        146 => "darkslategrey"@,
        _ => "black"@,
    }
}

/// The value of entry `i` of the table, as `0xRRGGBB`.
pub open spec fn table_value(i: usize) -> u32 {
    match i {
        0 => 0xffc0cb,
        1 => 0xffb6c1,
        2 => 0xff69b4,
        3 => 0xff1493,
        4 => 0xdb7093,
        5 => 0xc71585,
        6 => 0xe6e6fa,
        7 => 0xd8bfd8,
        8 => 0xdda0dd,
        9 => 0xda70d6,
        10 => 0xee82ee,
        11 => 0xff00ff,
        12 => 0xff00ff,
        13 => 0xba55d3,
        14 => 0x9932cc,
        15 => 0x9400d3,
        16 => 0x8a2be2,
        17 => 0x8b008b,
        18 => 0x800080,
        19 => 0x9370db,
        20 => 0x7b68ee,
        21 => 0x6a5acd,
        22 => 0x483d8b,
        23 => 0x663399,
        24 => 0x4b0082,
        25 => 0xffa07a,
        26 => 0xfa8072,
        27 => 0xe9967a,
        28 => 0xf08080,
        29 => 0xcd5c5c,
        30 => 0xdc143c,
        31 => 0xff0000,
        32 => 0xb22222,
        33 => 0x8b0000,
        34 => 0xffa500,
        35 => 0xff8c00,
        36 => 0xff7f50,
        37 => 0xff6347,
        38 => 0xff4500,
        39 => 0xffd700,
        40 => 0xffff00,
        41 => 0xffffe0,
        42 => 0xfffacd,
        43 => 0xfafad2,
        44 => 0xffefd5,
        45 => 0xffe4b5,
        46 => 0xffdab9,
        47 => 0xeee8aa,
        48 => 0xf0e68c,
        49 => 0xbdb76b,
        50 => 0xadff2f,
        51 => 0x7fff00,
        52 => 0x7cfc00,
        53 => 0x00ff00,
        54 => 0x32cd32,
        55 => 0x98fb98,
        56 => 0x90ee90,
        57 => 0x00fa9a,
        58 => 0x00ff7f,
        59 => 0x3cb371,
        60 => 0x2e8b57,
        61 => 0x228b22,
        62 => 0x008000,
        63 => 0x006400,
        64 => 0x9acd32,
        65 => 0x6b8e23,
        66 => 0x556b2f,
        67 => 0x66cdaa,
        68 => 0x8fbc8f,
        69 => 0x20b2aa,
        70 => 0x008b8b,
        71 => 0x008080,
        72 => 0x00ffff,
        73 => 0x00ffff,
        74 => 0xe0ffff,
        75 => 0xafeeee,
        76 => 0x7fffd4,
        77 => 0x40e0d0,
        78 => 0x48d1cc,
        79 => 0x00ced1,
        80 => 0x5f9ea0,
        81 => 0x4682b4,
        82 => 0xb0c4de,
        83 => 0xadd8e6,
        84 => 0xb0e0e6,
        85 => 0x87cefa,
        86 => 0x87ceeb,
        87 => 0x6495ed,
        88 => 0x00bfff,
        89 => 0x1e90ff,
        90 => 0x4169e1,
        91 => 0x0000ff,
        92 => 0x0000cd,
        93 => 0x00008b,
        94 => 0x000080,
        95 => 0x191970,
        96 => 0xfff8dc,
        97 => 0xffebcd,
        98 => 0xffe4c4,
        99 => 0xffdead,
        100 => 0xf5deb3,
        101 => 0xdeb887,
        102 => 0xd2b48c,
        103 => 0xbc8f8f,
        104 => 0xf4a460,
        105 => 0xdaa520,
        106 => 0xb8860b,
        107 => 0xcd853f,
        108 => 0xd2691e,
        109 => 0x808000,
        110 => 0x8b4513,
        111 => 0xa0522d,
        112 => 0xa52a2a,
        113 => 0x800000,
        114 => 0xffffff,
        115 => 0xfffafa,
        116 => 0xf0fff0,
        117 => 0xf5fffa,
        118 => 0xf0ffff,
        119 => 0xf0f8ff,
        120 => 0xf8f8ff,
        121 => 0xf5f5f5,
        122 => 0xfff5ee,
        123 => 0xf5f5dc,
        124 => 0xfdf5e6,
        125 => 0xfffaf0,
        126 => 0xfffff0,
        127 => 0xfaebd7,
        128 => 0xfaf0e6,
        129 => 0xfff0f5,
        130 => 0xffe4e1,
        131 => 0xdcdcdc,
        132 => 0xd3d3d3,
        133 => 0xc0c0c0,
        134 => 0xa9a9a9,
        135 => 0x696969,
        136 => 0x808080,
        137 => 0x778899,
        138 => 0x708090,
        139 => 0x2f4f4f,
        140 => 0xd3d3d3,
        141 => 0xa9a9a9,
        142 => 0x696969,
        143 => 0x808080,
        144 => 0x778899,
        145 => 0x708090,
        146 => 0x2f4f4f,
        _ => 0x000000,
    }
}

/// Entry `i` of the HTML color table: its lowercase name and its value as
/// `0xRRGGBB`. The names are those listed by w3schools' color groups.
pub fn entry(i: usize) -> (r: (&'static str, u32))
    requires
        i < TABLE_LEN,
    ensures
        r.0@ == table_name(i),
        r.1 == table_value(i),
{
    match i {
        0 => ("pink", 0xffc0cb),
        1 => ("lightpink", 0xffb6c1),
        2 => ("hotpink", 0xff69b4),
        3 => ("deeppink", 0xff1493),
        4 => ("palevioletred", 0xdb7093),
        5 => ("mediumvioletred", 0xc71585),
        6 => ("lavender", 0xe6e6fa),
        7 => ("thistle", 0xd8bfd8),
        8 => ("plum", 0xdda0dd),
        9 => ("orchid", 0xda70d6),
        10 => ("violet", 0xee82ee),
        11 => ("fuchsia", 0xff00ff),
        12 => ("magenta", 0xff00ff),
        13 => ("mediumorchid", 0xba55d3),
        14 => ("darkorchid", 0x9932cc),
        15 => ("darkviolet", 0x9400d3),
        16 => ("blueviolet", 0x8a2be2),
        17 => ("darkmagenta", 0x8b008b),
        18 => ("purple", 0x800080),
        19 => ("mediumpurple", 0x9370db),
        20 => ("mediumslateblue", 0x7b68ee),
        21 => ("slateblue", 0x6a5acd),
        22 => ("darkslateblue", 0x483d8b),
        23 => ("rebeccapurple", 0x663399),
        24 => ("indigo", 0x4b0082),
        25 => ("lightsalmon", 0xffa07a),
        26 => ("salmon", 0xfa8072),
        27 => ("darksalmon", 0xe9967a),
        28 => ("lightcoral", 0xf08080),
        29 => ("indianred", 0xcd5c5c),
        30 => ("crimson", 0xdc143c),
        31 => ("red", 0xff0000),
        32 => ("firebrick", 0xb22222),
        33 => ("darkred", 0x8b0000),
        34 => ("orange", 0xffa500),
        35 => ("darkorange", 0xff8c00),
        36 => ("coral", 0xff7f50),
        37 => ("tomato", 0xff6347),
        38 => ("orangered", 0xff4500),
        39 => ("gold", 0xffd700),
        40 => ("yellow", 0xffff00),
        41 => ("lightyellow", 0xffffe0),
        42 => ("lemonchiffon", 0xfffacd),
        43 => ("lightgoldenrodyellow", 0xfafad2),
        44 => ("papayawhip", 0xffefd5),
        45 => ("moccasin", 0xffe4b5),
        46 => ("peachpuff", 0xffdab9),
        47 => ("palegoldenrod", 0xeee8aa),
        48 => ("khaki", 0xf0e68c),
        49 => ("darkkhaki", 0xbdb76b),
        50 => ("greenyellow", 0xadff2f),
        51 => ("chartreuse", 0x7fff00),
        52 => ("lawngreen", 0x7cfc00),
        53 => ("lime", 0x00ff00),
        54 => ("limegreen", 0x32cd32),
        55 => ("palegreen", 0x98fb98),
        56 => ("lightgreen", 0x90ee90),
        57 => ("mediumspringgreen", 0x00fa9a),
        58 => ("springgreen", 0x00ff7f),
        59 => ("mediumseagreen", 0x3cb371),
        60 => ("seagreen", 0x2e8b57),
        61 => ("forestgreen", 0x228b22),
        62 => ("green", 0x008000),
        63 => ("darkgreen", 0x006400),
        64 => ("yellowgreen", 0x9acd32),
        65 => ("olivedrab", 0x6b8e23),
        66 => ("darkolivegreen", 0x556b2f),
        67 => ("mediumaquamarine", 0x66cdaa),
        68 => ("darkseagreen", 0x8fbc8f),
        69 => ("lightseagreen", 0x20b2aa),
        70 => ("darkcyan", 0x008b8b),
        71 => ("teal", 0x008080),
        72 => ("aqua", 0x00ffff),
        73 => ("cyan", 0x00ffff),
        74 => ("lightcyan", 0xe0ffff),
        75 => ("paleturquoise", 0xafeeee),
        76 => ("aquamarine", 0x7fffd4),
        77 => ("turquoise", 0x40e0d0),
        78 => ("mediumturquoise", 0x48d1cc),
        79 => ("darkturquoise", 0x00ced1),
        80 => ("cadetblue", 0x5f9ea0),
        81 => ("steelblue", 0x4682b4),
        82 => ("lightsteelblue", 0xb0c4de),
        83 => ("lightblue", 0xadd8e6),
        84 => ("powderblue", 0xb0e0e6),
        85 => ("lightskyblue", 0x87cefa),
        86 => ("skyblue", 0x87ceeb),
        87 => ("cornflowerblue", 0x6495ed),
        88 => ("deepskyblue", 0x00bfff),
        89 => ("dodgerblue", 0x1e90ff),
        90 => ("royalblue", 0x4169e1),
        91 => ("blue", 0x0000ff),
        92 => ("mediumblue", 0x0000cd),
        93 => ("darkblue", 0x00008b),
        94 => ("navy", 0x000080),
        95 => ("midnightblue", 0x191970),
        96 => ("cornsilk", 0xfff8dc),
        97 => ("blanchedalmond", 0xffebcd),
        98 => ("bisque", 0xffe4c4),
        99 => ("navajowhite", 0xffdead),
        100 => ("wheat", 0xf5deb3),
        101 => ("burlywood", 0xdeb887),
        102 => ("tan", 0xd2b48c),
        103 => ("rosybrown", 0xbc8f8f),
        104 => ("sandybrown", 0xf4a460),
        105 => ("goldenrod", 0xdaa520),
        106 => ("darkgoldenrod", 0xb8860b),
        107 => ("peru", 0xcd853f),
        108 => ("chocolate", 0xd2691e),
        109 => ("olive", 0x808000),
        110 => ("saddlebrown", 0x8b4513),
        111 => ("sienna", 0xa0522d),
        112 => ("brown", 0xa52a2a),
        113 => ("maroon", 0x800000),
        114 => ("white", 0xffffff),
        115 => ("snow", 0xfffafa),
        116 => ("honeydew", 0xf0fff0),
        117 => ("mintcream", 0xf5fffa),
        118 => ("azure", 0xf0ffff),
        119 => ("aliceblue", 0xf0f8ff),
        120 => ("ghostwhite", 0xf8f8ff),
        121 => ("whitesmoke", 0xf5f5f5),
        122 => ("seashell", 0xfff5ee),
        123 => ("beige", 0xf5f5dc),
        124 => ("oldlace", 0xfdf5e6),
        125 => ("floralwhite", 0xfffaf0),
        126 => ("ivory", 0xfffff0),
        127 => ("antiquewhite", 0xfaebd7),
        128 => ("linen", 0xfaf0e6),
        129 => ("lavenderblush", 0xfff0f5),
        130 => ("mistyrose", 0xffe4e1),
        131 => ("gainsboro", 0xdcdcdc),
        132 => ("lightgray", 0xd3d3d3),
        133 => ("silver", 0xc0c0c0),
        134 => ("darkgray", 0xa9a9a9),
        135 => ("dimgray", 0x696969),
        136 => ("gray", 0x808080),
        137 => ("lightslategray", 0x778899),
        138 => ("slategray", 0x708090),
        139 => ("darkslategray", 0x2f4f4f),
        140 => ("lightgrey", 0xd3d3d3),
        141 => ("darkgrey", 0xa9a9a9),
        142 => ("dimgrey", 0x696969),
        143 => ("grey", 0x808080),
        144 => ("lightslategrey", 0x778899),
        145 => ("slategrey", 0x708090),
        146 => ("darkslategrey", 0x2f4f4f),
        _ => ("black", 0x000000),
    }
}

/// Whether `i` is the first entry whose name is `name`.
pub open spec fn first_named(name: Seq<char>, i: usize) -> bool {
    i < TABLE_LEN && name == table_name(i)
        && forall|j: usize| j < i ==> name != #[trigger] table_name(j)
}

/// Whether `i` is the first entry whose value is `value`.
pub open spec fn first_valued(value: u32, i: usize) -> bool {
    i < TABLE_LEN && table_value(i) == value
        && forall|j: usize| j < i ==> #[trigger] table_value(j) != value
}

/// At most one entry is the first to match a name.
pub proof fn lemma_first_named_unique(name: Seq<char>, i: usize, j: usize)
    requires
        first_named(name, i),
        first_named(name, j),
    ensures
        i == j,
{
}

/// What `str::to_lowercase` gives for a string: Unicode lowercasing, which
/// depends on the characters alone.
pub uninterp spec fn lower_of(s: Seq<char>) -> Seq<char>;

/// Relies on `str::to_lowercase`: it returns the Unicode lowercase form of
/// the string, a function of its characters alone.
#[verifier::external_body]
fn lowercase(s: &str) -> (r: String)
    ensures
        r@ == lower_of(s@),
{
    s.to_lowercase()
}

/// Looks up an HTML color by its name in lowercase, exactly; the value is
/// `0xRRGGBB`.
pub fn get_lowercase(name: &str) -> (r: Option<u32>)
    ensures
        r is None <==> forall|i: usize| i < TABLE_LEN ==> name@ != #[trigger] table_name(i),
        r matches Some(v) ==> exists|i: usize| first_named(name@, i) && table_value(i) == v,
{
    let w = chars_of(name);
    let mut i: usize = 0;
    while i < TABLE_LEN
        invariant
            w@ == name@,
            i <= TABLE_LEN,
            forall|j: usize| j < i ==> name@ != #[trigger] table_name(j),
        decreases TABLE_LEN - i,
    {
        let (k, v) = entry(i);
        let kc = chars_of(k);
        if seq_eq(&w, &kc) {
            assert(first_named(name@, i));
            return Some(v);
        }
        i = i + 1;
    }
    None
}

/// Looks up an HTML color by name, ignoring case: the name is lowercased
/// first, as `str::to_lowercase` does. The value is `0xRRGGBB`.
pub fn get(name: &str) -> (r: Option<u32>)
    ensures
        r is None <==> forall|i: usize| i < TABLE_LEN ==> lower_of(name@) != #[trigger] table_name(i),
        r matches Some(v) ==> exists|i: usize| first_named(lower_of(name@), i) && table_value(i) == v,
{
    let lower = lowercase(name);
    get_lowercase(lower.as_str())
}

/// The name of the first HTML color whose value is `value` (`0xRRGGBB`).
pub fn get_name(value: u32) -> (r: Option<&'static str>)
    ensures
        r is None <==> forall|i: usize| i < TABLE_LEN ==> #[trigger] table_value(i) != value,
        r matches Some(s) ==> exists|i: usize| first_valued(value, i) && s@ == table_name(i),
{
    let mut i: usize = 0;
    while i < TABLE_LEN
        invariant
            i <= TABLE_LEN,
            forall|j: usize| j < i ==> #[trigger] table_value(j) != value,
        decreases TABLE_LEN - i,
    {
        let (k, v) = entry(i);
        if v == value {
            assert(first_valued(value, i));
            return Some(k);
        }
        i = i + 1;
    }
    None
}

} // verus!
