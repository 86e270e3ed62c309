use colo::space::{ColorSpace, ComponentError, ComponentRange, Placement};
use Placement::{Above, Below, Inside};

const ALL: [ColorSpace; 12] = [
    ColorSpace::Rgb,
    ColorSpace::Cmy,
    ColorSpace::Cmyk,
    ColorSpace::Hsv,
    ColorSpace::Hsl,
    ColorSpace::Lch,
    ColorSpace::Luv,
    ColorSpace::Lab,
    ColorSpace::HunterLab,
    ColorSpace::Xyz,
    ColorSpace::Yxy,
    ColorSpace::Gray,
];

#[test]
fn component_counts() {
    assert_eq!(ColorSpace::Cmyk.num_components(), 4);
    assert_eq!(ColorSpace::Gray.num_components(), 1);
    assert_eq!(ColorSpace::Rgb.num_components(), 3);
    assert_eq!(ColorSpace::Yxy.num_components(), 3);
}

#[test]
fn names_parse_back() {
    for space in ALL {
        assert_eq!(ColorSpace::from_name(space.name()), Ok(space));
        assert_eq!(ColorSpace::from_name(&space.name().to_uppercase()), Ok(space));
    }
    assert_eq!(ColorSpace::Gray.name(), "gry");
    assert_eq!(ColorSpace::from_name("HunterLab"), Ok(ColorSpace::HunterLab));
    assert!(ColorSpace::from_name("rgba").is_err());
    assert!(ColorSpace::from_name("").is_err());
    assert_eq!(ColorSpace::from_name("gray"), Ok(ColorSpace::Gray));
    assert_eq!(ColorSpace::from_name("GRAY"), Ok(ColorSpace::Gray));
    assert!(ColorSpace::from_name("grey").is_err());
    assert_eq!("LAB".parse::<ColorSpace>(), Ok(ColorSpace::Lab));
}

#[test]
fn component_names_in_canonical_order() {
    let yxy: Vec<&str> = (0..3).map(|i| ColorSpace::Yxy.component_name(i)).collect();
    assert_eq!(yxy, ["y1", "x", "y2"]);
    let lch: Vec<&str> = (0..3).map(|i| ColorSpace::Lch.component_name(i)).collect();
    assert_eq!(lch, ["l", "c", "h"]);
    assert_eq!(ColorSpace::Cmyk.component_name(3), "k");
}

#[test]
fn component_ranges() {
    assert_eq!(ColorSpace::Rgb.component_range(1), Some(ComponentRange { min: 0, max: 255 }));
    assert_eq!(ColorSpace::Hsv.component_range(0), Some(ComponentRange { min: -360, max: 360 }));
    assert_eq!(ColorSpace::Luv.component_range(1), Some(ComponentRange { min: -134, max: 220 }));
    assert_eq!(ColorSpace::Luv.component_range(2), Some(ComponentRange { min: -140, max: 122 }));
    assert_eq!(ColorSpace::Lab.component_range(1), None);
    assert_eq!(ColorSpace::Xyz.component_range(0), None);
    assert_eq!(ColorSpace::Gray.component_range(0), Some(ComponentRange { min: 0, max: 1 }));
}

#[test]
fn negative_rgb_component() {
    assert_eq!(
        ColorSpace::Rgb.validate(&vec![Below, Inside, Inside]),
        Err(ComponentError::Negative { index: 0, component: "r" })
    );
}

#[test]
fn rgb_component_above_range() {
    assert_eq!(
        ColorSpace::Rgb.validate(&vec![Above, Inside, Inside]),
        Err(ComponentError::OutOfRange { index: 0, component: "r", min: 0, max: 255 })
    );
}

#[test]
fn cmyk_needs_four_components() {
    assert_eq!(
        ColorSpace::Cmyk.validate(&vec![Inside, Inside, Inside]),
        Err(ComponentError::NumberOfComponents { expected: 4, got: 3 })
    );
}

#[test]
fn hue_below_nonzero_minimum_is_out_of_range() {
    assert_eq!(
        ColorSpace::Hsl.validate(&vec![Below, Inside, Inside]),
        Err(ComponentError::OutOfRange { index: 0, component: "h", min: -360, max: 360 })
    );
    assert_eq!(
        ColorSpace::Hsl.validate(&vec![Above, Inside, Inside]),
        Err(ComponentError::OutOfRange { index: 0, component: "h", min: -360, max: 360 })
    );
}

#[test]
fn first_violation_is_reported() {
    assert_eq!(
        ColorSpace::Cmyk.validate(&vec![Inside, Inside, Above, Below]),
        Err(ComponentError::OutOfRange { index: 2, component: "y", min: 0, max: 1 })
    );
    assert_eq!(ColorSpace::Xyz.validate(&vec![Below, Above, Below]), Ok(()));
    assert_eq!(ColorSpace::Lab.validate(&vec![Inside, Above, Below]), Ok(()));
    assert_eq!(ColorSpace::Gray.validate(&vec![Inside]), Ok(()));
    assert_eq!(ColorSpace::Rgb.check_component(2, Below), Err(ComponentError::Negative { index: 2, component: "b" }));
}
