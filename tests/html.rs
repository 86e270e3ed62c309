use colo::html::{entry, get, get_lowercase, get_name, TABLE_LEN};

#[test]
fn lookup_ignores_case() {
    assert_eq!(get("orange"), Some(0xffa500));
    assert_eq!(get("RebeccaPurple"), Some(0x663399));
    assert_eq!(get("BLUE"), Some(0x0000ff));
    assert_eq!(get("rebecapurple"), None);
    assert_eq!(get(""), None);
}

#[test]
fn reverse_lookup_takes_first_entry() {
    assert_eq!(get_name(0x663399), Some("rebeccapurple"));
    assert_eq!(get_name(0x00ffff), Some("aqua"));
    assert_eq!(get_name(0x808080), Some("gray"));
    assert_eq!(get_name(0x123457), None);
}

#[test]
fn table_names_are_unique_and_lowercase() {
    let names: Vec<&str> = (0..TABLE_LEN).map(|i| entry(i).0).collect();
    for (i, a) in names.iter().enumerate() {
        assert_eq!(a.to_lowercase(), *a);
        for b in &names[i + 1..] {
            assert_ne!(a, b);
        }
        assert_eq!(get(a), Some(entry(i).1));
    }
}

#[test]
fn lookup_lowercases_with_unicode_rules() {
    // U+212A KELVIN SIGN lowercases to an ASCII `k`.
    assert_eq!(get("pin\u{212A}"), Some(0xffc0cb));
    assert_eq!(get("DARK\u{212A}HAKI"), Some(0xbdb76b));
    assert_eq!(get("ORANGE"), Some(0xffa500));
}

#[test]
fn lowercase_lookup_is_exact() {
    assert_eq!(get_lowercase("orange"), Some(0xffa500));
    assert_eq!(get_lowercase("Orange"), None);
    assert_eq!(get_lowercase("grey"), Some(0x808080));
    assert_eq!(get_lowercase("oran"), None);
}
