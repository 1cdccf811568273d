use plugin_host::fonts::{find_stand_in, show_family};
use plugin_host::text::{ends_with, same_text, sorts_before, to_decimal, trim, underscore_dots};

#[test]
fn numbers_are_written_in_decimal() {
    assert_eq!(to_decimal(0), "0");
    assert_eq!(to_decimal(9), "9");
    assert_eq!(to_decimal(10), "10");
    assert_eq!(to_decimal(57116), "57116");
    assert_eq!(to_decimal(u64::MAX), "18446744073709551615");
}

#[test]
fn texts_are_the_same_character_by_character() {
    assert!(same_text("", ""));
    assert!(same_text("plugin", "plugin"));
    assert!(!same_text("plugin", "Plugin"));
    assert!(!same_text("plugin", "plugins"));
}

#[test]
fn dots_become_underscores() {
    assert_eq!(underscore_dots("com.example.counter"), "com_example_counter");
    assert_eq!(underscore_dots("..a_b"), "__a_b");
    assert_eq!(underscore_dots(""), "");
    assert_eq!(underscore_dots("\u{e9}.\u{4e2d}"), "\u{e9}_\u{4e2d}");
}

#[test]
fn suffixes_are_found() {
    assert!(ends_with("index.html", ".html"));
    assert!(ends_with(".html", ".html"));
    assert!(!ends_with("html", ".html"));
    assert!(!ends_with("index.html.bak", ".html"));
    assert!(ends_with("\u{4e2d}.js", ".js"));
    assert!(ends_with("anything", ""));
}

#[test]
fn strings_sort_by_code_points() {
    assert!(sorts_before("v18.0.0", "v20.0.0"));
    assert!(!sorts_before("v20.0.0", "v20.0.0"));
    assert!(!sorts_before("v20.0.1", "v20.0.0"));
    assert!(sorts_before("v20.0", "v20.0.0"));
    assert!(sorts_before("", "a"));
    assert!(!sorts_before("", ""));
    assert!(!sorts_before("v9.0.0", "v20.0.0"));
    for (a, b) in [("a", "b"), ("Z", "a"), ("\u{ffff}", "\u{10000}"), ("ab", "a"), ("x", "x")] {
        assert_eq!(sorts_before(a, b), a < b);
        assert_eq!(sorts_before(b, a), b < a);
    }
}

#[test]
fn fonts_have_stand_ins() {
    for (family, font) in [
        ("arial", "Liberation Sans"),
        ("arial black", "Archivo Black"),
        ("comic sans ms", "Comic Neue"),
        ("courier", "Courier Prime"),
        ("georgia", "Tinos"),
        ("impact", "Anton"),
        ("microsoft sans serif", "Liberation Serif"),
        ("tahoma", "Open Sans"),
        ("trebuchet ms", "Fira Sans"),
    ] {
        assert_eq!(find_stand_in(family), Some(font.to_owned()));
        assert_eq!(show_family(family.to_owned()), font);
        assert_eq!(show_family(family.to_uppercase()), font);
        assert_eq!(show_family(format!(" \t{}\u{a0}\n", family)), font);
    }
}

#[test]
fn fonts_without_stand_ins_are_kept() {
    for family in ["", "Fira Sans", "ariel", " Papyrus ", "arial  black", "\u{130}mpact"] {
        assert_eq!(show_family(family.to_owned()), family);
    }
}

#[test]
fn mixed_case_entries_are_not_met_by_normalised_names() {
    assert_eq!(find_stand_in("Courier New"), Some("Courier Prime".to_owned()));
    assert_eq!(find_stand_in("Times New Roman"), Some("Liberation Serif".to_owned()));
    assert_eq!(find_stand_in("Verdana"), Some("Open Sans".to_owned()));
    assert_eq!(find_stand_in("verdana"), None);
    for family in ["Courier New", "Times New Roman", "Verdana"] {
        assert_eq!(show_family(family.to_owned()), family);
    }
}

#[test]
fn stand_ins_are_shown_as_they_are() {
    for family in [
        "arial",
        "arial black",
        "comic sans ms",
        "courier",
        "georgia",
        "impact",
        "microsoft sans serif",
        "tahoma",
        "trebuchet ms",
    ] {
        let font = find_stand_in(family).unwrap();
        assert_eq!(show_family(font.clone()), font);
    }
}

#[test]
fn white_space_is_trimmed_at_the_ends() {
    for (text, trimmed) in [
        ("", ""),
        (" ", ""),
        (" \t\r\n\u{b}\u{c} ", ""),
        ("a", "a"),
        ("  a b\n", "a b"),
        ("\u{85}\u{a0}\u{1680}\u{2003}x\u{2028}\u{2029}\u{202f}\u{205f}\u{3000}", "x"),
        ("\u{200b}x\u{feff}", "\u{200b}x\u{feff}"),
        ("\u{e9} \u{e9} ", "\u{e9} \u{e9}"),
    ] {
        assert_eq!(trim(text), trimmed);
        assert_eq!(text.trim(), trimmed);
    }
}
