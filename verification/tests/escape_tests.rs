use diag_render::escape::{escape_data, escape_property};

fn chars(s: &str) -> Vec<char> {
    s.chars().collect()
}

#[test]
fn escape_property_all_specials() {
    let out = escape_property(&chars("a,b:c%d\r\n"));
    assert_eq!(out, chars("a%2Cb%3Ac%25d%0D%0A"));
}

#[test]
fn escape_data_specials() {
    let out = escape_data(&chars("a%b\r\n"));
    assert_eq!(out, chars("a%25b%0D%0A"));
}

#[test]
fn escape_data_leaves_colon_and_comma() {
    let out = escape_data(&chars("a,b:c"));
    assert_eq!(out, chars("a,b:c"));
}

#[test]
fn escape_property_plain_text_unchanged() {
    let out = escape_property(&chars("plain_path/no.specials"));
    assert_eq!(out, chars("plain_path/no.specials"));
}

#[test]
fn escape_empty() {
    assert_eq!(escape_data(&chars("")), chars(""));
    assert_eq!(escape_property(&chars("")), chars(""));
}

#[test]
fn escape_data_non_ascii_literal() {
    let out = escape_data(&chars("héllo%"));
    assert_eq!(out, chars("héllo%25"));
}
