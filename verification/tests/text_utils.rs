use versioned_api::text::{
    clone_strings, dec_str_u32, hex2_str_u32, parse_u32, path_file_name, path_join,
    split_string, str_ends_with, str_eq, str_starts_with, to_ascii_upper,
};

#[test]
fn decimal_rendering_is_exact() {
    assert_eq!(dec_str_u32(0), "0");
    assert_eq!(dec_str_u32(7), "7");
    assert_eq!(dec_str_u32(10), "10");
    assert_eq!(dec_str_u32(4294967295), "4294967295");
}

#[test]
fn hexadecimal_rendering_pads_to_two_digits() {
    assert_eq!(hex2_str_u32(0), "00");
    assert_eq!(hex2_str_u32(3), "03");
    assert_eq!(hex2_str_u32(10), "0a");
    assert_eq!(hex2_str_u32(16), "10");
    assert_eq!(hex2_str_u32(255), "ff");
    assert_eq!(hex2_str_u32(256), "100");
}

#[test]
fn parsing_accepts_decimal_u32_numerals() {
    assert_eq!(parse_u32("0"), Some(0));
    assert_eq!(parse_u32("38"), Some(38));
    assert_eq!(parse_u32("+7"), Some(7));
    assert_eq!(parse_u32("007"), Some(7));
    assert_eq!(parse_u32("4294967295"), Some(4294967295));
}

#[test]
fn parsing_rejects_everything_else() {
    assert_eq!(parse_u32(""), None);
    assert_eq!(parse_u32("+"), None);
    assert_eq!(parse_u32("12a"), None);
    assert_eq!(parse_u32("-3"), None);
    assert_eq!(parse_u32("4294967296"), None);
    assert_eq!(parse_u32("99999999999999999999"), None);
}

#[test]
fn upper_casing_touches_only_ascii_letters() {
    assert_eq!(to_ascii_upper("versioned_save_snapshot"), "VERSIONED_SAVE_SNAPSHOT");
    assert_eq!(to_ascii_upper("abc-XYZ.9"), "ABC-XYZ.9");
    assert_eq!(to_ascii_upper(""), "");
}

#[test]
fn file_names_skip_trailing_slashes_and_dots() {
    assert_eq!(path_file_name("/a/b/c"), Some("c".to_string()));
    assert_eq!(path_file_name("plain"), Some("plain".to_string()));
    assert_eq!(path_file_name("/usr/bin/"), Some("bin".to_string()));
    assert_eq!(path_file_name("/a/b//"), Some("b".to_string()));
    assert_eq!(path_file_name("/a/b/."), Some("b".to_string()));
    assert_eq!(path_file_name("/a/.."), None);
    assert_eq!(path_file_name("/a/../"), None);
    assert_eq!(path_file_name(".."), None);
    assert_eq!(path_file_name("."), None);
    assert_eq!(path_file_name(""), None);
    assert_eq!(path_file_name("/"), None);
}

#[test]
fn joining_inserts_a_slash_only_when_needed() {
    assert_eq!(path_join("/a/b", "c"), "/a/b/c");
    assert_eq!(path_join("/a/b/", "c"), "/a/b/c");
    assert_eq!(path_join("", "c"), "c");
}

#[test]
fn splitting_keeps_empty_components() {
    let parts = split_string("3.9.10", '.');
    assert_eq!(parts, vec!["3".to_string(), "9".to_string(), "10".to_string()]);
    let parts = split_string("", '.');
    assert_eq!(parts, vec!["".to_string()]);
    let parts = split_string("a..b.", '.');
    assert_eq!(
        parts,
        vec!["a".to_string(), "".to_string(), "b".to_string(), "".to_string()]
    );
}

#[test]
fn string_predicates_compare_characters() {
    assert!(str_eq("abc", "abc"));
    assert!(!str_eq("abc", "abd"));
    assert!(!str_eq("abc", "ab"));
    assert!(str_starts_with("python3.9", "python"));
    assert!(!str_starts_with("py", "python"));
    assert!(str_ends_with("libpython3.9.so", ".so"));
    assert!(!str_ends_with("libpython3.9.so.1.0", ".so"));
}

#[test]
fn cloning_strings_copies_every_element() {
    let v = vec!["a".to_string(), "b".to_string()];
    assert_eq!(clone_strings(&v), v);
}
