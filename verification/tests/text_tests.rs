use provision::device::{BlockDevice, LsBlkOutput};
use provision::text::{
    contains_str, find_char, first_line_of, join_strings, lines_of, parse_u64, replace_str,
    rfind_char, str_eq, trim_of,
};

fn device_sized(size: &str) -> BlockDevice {
    BlockDevice {
        name: "sda".to_string(),
        majmin: "8:0".to_string(),
        rm: false,
        size: size.to_string(),
        ro: false,
        blocktype: "disk".to_string(),
        mountpoints: vec![],
        children: None,
    }
}

#[test]
fn substring_search_matches_str_contains() {
    assert!(contains_str("Status: install ok installed", "install ok"));
    assert!(!contains_str("short", "longer than the text"));
    assert!(contains_str("anything", ""));
    assert!(!contains_str("aab", "ab c"));
}

#[test]
fn char_search_finds_first_and_last() {
    assert_eq!(find_char("key=value=x", '='), Some(3));
    assert_eq!(find_char("novalue", '='), None);
    assert_eq!(rfind_char("/data/src/repo", '/'), Some(9));
    assert_eq!(rfind_char("repo", '/'), None);
}

#[test]
fn lines_split_like_str_lines() {
    assert_eq!(lines_of("a\nb\n"), vec!["a".to_string(), "b".to_string()]);
    assert_eq!(lines_of("a\r\nb"), vec!["a".to_string(), "b".to_string()]);
    assert_eq!(lines_of("a\n\n"), vec!["a".to_string(), "".to_string()]);
    assert_eq!(lines_of(""), Vec::<String>::new());
    assert_eq!(first_line_of("first\nsecond"), "first");
    assert_eq!(first_line_of(""), "");
}

#[test]
fn trimming_and_joining_behave_like_std() {
    assert_eq!(trim_of("  spaced \t\n"), "spaced");
    assert_eq!(trim_of(""), "");
    assert_eq!(
        join_strings(&vec!["a".to_string(), "b".to_string(), "c".to_string()], ", "),
        "a, b, c"
    );
    assert_eq!(join_strings(&Vec::new(), " "), "");
    assert!(str_eq("same", "same"));
    assert!(!str_eq("same", "Same"));
}

#[test]
fn replacement_removes_every_occurrence() {
    assert_eq!(
        replace_str("E: Unable to locate package foo", "Unable to locate package ", ""),
        "E: foo"
    );
    assert_eq!(replace_str("ababab", "ab", "x"), "xxx");
    assert_eq!(replace_str("aaa", "aa", "b"), "ba");
}

#[test]
fn decimal_parsing_rejects_junk_and_overflow() {
    assert_eq!(parse_u64("512"), Some(512));
    assert_eq!(parse_u64("0"), Some(0));
    assert_eq!(parse_u64(""), None);
    assert_eq!(parse_u64("12a"), None);
    assert_eq!(parse_u64("-3"), None);
    assert_eq!(parse_u64("18446744073709551615"), Some(u64::MAX));
    assert_eq!(parse_u64("18446744073709551616"), None);
}

#[test]
fn misplaced_or_repeated_unit_letters_do_not_parse() {
    assert_eq!(device_sized("1G5").size(), 0);
    assert_eq!(device_sized("5GG").size(), 0);
    assert_eq!(device_sized("2TT").size(), 0);
}

#[test]
fn oversized_reports_saturate() {
    let listing = LsBlkOutput { blockdevices: vec![device_sized("99999999999999999T")] };
    assert_eq!(listing.blockdevices[0].size(), u64::MAX);
}
