use machine_rs::text::{begins_with, contains_text, decimal, same_text, split_on};

#[test]
fn texts_are_compared_by_their_characters() {
    assert!(same_text("elastic", "elastic"));
    assert!(!same_text("elastic", "Elastic"));
    assert!(!same_text("elastic", "elasti"));
    assert!(same_text("", ""));
    assert!(same_text("é-ü", "é-ü"));
}

#[test]
fn a_text_begins_with_its_prefixes() {
    assert!(begins_with("io1", "io"));
    assert!(begins_with("io", "io"));
    assert!(begins_with("io", ""));
    assert!(begins_with("", ""));
    assert!(!begins_with("i", "io"));
    assert!(!begins_with("gp3", "io"));
    assert!(!begins_with("xio", "io"));
    assert!(begins_with("éa", "é"));
}

#[test]
fn a_text_is_found_wherever_it_stands() {
    assert!(contains_text("abcdef", "abc"));
    assert!(contains_text("abcdef", "cde"));
    assert!(contains_text("abcdef", "def"));
    assert!(contains_text("abcdef", "abcdef"));
    assert!(contains_text("abcdef", ""));
    assert!(contains_text("", ""));
    assert!(!contains_text("abcdef", "abd"));
    assert!(!contains_text("abcdef", "abcdefg"));
    assert!(!contains_text("", "a"));
    assert!(contains_text("aab", "ab"));
    assert!(contains_text("ñandú ñ", "dú ñ"));
}

#[test]
fn numbers_are_written_in_decimal() {
    assert_eq!(decimal(0), "0");
    assert_eq!(decimal(7), "7");
    assert_eq!(decimal(10), "10");
    assert_eq!(decimal(100), "100");
    assert_eq!(decimal(3000), "3000");
    assert_eq!(decimal(4294967295), "4294967295");
    assert_eq!(decimal(u64::MAX), "18446744073709551615");
    for n in [1u64, 9, 11, 99, 101, 12345, 1_000_000_007] {
        assert_eq!(decimal(n), n.to_string());
    }
}

#[test]
fn a_text_is_cut_at_its_separators() {
    assert_eq!(split_on("subnet-1,subnet-2,subnet-3", ','), vec!["subnet-1", "subnet-2", "subnet-3"]);
    assert_eq!(split_on("one", ','), vec!["one"]);
    assert_eq!(split_on("", ','), vec![""]);
    assert_eq!(split_on(",", ','), vec!["", ""]);
    assert_eq!(split_on("a,,b", ','), vec!["a", "", "b"]);
    assert_eq!(split_on(",a,", ','), vec!["", "a", ""]);
    assert_eq!(split_on("é,ü", ','), vec!["é", "ü"]);
    for s in ["a-b-c", "--", "x", "", "-x--y-"] {
        let expected: Vec<String> = s.split('-').map(|p| p.to_string()).collect();
        assert_eq!(split_on(s, '-'), expected);
    }
}
