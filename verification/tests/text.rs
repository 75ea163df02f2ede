use cargo_llvm::text::{
    chars_of, followed_by, decimal_text, has_prefix, has_suffix, is_before, join, parse_u64, push_text,
    same_ignoring_case, same_text, to_lower,
};

#[test]
fn chars_are_read_in_order() {
    assert_eq!(chars_of("aé☃"), vec!['a', 'é', '☃']);
    assert_eq!(chars_of(""), Vec::<char>::new());
}

#[test]
fn only_ascii_capitals_become_small() {
    assert_eq!(to_lower('A'), 'a');
    assert_eq!(to_lower('Z'), 'z');
    assert_eq!(to_lower('m'), 'm');
    assert_eq!(to_lower('@'), '@');
    assert_eq!(to_lower('['), '[');
    assert_eq!(to_lower('É'), 'É');
    for c in ['A', 'q', 'Z', '0', 'É', ' '] {
        assert_eq!(to_lower(c), c.to_ascii_lowercase());
    }
}

#[test]
fn same_text_compares_characters() {
    assert!(same_text("", ""));
    assert!(same_text("llvm", "llvm"));
    assert!(!same_text("llvm", "LLVM"));
    assert!(!same_text("llvm", "llvm "));
    assert!(!same_text("llvm", "llvn"));
}

#[test]
fn same_ignoring_case_compares_small_letters() {
    assert!(same_ignoring_case("Ninja", "nINJA"));
    assert!(same_ignoring_case("", ""));
    assert!(!same_ignoring_case("ninja", "ninj"));
    assert!(!same_ignoring_case("É", "é"));
    assert!(!same_ignoring_case("a[", "a{"));
}

#[test]
fn suffix_and_prefix() {
    assert!(has_suffix("llvm.tar.gz", ".tar.gz"));
    assert!(has_suffix("llvm.tar.gz", ""));
    assert!(has_suffix(".tar.gz", ".tar.gz"));
    assert!(!has_suffix("tar.gz", ".tar.gz"));
    assert!(!has_suffix("llvm.tar.gz", ".tar.xz"));
    assert!(has_prefix("/svn/llvm", "/svn"));
    assert!(has_prefix("/svn", "/svn"));
    assert!(has_prefix("/svnx", "/svn"));
    assert!(!has_prefix("/sv", "/svn"));
    assert!(!has_prefix("x/svn", "/svn"));
}

#[test]
fn decimal_text_writes_base_ten() {
    assert_eq!(decimal_text(0), "0");
    assert_eq!(decimal_text(7), "7");
    assert_eq!(decimal_text(10), "10");
    assert_eq!(decimal_text(18), "18");
    assert_eq!(decimal_text(1009), "1009");
    assert_eq!(decimal_text(u64::MAX), "18446744073709551615");
}

#[test]
fn join_puts_the_separator_between() {
    let none: Vec<String> = vec![];
    assert_eq!(join(&none, ";"), "");
    assert_eq!(join(&vec!["X86".to_string()], ";"), "X86");
    assert_eq!(join(&vec!["X86".to_string(), "ARM".to_string(), "".to_string()], ";"), "X86;ARM;");
    assert_eq!(join(&vec!["a".to_string(), "b".to_string()], ""), "ab");
}

#[test]
fn followed_by_and_push_text() {
    assert_eq!(followed_by("-D", "X"), "-DX");
    let mut list = vec!["a".to_string()];
    push_text(&mut list, "b");
    assert_eq!(list, vec!["a".to_string(), "b".to_string()]);
}

#[test]
fn parse_u64_reads_digits() {
    assert_eq!(parse_u64("0"), Some(0));
    assert_eq!(parse_u64("007"), Some(7));
    assert_eq!(parse_u64("+42"), Some(42));
    assert_eq!(parse_u64("123456789"), Some(123456789));
    assert_eq!(parse_u64("18446744073709551615"), Some(u64::MAX));
    assert_eq!(parse_u64("18446744073709551616"), None);
    assert_eq!(parse_u64("99999999999999999999999"), None);
    assert_eq!(parse_u64(""), None);
    assert_eq!(parse_u64("+"), None);
    assert_eq!(parse_u64("-1"), None);
    assert_eq!(parse_u64("++1"), None);
    assert_eq!(parse_u64("1+"), None);
    assert_eq!(parse_u64(" 1"), None);
    assert_eq!(parse_u64("1 "), None);
    assert_eq!(parse_u64("12a"), None);
    assert_eq!(parse_u64("١٢"), None);
    assert_eq!(parse_u64("99999999999999999999999x"), None);
}

#[test]
fn parse_u64_agrees_with_std() {
    for text in ["0", "+0", "10", "+", "", "-0", "1_000", "18446744073709551615", "18446744073709551616", "0x10"] {
        assert_eq!(parse_u64(text), text.parse::<u64>().ok());
    }
}

#[test]
fn dictionary_order() {
    assert!(is_before("", "a"));
    assert!(!is_before("", ""));
    assert!(!is_before("a", ""));
    assert!(is_before("a", "b"));
    assert!(is_before("a", "ab"));
    assert!(!is_before("ab", "a"));
    assert!(is_before("ab", "b"));
    assert!(is_before("B", "a"));
    assert!(!is_before("abc", "abc"));
    for (a, b) in [("CMAKE", "LLVM"), ("a", "é"), ("z", "é"), ("x1", "x10")] {
        assert_eq!(is_before(a, b), a < b);
        assert_eq!(is_before(b, a), b < a);
    }
}
