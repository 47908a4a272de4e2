use govm::key::VersionKey;
use govm::text::{contains, parse_number, same_text, trim};
use govm::version::{key_from_captures, normalize, parse};

fn key(major: u32, minor: u32, patch: u32, prerelease: &str) -> VersionKey {
    VersionKey { major, minor, patch, prerelease: prerelease.to_string() }
}

#[test]
fn test_normalize_plain_version() {
    assert_eq!(normalize("1.21.0"), "1.21.0");
    assert_eq!(normalize("1.22.5"), "1.22.5");
}

#[test]
fn test_normalize_with_v_prefix() {
    assert_eq!(normalize("v1.21.0"), "1.21.0");
    assert_eq!(normalize("v1.22.5"), "1.22.5");
}

#[test]
fn test_normalize_with_go_prefix() {
    assert_eq!(normalize("go1.21.0"), "1.21.0");
    assert_eq!(normalize("go1.22.5"), "1.22.5");
}

#[test]
fn test_normalize_empty_string() {
    assert_eq!(normalize(""), "");
}

#[test]
fn normalize_strips_both_prefixes_in_either_order() {
    assert_eq!(normalize("vgo1.21.0"), "1.21.0");
    assert_eq!(normalize("gov1.21.0"), "1.21.0");
    assert_eq!(normalize("v1.21.0"), normalize("go1.21.0"));
    assert_eq!(normalize("go1.21.0"), normalize("1.21.0"));
}

#[test]
fn normalize_is_idempotent() {
    for input in ["v1.21.0", "go1.21.0", "gov1.2", "vvgo1", "1.21.0rc1", "", "v", "go", "g", "tip"] {
        let once = normalize(input);
        assert_eq!(normalize(&once), once);
    }
}

#[test]
fn normalize_is_case_sensitive_and_leaves_the_rest() {
    assert_eq!(normalize("V1.21.0"), "V1.21.0");
    assert_eq!(normalize("Go1.21.0"), "Go1.21.0");
    assert_eq!(normalize("1.21.0v"), "1.21.0v");
    assert_eq!(normalize("g1.21.0"), "g1.21.0");
    assert_eq!(normalize("v"), "");
    assert_eq!(normalize("go"), "");
    assert_eq!(normalize(" v1"), " v1");
}

#[test]
fn test_parse_full_version() {
    assert_eq!(parse("1.21.0"), key(1, 21, 0, ""));
    assert_eq!(parse("1.22.5"), key(1, 22, 5, ""));
    assert_eq!(parse("2.0.0"), key(2, 0, 0, ""));
}

#[test]
fn test_parse_version_without_patch() {
    assert_eq!(parse("1.21"), key(1, 21, 0, ""));
    assert_eq!(parse("1.22"), key(1, 22, 0, ""));
}

#[test]
fn test_parse_version_with_suffix() {
    assert_eq!(parse("1.21.0rc1"), key(1, 21, 0, "rc1"));
    assert_eq!(parse("1.22.0beta1"), key(1, 22, 0, "beta1"));
    assert_eq!(parse("1.23rc2"), key(1, 23, 0, "rc2"));
}

#[test]
fn test_parse_invalid_version() {
    assert_eq!(parse("invalid"), key(0, 0, 0, "invalid"));
    assert_eq!(parse(""), key(0, 0, 0, ""));
}

#[test]
fn test_version_comparison() {
    assert!(parse("1.22.0") > parse("1.21.0"));
    assert!(parse("1.21.5") > parse("1.21.0"));
    assert!(parse("2.0.0") > parse("1.99.99"));
}

#[test]
fn release_is_above_its_prereleases() {
    assert!(parse("1.21.0") > parse("1.21.0rc1"));
    assert!(parse("1.21.0rc1") < parse("1.21.0"));
    assert!(parse("1.21.0rc2") > parse("1.21.0rc1"));
    assert!(parse("1.21.0beta1") < parse("1.21.0rc1"));
    assert!(parse("1.21.0rc1") < parse("1.21.1rc1"));
}

#[test]
fn malformed_versions_are_lowest_and_distinct() {
    assert!(parse("invalid") < parse("0.0.1"));
    assert!(parse("invalid") < parse("0.0"));
    assert!(parse("invalid") != parse("other"));
    assert!(parse("aaa") < parse("aab"));
    assert!(parse("1.") == key(0, 0, 0, "1."));
    assert!(parse("1.2\n") == key(0, 0, 0, "1.2\n"));
}

#[test]
fn order_is_strict_and_total_on_samples() {
    let samples = ["1.21.0", "1.21.0rc1", "1.21", "1.22.0", "2.0.0", "invalid", "", "0.0", "1.21.0rc2"];
    for a in samples {
        assert!(!(parse(a) < parse(a)));
        assert!(parse(a) == parse(a));
        for b in samples {
            let less = parse(a) < parse(b);
            let greater = parse(a) > parse(b);
            let equal = parse(a) == parse(b);
            assert_eq!(less as u8 + greater as u8 + equal as u8, 1);
            assert_eq!(less, parse(b) > parse(a));
            assert_eq!(less, parse(a).less_than(&parse(b)));
            for c in samples {
                if less && parse(b) < parse(c) {
                    assert!(parse(a) < parse(c));
                }
            }
        }
    }
}

#[test]
fn numbers_that_do_not_fit_count_as_zero() {
    assert_eq!(parse("4294967295.1.2"), key(4294967295, 1, 2, ""));
    assert_eq!(parse("4294967296.1.2"), key(0, 1, 2, ""));
    assert_eq!(parse("1.99999999999.3"), key(1, 0, 3, ""));
    assert_eq!(parse("007.08.09"), key(7, 8, 9, ""));
}

#[test]
fn key_is_built_from_any_groups() {
    let whole = |s: &str| Some(s.to_string());
    let groups = Some(vec![whole("1.2.3x"), whole("1"), whole("2"), whole("3"), whole("x")]);
    assert_eq!(key_from_captures(&groups, "1.2.3x"), key(1, 2, 3, "x"));
    let no_patch = Some(vec![whole("1.2"), whole("1"), whole("2"), None, whole("")]);
    assert_eq!(key_from_captures(&no_patch, "1.2"), key(1, 2, 0, ""));
    let short = Some(vec![whole("7"), whole("7")]);
    assert_eq!(key_from_captures(&short, "7"), key(7, 0, 0, ""));
    let odd = Some(vec![whole("+5.x"), whole("+5"), whole("x"), whole(""), None]);
    assert_eq!(key_from_captures(&odd, "+5.x"), key(5, 0, 0, ""));
    assert_eq!(key_from_captures(&None, "whatever"), key(0, 0, 0, "whatever"));
}

#[test]
fn parse_number_reads_decimal_digits() {
    assert_eq!(parse_number("0"), 0);
    assert_eq!(parse_number("21"), 21);
    assert_eq!(parse_number("+21"), 21);
    assert_eq!(parse_number("4294967295"), 4294967295);
    assert_eq!(parse_number("4294967296"), 0);
    assert_eq!(parse_number(""), 0);
    assert_eq!(parse_number("+"), 0);
    assert_eq!(parse_number("-1"), 0);
    assert_eq!(parse_number("1a"), 0);
    assert_eq!(parse_number("١٢"), 0);
    assert_eq!(parse_number("000000000000012"), 12);
}

#[test]
fn trim_removes_white_space_at_both_ends() {
    assert_eq!(trim("  1.22.0  \n"), "1.22.0");
    assert_eq!(trim("\t\r\n"), "");
    assert_eq!(trim(""), "");
    assert_eq!(trim("a b"), "a b");
    assert_eq!(trim("\u{3000}x\u{a0}"), "x");
    assert_eq!(trim("\u{200b}x"), "\u{200b}x");
    for s in [" a ", "\u{85}b\u{2028}", "  ", "\u{1680}c\u{205f}\u{202f}"] {
        assert_eq!(trim(s), s.trim());
    }
}

#[test]
fn contains_finds_substrings() {
    assert!(contains("exec \"/usr/local/bin/govm\" exec", "/usr/local/bin/govm"));
    assert!(contains("abc", ""));
    assert!(contains("", ""));
    assert!(contains("abc", "abc"));
    assert!(contains("aab", "ab"));
    assert!(!contains("abc", "abcd"));
    assert!(!contains("abc", "ac"));
    assert!(!contains("", "a"));
}

#[test]
fn same_text_compares_characters() {
    assert!(same_text("go", "go"));
    assert!(!same_text("go", "gofmt"));
    assert!(!same_text("go", "Go"));
    assert!(same_text("", ""));
}
