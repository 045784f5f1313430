//! Tests of the byte-string primitives.

use sc2_exp::text::{
    ascii_bytes, bytes_contain, bytes_eq, i64_dec_string, i64_to_dec, join_lines, parse_i64,
    parse_u64, split_lines, split_tokens, str_eq, strip_prefix_bytes, trim_trailing_bytes,
    u64_dec_string, u64_to_dec,
};

#[test]
fn contains_finds_substrings() {
    assert!(bytes_contain(b"RunPodSandbox for dep", b"RunPodSandbox"));
    assert!(bytes_contain(b"abc", b""));
    assert!(bytes_contain(b"", b""));
    assert!(bytes_contain(b"aaab", b"aab"));
    assert!(!bytes_contain(b"abc", b"abcd"));
    assert!(!bytes_contain(b"abc", b"ac"));
}

#[test]
fn byte_equality() {
    assert!(bytes_eq(b"abc", b"abc"));
    assert!(!bytes_eq(b"abc", b"abd"));
    assert!(!bytes_eq(b"abc", b"ab"));
    assert!(str_eq("snp-sc2", "snp-sc2"));
    assert!(!str_eq("snp", "snp-sc2"));
}

#[test]
fn parse_unsigned_decimals() {
    assert_eq!(parse_u64(b"0"), Some(0));
    assert_eq!(parse_u64(b"1729"), Some(1729));
    assert_eq!(parse_u64(b"18446744073709551615"), Some(u64::MAX));
    assert_eq!(parse_u64(b"18446744073709551616"), None);
    assert_eq!(parse_u64(b""), None);
    assert_eq!(parse_u64(b"12a"), None);
    assert_eq!(parse_u64(b" 12"), None);
}

#[test]
fn parse_signed_decimals() {
    assert_eq!(parse_i64(b"123456"), Some(123456));
    assert_eq!(parse_i64(b"-5"), Some(-5));
    assert_eq!(parse_i64(b"9223372036854775807"), Some(i64::MAX));
    assert_eq!(parse_i64(b"9223372036854775808"), None);
    assert_eq!(parse_i64(b"-9223372036854775808"), Some(i64::MIN));
    assert_eq!(parse_i64(b"-9223372036854775809"), None);
    assert_eq!(parse_i64(b"-"), None);
    assert_eq!(parse_i64(b"--1"), None);
}

#[test]
fn decimal_rendering() {
    assert_eq!(u64_to_dec(0), b"0".to_vec());
    assert_eq!(u64_to_dec(907), b"907".to_vec());
    assert_eq!(i64_to_dec(-42), b"-42".to_vec());
    assert_eq!(i64_to_dec(i64::MIN), b"-9223372036854775808".to_vec());
    assert_eq!(u64_dec_string(12005), "12005");
    assert_eq!(i64_dec_string(-7), "-7");
    assert_eq!(i64_dec_string(0), "0");
}

#[test]
fn rendering_then_parsing_is_identity() {
    for n in [0i64, 1, -1, 999, -1000, i64::MAX, i64::MIN] {
        assert_eq!(parse_i64(&i64_to_dec(n)), Some(n));
    }
}

#[test]
fn tokenizing_command_output() {
    let toks = split_tokens(b"  'True'  'True'\n'False'\t");
    assert_eq!(
        toks,
        vec![b"'True'".to_vec(), b"'True'".to_vec(), b"'False'".to_vec()]
    );
    assert_eq!(split_tokens(b"").len(), 0);
    assert_eq!(split_tokens(b"   \n\t ").len(), 0);
    assert_eq!(split_tokens(b"one"), vec![b"one".to_vec()]);
}

#[test]
fn splitting_and_joining_lines() {
    let lines = split_lines(b"a\nbc\r\n\nd");
    assert_eq!(
        lines,
        vec![b"a".to_vec(), b"bc".to_vec(), b"".to_vec(), b"d".to_vec()]
    );
    assert_eq!(split_lines(b"").len(), 0);
    assert_eq!(split_lines(b"x\n"), vec![b"x".to_vec()]);
    let joined = join_lines(&vec![b"a".to_vec(), b"b".to_vec()]);
    assert_eq!(joined, b"a\nb".to_vec());
    assert_eq!(join_lines(&vec![]), Vec::<u8>::new());
}

#[test]
fn prefix_stripping() {
    assert_eq!(
        strip_prefix_bytes(b"http://host.name", b"http://"),
        Some(b"host.name".to_vec())
    );
    assert_eq!(strip_prefix_bytes(b"https://host", b"http://"), None);
    assert_eq!(strip_prefix_bytes(b"ab", b"abc"), None);
}

#[test]
fn trailing_trim() {
    assert_eq!(trim_trailing_bytes(b"abc\n\n", 10), b"abc".to_vec());
    assert_eq!(trim_trailing_bytes(b"abc", 10), b"abc".to_vec());
    assert_eq!(trim_trailing_bytes(b"\n", 10), Vec::<u8>::new());
}

#[test]
fn ascii_bytes_of_literals() {
    assert_eq!(ascii_bytes("abc"), b"abc".to_vec());
    assert_eq!(ascii_bytes(""), Vec::<u8>::new());
}
