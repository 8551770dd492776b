use aether_discord::handlers::event::{breaks_rules_any_case, prefix_command};
use aether_discord::text::{
    before_space_chars, chars_of, contains_chars, i64_to_string, join_chars, parse_hex_u32,
    parse_u64, replace_chars, split_chars, str_eq, strip_leading_chars,
    strip_prefix_chars, trim_chars, u64_to_string, words_chars,
};

fn cs(s: &str) -> Vec<char> {
    s.chars().collect()
}

fn st(v: &[char]) -> String {
    v.iter().collect()
}

#[test]
fn parse_u64_reads_plain_digits() {
    assert_eq!(parse_u64("123"), Some(123));
    assert_eq!(parse_u64("007"), Some(7));
    assert_eq!(parse_u64("0"), Some(0));
}

#[test]
fn parse_u64_takes_one_plus_sign() {
    assert_eq!(parse_u64("+7"), Some(7));
    assert_eq!(parse_u64("+"), None);
    assert_eq!(parse_u64("++7"), None);
}

#[test]
fn parse_u64_refuses_what_std_refuses() {
    assert_eq!(parse_u64(""), None);
    assert_eq!(parse_u64("-1"), None);
    assert_eq!(parse_u64("12a"), None);
    assert_eq!(parse_u64(" 12"), None);
    assert_eq!(parse_u64("١٢"), None);
}

#[test]
fn parse_u64_bounds() {
    assert_eq!(parse_u64("18446744073709551615"), Some(u64::MAX));
    assert_eq!(parse_u64("18446744073709551616"), None);
    assert_eq!(parse_u64("99999999999999999999"), None);
}

#[test]
fn parse_u64_agrees_with_std() {
    for s in ["1", "+1", "-1", "", "+", "42x", "18446744073709551615", "18446744073709551616", "0000", "3.5"] {
        assert_eq!(parse_u64(s), s.parse::<u64>().ok(), "input {:?}", s);
    }
}

#[test]
fn decimal_text_reads_back() {
    for n in [0u64, 1, 9, 10, 99, 100, 123456789, u64::MAX - 1, u64::MAX] {
        let t = u64_to_string(n);
        assert_eq!(t, n.to_string());
        assert_eq!(parse_u64(&t), Some(n));
    }
}

#[test]
fn signed_decimal_text() {
    assert_eq!(i64_to_string(-42), "-42");
    assert_eq!(i64_to_string(0), "0");
    assert_eq!(i64_to_string(i64::MIN), i64::MIN.to_string());
    assert_eq!(i64_to_string(i64::MAX), i64::MAX.to_string());
}

#[test]
fn hex_reading() {
    assert_eq!(parse_hex_u32(&cs("00d2ff")), Some(0x00d2ff));
    assert_eq!(parse_hex_u32(&cs("FFffFFff")), Some(u32::MAX));
    assert_eq!(parse_hex_u32(&cs("100000000")), None);
    assert_eq!(parse_hex_u32(&cs("+ff")), Some(0xff));
    assert_eq!(parse_hex_u32(&cs("")), None);
    assert_eq!(parse_hex_u32(&cs("#ff")), None);
    assert_eq!(parse_hex_u32(&cs("g1")), None);
    for s in ["abc", "ABC", "-1", "+", "0x10", "7fffffff", "fffffffff"] {
        assert_eq!(parse_hex_u32(&cs(s)), u32::from_str_radix(s, 16).ok(), "input {:?}", s);
    }
}

#[test]
fn strip_leading_takes_every_hash() {
    assert_eq!(st(&strip_leading_chars(&cs("##a#b"), '#')), "a#b");
    assert_eq!(st(&strip_leading_chars(&cs("ab"), '#')), "ab");
    assert_eq!(st(&strip_leading_chars(&cs("###"), '#')), "");
}

#[test]
fn contains_finds_substrings() {
    assert!(contains_chars(&cs("this is spam"), &cs("spam")));
    assert!(!contains_chars(&cs("sp am"), &cs("spam")));
    assert!(contains_chars(&cs("x"), &cs("")));
    assert!(!contains_chars(&cs(""), &cs("a")));
}

#[test]
fn replace_matches_std() {
    for (s, p, r) in [("a%u%b%u%", "%u%", "X"), ("aaaa", "aa", "b"), ("abc", "z", "q"), ("", "x", "y"), ("%user%", "%user%", "<@1>")] {
        assert_eq!(st(&replace_chars(&cs(s), &cs(p), &cs(r))), s.replace(p, r));
    }
}

#[test]
fn split_matches_std() {
    for s in ["a|b|c", "", "|", "a||b", "Yes|No"] {
        let got: Vec<String> = split_chars(&cs(s), '|').iter().map(|v| st(v)).collect();
        let want: Vec<String> = s.split('|').map(|x| x.to_string()).collect();
        assert_eq!(got, want);
    }
}

#[test]
fn trim_matches_std() {
    for s in ["  a b  ", "\u{3000}x\u{00a0}", "", "   ", "\tq\n", "\u{200b}z"] {
        assert_eq!(st(&trim_chars(&cs(s))), s.trim());
    }
}

#[test]
fn words_match_split_whitespace() {
    for s in ["10 + 5", "  10   +5 ", "", "   ", "a\tb\nc"] {
        let got: Vec<String> = words_chars(&cs(s)).iter().map(|v| st(v)).collect();
        let want: Vec<String> = s.split_whitespace().map(|x| x.to_string()).collect();
        assert_eq!(got, want);
    }
}

#[test]
fn first_word_and_prefix() {
    assert_eq!(st(&before_space_chars(&cs("ping now"))), "ping");
    assert_eq!(st(&before_space_chars(&cs("ping"))), "ping");
    assert_eq!(st(&before_space_chars(&cs(" ping"))), "");
    assert_eq!(strip_prefix_chars(&cs("!ping"), &cs("!")).map(|v| st(&v)), Some("ping".to_string()));
    assert_eq!(strip_prefix_chars(&cs("?ping"), &cs("!")), None);
}

#[test]
fn join_puts_separator_between() {
    let parts = vec![cs("a"), cs("b"), cs("c")];
    assert_eq!(st(&join_chars(&parts, &cs("\n"))), "a\nb\nc");
    assert_eq!(st(&join_chars(&Vec::new(), &cs(","))), "");
}

#[test]
fn equality_and_conversion() {
    assert!(str_eq("abc", "abc"));
    assert!(!str_eq("abc", "abd"));
    assert_eq!(chars_of("héllo"), cs("héllo"));
}

#[test]
fn lowercase_changes_case() {
    assert!(breaks_rules_any_case("No SpAm here"));
    assert!(breaks_rules_any_case("BADWORD"));
    assert_eq!(prefix_command("!PiNg now", "!").as_deref(), Some("🏓 Pong!"));
    assert_eq!(prefix_command("!HELP", "!").as_deref(), Some("Use `/help` for the full command list!"));
}
