use pimad_edge::system::text::{
    chars_of, contains_chars, parse_i32, parse_u64, split_fields, split_lines, starts_with_chars, trim_end_dots_chars,
    trim_start_chars, trim_str,
};

fn chars(s: &str) -> Vec<char> {
    s.chars().collect()
}

fn strings(v: Vec<Vec<char>>) -> Vec<String> {
    v.into_iter().map(|c| c.into_iter().collect()).collect()
}

#[test]
fn lines_like_std() {
    for s in ["", "a", "a\n", "a\r\nb", "\n\nx", "a\rb\n", "x\r"] {
        let expected: Vec<String> = s.lines().map(|l| l.to_string()).collect();
        assert_eq!(strings(split_lines(&chars(s))), expected, "input {:?}", s);
    }
}

#[test]
fn fields_like_std() {
    for s in ["", "  a  b\tc ", "x", "\u{a0}y\u{2003}z"] {
        let expected: Vec<String> = s.split_whitespace().map(|l| l.to_string()).collect();
        assert_eq!(strings(split_fields(&chars(s))), expected, "input {:?}", s);
    }
}

#[test]
fn trimming_like_std() {
    for s in ["  ab c \n", "", "\t", "v1.2.3", " x"] {
        assert_eq!(trim_str(s), s.trim());
        let t: String = trim_start_chars(&chars(s)).into_iter().collect();
        assert_eq!(t, s.trim_start());
    }
    let t: String = trim_end_dots_chars(&chars("-56..")).into_iter().collect();
    assert_eq!(t, "-56");
}

#[test]
fn prefixes_and_substrings() {
    assert!(starts_with_chars(&chars("wlan0: 1"), "wlan0"));
    assert!(!starts_with_chars(&chars("wlan"), "wlan0"));
    assert!(contains_chars(&chars("\tsignal: -60 dBm"), "signal:"));
    assert!(!contains_chars(&chars("signa"), "signal:"));
    assert!(contains_chars(&chars("abc"), ""));
    assert_eq!(chars_of("héllo"), chars("héllo"));
}

#[test]
fn integers_like_std() {
    for s in ["0", "-0", "+7", "-2147483648", "2147483647", "2147483648", "-", "+", "", "12a", "99999999999", "-56"] {
        assert_eq!(parse_i32(&chars(s)), s.parse::<i32>().ok(), "input {:?}", s);
    }
    for s in ["0", "+5", "-5", "18446744073709551615", "18446744073709551616", "", "7x"] {
        assert_eq!(parse_u64(&chars(s)), s.parse::<u64>().ok(), "input {:?}", s);
    }
}
