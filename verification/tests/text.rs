use mediasnare::text::{
    format_i64, format_u64, lines, parse_i32, replace_str, split_once, split_whitespace, str_eq,
    strip_prefix,
};
use mediasnare::window::recording_bar::window_position;

#[test]
fn decimal_formatting() {
    assert_eq!(format_u64(0), "0");
    assert_eq!(format_u64(10), "10");
    assert_eq!(format_u64(u64::MAX), "18446744073709551615");
    assert_eq!(format_i64(-5), "-5");
    assert_eq!(format_i64(i64::MIN), "-9223372036854775808");
}

#[test]
fn i32_parsing() {
    assert_eq!(parse_i32("42"), Some(42));
    assert_eq!(parse_i32("+7"), Some(7));
    assert_eq!(parse_i32("-0012"), Some(-12));
    assert_eq!(parse_i32("2147483647"), Some(i32::MAX));
    assert_eq!(parse_i32("-2147483648"), Some(i32::MIN));
    assert_eq!(parse_i32("2147483648"), None);
    assert_eq!(parse_i32("-2147483649"), None);
    assert_eq!(parse_i32("99999999999999999999"), None);
    assert_eq!(parse_i32(""), None);
    assert_eq!(parse_i32("-"), None);
    assert_eq!(parse_i32("+"), None);
    assert_eq!(parse_i32("1a"), None);
    assert_eq!(parse_i32(" 1"), None);
}

#[test]
fn format_then_parse() {
    for n in [0i32, 1, -1, 1920, -1080, i32::MAX, i32::MIN] {
        assert_eq!(parse_i32(&format_i64(n as i64)), Some(n));
    }
}

#[test]
fn line_splitting() {
    assert_eq!(lines("a\nb\r\n\nc"), vec!["a", "b", "", "c"]);
    assert_eq!(lines("a\n"), vec!["a"]);
    assert_eq!(lines(""), Vec::<String>::new());
    assert_eq!(lines("\n"), vec![""]);
    assert_eq!(lines("x\r"), vec!["x\r"]);
}

#[test]
fn word_splitting() {
    assert_eq!(split_whitespace("  a bb\t\nccc \u{3000}d "), vec!["a", "bb", "ccc", "d"]);
    assert_eq!(split_whitespace(""), Vec::<String>::new());
    assert_eq!(split_once("k=v=w", '='), Some(("k".to_string(), "v=w".to_string())));
    assert_eq!(split_once("kv", '='), None);
    assert_eq!(strip_prefix("X=12", "X="), Some("12".to_string()));
    assert_eq!(strip_prefix("Y=12", "X="), None);
    assert!(str_eq("abc", "abc"));
    assert!(!str_eq("abc", "abd"));
    assert_eq!(replace_str("aXbXX", "X", "yy"), "ayybyyyy");
}

#[test]
fn xdotool_geometry_reading() {
    let text = "WINDOW=123\nX=40\nY=1016\nWIDTH=180\nHEIGHT=44\nSCREEN=0\n";
    assert_eq!(window_position(text), Some((40, 1016)));
    assert_eq!(window_position("X=-5\r\nY=7"), Some((-5, 7)));
    assert_eq!(window_position("X=1\n"), None);
    assert_eq!(window_position("X=1\nY=2\nX=oops\n"), None);
    assert_eq!(window_position("X=1\nY=2\nX=3\n"), Some((3, 2)));
    assert_eq!(window_position(""), None);
}
