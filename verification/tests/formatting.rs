use console_sink::decimal::{decimal, push_decimal};
use console_sink::SearchFileEvent;

fn event(class: &str, path: &str, line_number: Option<u64>) -> SearchFileEvent {
    SearchFileEvent { class: class.to_string(), path: path.to_string(), line_number }
}

#[test]
fn decimal_of_zero_is_a_single_zero() {
    assert_eq!(decimal(0), "0");
}

#[test]
fn decimal_of_single_digits() {
    assert_eq!(decimal(1), "1");
    assert_eq!(decimal(5), "5");
    assert_eq!(decimal(9), "9");
}

#[test]
fn decimal_keeps_digit_order() {
    assert_eq!(decimal(10), "10");
    assert_eq!(decimal(12), "12");
    assert_eq!(decimal(120), "120");
    assert_eq!(decimal(1002003), "1002003");
    assert_eq!(decimal(9876543210), "9876543210");
}

#[test]
fn decimal_of_largest_value() {
    assert_eq!(decimal(u64::MAX), "18446744073709551615");
    assert_eq!(decimal(u64::MAX), u64::MAX.to_string());
}

#[test]
fn decimal_agrees_with_std_on_a_sweep() {
    let mut n: u64 = 0;
    while n < 5000 {
        assert_eq!(decimal(n), n.to_string());
        n += 1;
    }
    let mut m: u64 = 1;
    while m < u64::MAX / 7 {
        assert_eq!(decimal(m), m.to_string());
        assert_eq!(decimal(m - 1), (m - 1).to_string());
        m *= 7;
    }
}

#[test]
fn push_decimal_appends_to_what_is_there() {
    let mut text = String::from("line ");
    push_decimal(&mut text, 42);
    assert_eq!(text, "line 42");
    push_decimal(&mut text, 0);
    assert_eq!(text, "line 420");
}

#[test]
fn location_without_line_is_the_path() {
    assert_eq!(event("foo", "/a/b.html", None).location(), "/a/b.html");
}

#[test]
fn location_with_line_has_colon_and_number() {
    assert_eq!(event("foo", "/a/b.html", Some(12)).location(), "/a/b.html:12");
    assert_eq!(event("foo", "index.html", Some(3)).location(), "index.html:3");
    assert_eq!(event("foo", "x", Some(0)).location(), "x:0");
}

#[test]
fn diagnostic_line_without_line_number() {
    let line = event("foo", "/a/b.html", None).diagnostic_line();
    assert_eq!(line, "\"foo\" in \"\u{1b}]8;i;file:///a/b.html\u{1b}\\/a/b.html\u{1b}]8;;\u{1b}\\\"");
    assert_eq!(line.matches("/a/b.html").count(), 2);
    assert!(!line.contains("/a/b.html:"));
}

#[test]
fn diagnostic_line_with_line_number() {
    let line = event("foo", "/a/b.html", Some(12)).diagnostic_line();
    assert_eq!(
        line,
        "\"foo\" in \"\u{1b}]8;i;file:///a/b.html:12\u{1b}\\/a/b.html:12\u{1b}]8;;\u{1b}\\\""
    );
    assert_eq!(line.matches("/a/b.html:12").count(), 2);
}

#[test]
fn diagnostic_line_matches_the_format_string() {
    let class = "btn-xl";
    let path = "src/pages/index.html:7";
    let expected =
        format!("\"{}\" in \"\u{1b}]8;i;file://{path}\u{1b}\\{path}\u{1b}]8;;\u{1b}\\\"", class);
    assert_eq!(event("btn-xl", "src/pages/index.html", Some(7)).diagnostic_line(), expected);
}

#[test]
fn diagnostic_line_keeps_text_outside_ascii() {
    let line = event("größe", "sité/página.html", Some(1)).diagnostic_line();
    assert_eq!(
        line,
        "\"größe\" in \"\u{1b}]8;i;file://sité/página.html:1\u{1b}\\sité/página.html:1\u{1b}]8;;\u{1b}\\\""
    );
}

#[test]
fn diagnostic_line_of_empty_fields() {
    let line = event("", "", None).diagnostic_line();
    assert_eq!(line, "\"\" in \"\u{1b}]8;i;file://\u{1b}\\\u{1b}]8;;\u{1b}\\\"");
}

#[test]
fn diagnostic_line_leaves_the_event_as_it_was() {
    let e = event("foo", "/a/b.html", Some(12));
    let before = e.clone();
    let _ = e.diagnostic_line();
    let _ = e.location();
    assert_eq!(e, before);
}
