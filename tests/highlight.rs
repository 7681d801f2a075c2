use ufc::color::{Color, Colors, Paint};
use ufc::highlight::{colored_output, Palette};
use ufc::pattern::Pattern;

fn rule(pattern: &str, colors: &[Colors]) -> Palette {
    Palette {
        regexp: Pattern::new(pattern).unwrap(),
        colors: colors.iter().map(|c| c.paint()).collect(),
    }
}

fn color(c: Colors) -> Color {
    match c.paint() {
        Paint::Fixed(color) => color,
        Paint::Inherit => panic!("not a concrete color"),
    }
}

fn pieces(line: &str, rules: &Vec<Palette>) -> Vec<(String, Color)> {
    colored_output(line, rules).into_iter().map(|f| (f.text, f.color)).collect()
}

fn expect(parts: &[(&str, Colors)]) -> Vec<(String, Color)> {
    parts.iter().map(|(t, c)| (t.to_string(), color(*c))).collect()
}

fn ping_rules() -> Vec<Palette> {
    vec![
        rule(r"\d{1,3}\.\d{1,3}\.\d{1,3}\.\d{1,3}", &[Colors::BBlue]),
        rule(r"icmp_seq=(\d+)", &[Colors::Default, Colors::Magenta]),
        rule(r"ttl=(\d+)", &[Colors::Default, Colors::Magenta]),
        rule(r"([0-9.]+)\s?ms", &[Colors::Green, Colors::BGreen]),
    ]
}

#[test]
fn ping_reply_line_is_colored_by_rule_order() {
    let got = pieces("64 bytes from 8.8.8.8: icmp_seq=1 ttl=116 time=4.05 ms", &ping_rules());
    let want = expect(&[
        ("64 bytes from ", Colors::Default),
        ("8.8.8.8", Colors::BBlue),
        (": ", Colors::Default),
        ("icmp_seq=", Colors::Default),
        ("1", Colors::Magenta),
        (" ", Colors::Default),
        ("ttl=", Colors::Default),
        ("116", Colors::Magenta),
        (" time=", Colors::Default),
        ("4.05", Colors::BGreen),
        (" ms", Colors::Green),
    ]);
    assert_eq!(got, want);
}

#[test]
fn undeclared_group_gets_default() {
    let got = pieces("xabcy", &vec![rule(r"x(a)(b)(c)y", &[Colors::Red, Colors::Blue])]);
    let want = expect(&[
        ("x", Colors::Red),
        ("a", Colors::Blue),
        ("b", Colors::Default),
        ("c", Colors::Default),
        ("y", Colors::Red),
    ]);
    assert_eq!(got, want);
}

#[test]
fn fragments_join_to_the_line() {
    let lines = ["", "plain text", "64 bytes from 8.8.8.8: icmp_seq=1 ttl=116 time=4.05 ms", "ünï 1.2.3.4 ms ✓"];
    for line in lines.iter() {
        let got = pieces(line, &ping_rules());
        let joined: String = got.iter().map(|(t, _)| t.as_str()).collect();
        assert_eq!(&joined, line);
        assert!(got.iter().all(|(t, _)| !t.is_empty()));
    }
}

#[test]
fn empty_line_has_no_fragments() {
    assert!(pieces("", &ping_rules()).is_empty());
}

#[test]
fn no_rules_leave_one_default_fragment() {
    assert_eq!(pieces("abc", &vec![]), expect(&[("abc", Colors::Default)]));
}

#[test]
fn earlier_rule_wins_on_overlapping_text() {
    let rules = vec![rule(r"\d+\.\d+", &[Colors::Red]), rule(r"\d+", &[Colors::Blue])];
    let got = pieces("v 1.5 x", &rules);
    assert_eq!(got, expect(&[("v ", Colors::Default), ("1.5", Colors::Red), (" x", Colors::Default)]));
}

#[test]
fn colored_fragment_is_not_split_later() {
    let rules = vec![rule(r"abc", &[Colors::Yellow]), rule(r"b", &[Colors::Cyan])];
    let got = pieces("abc b", &rules);
    assert_eq!(
        got,
        expect(&[("abc", Colors::Yellow), (" ", Colors::Default), ("b", Colors::Cyan)])
    );
}

#[test]
fn default_colored_text_stays_open_to_later_rules() {
    let rules = vec![rule(r"id=(\d+)", &[Colors::Default, Colors::Red]), rule(r"id", &[Colors::Green])];
    let got = pieces("id=7", &rules);
    assert_eq!(got, expect(&[("id", Colors::Green), ("=", Colors::Default), ("7", Colors::Red)]));
}

#[test]
fn inherit_takes_last_resolved_color() {
    let rules = vec![rule(r"a", &[Colors::Red]), rule(r"b(c)", &[Colors::UnChanged, Colors::Blue])];
    let got = pieces("a bc", &rules);
    assert_eq!(
        got,
        expect(&[("a", Colors::Red), (" ", Colors::Default), ("b", Colors::Red), ("c", Colors::Blue)])
    );
}

#[test]
fn inherit_starts_from_default_on_each_line() {
    let rules = vec![rule(r"b(c)", &[Colors::UnChanged, Colors::Blue])];
    assert_eq!(pieces("bc", &rules), expect(&[("b", Colors::Default), ("c", Colors::Blue)]));
    let rules = vec![rule(r"a", &[Colors::Red]), rule(r"b(c)", &[Colors::UnChanged, Colors::Blue])];
    assert_eq!(pieces("a", &rules), expect(&[("a", Colors::Red)]));
    assert_eq!(pieces("bc", &rules), expect(&[("b", Colors::Default), ("c", Colors::Blue)]));
}

#[test]
fn rule_is_applied_once_per_fragment() {
    let got = pieces("1.1.1.1 and 2.2.2.2", &ping_rules().into_iter().take(1).collect());
    assert_eq!(
        got,
        expect(&[("1.1.1.1", Colors::BBlue), (" and 2.2.2.2", Colors::Default)])
    );
}

#[test]
fn group_that_did_not_take_part_is_skipped() {
    let got = pieces("ab", &vec![rule(r"(x)?(a)b", &[Colors::Green, Colors::Red, Colors::Blue])]);
    assert_eq!(got, expect(&[("a", Colors::Blue), ("b", Colors::Green)]));
}

#[test]
fn nested_group_inside_used_group_is_skipped() {
    let got = pieces("abc", &vec![rule(r"((a)b)c", &[Colors::Green, Colors::Red, Colors::Blue])]);
    assert_eq!(got, expect(&[("ab", Colors::Red), ("c", Colors::Green)]));
}

#[test]
fn invalid_pattern_is_refused() {
    let e = Pattern::new(r"(unclosed").err().unwrap();
    assert_eq!(e.pattern, "(unclosed");
}
