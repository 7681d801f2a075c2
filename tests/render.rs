use ufc::color::Colors;
use ufc::highlight::{colored_output, Palette};
use ufc::pattern::Pattern;
use ufc::render::render;

fn rule(pattern: &str, colors: &[Colors]) -> Palette {
    Palette {
        regexp: Pattern::new(pattern).unwrap(),
        colors: colors.iter().map(|c| c.paint()).collect(),
    }
}

fn ping_rules() -> Vec<Palette> {
    vec![
        rule(r"\d{1,3}\.\d{1,3}\.\d{1,3}\.\d{1,3}", &[Colors::BBlue]),
        rule(r"icmp_seq=(\d+)", &[Colors::Default, Colors::Magenta]),
        rule(r"ttl=(\d+)", &[Colors::Default, Colors::Magenta]),
        rule(r"([0-9.]+)\s?ms", &[Colors::Green, Colors::BGreen]),
    ]
}

const LINE: &str = "64 bytes from 8.8.8.8: icmp_seq=1 ttl=116 time=4.05 ms";

#[test]
fn nocolor_renders_plain_text() {
    let out = render(&colored_output(LINE, &ping_rules()), false);
    assert_eq!(out, format!("{}\n", LINE).into_bytes());
    assert!(!out.contains(&0x1b));
}

#[test]
fn color_renders_escapes_around_each_fragment() {
    let rules = vec![rule(r"\d{1,3}\.\d{1,3}\.\d{1,3}\.\d{1,3}", &[Colors::BBlue])];
    let out = render(&colored_output("to 8.8.8.8", &rules), true);
    let want = "\x1b[0mto \x1b[0m\x1b[0m\x1b[1m\x1b[34m8.8.8.8\x1b[0m\n";
    assert_eq!(String::from_utf8(out).unwrap(), want);
}

#[test]
fn styles_map_to_their_escapes() {
    let cases = [
        (Colors::Default, "\x1b[0m"),
        (Colors::Red, "\x1b[0m\x1b[31m"),
        (Colors::BBlack, "\x1b[0m\x1b[1m\x1b[38;5;8m"),
        (Colors::DGreen, "\x1b[0m\x1b[2m\x1b[32m"),
        (Colors::UBYellow, "\x1b[0m\x1b[1m\x1b[4m\x1b[33m"),
        (Colors::BlackOnWhite, "\x1b[0m\x1b[30m\x1b[47m"),
        (Colors::OnCyan, "\x1b[0m\x1b[46m"),
    ];
    for (c, esc) in cases.iter() {
        let rules = vec![rule("x", &[*c])];
        let out = String::from_utf8(render(&colored_output("x", &rules), true)).unwrap();
        assert_eq!(out, format!("{}x\x1b[0m\n", esc));
    }
}

#[test]
fn empty_line_renders_newline_only() {
    assert_eq!(render(&colored_output("", &ping_rules()), true), b"\n".to_vec());
}
