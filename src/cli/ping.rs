//! Rules for the output of `ping`.
use vstd::prelude::*;
use crate::color::Colors;
use crate::registry::RuleSource;

verus! {

/// The `ping` subcommand.
pub struct Cmd {}

impl Cmd {
    /// The rules, highest priority first.
    pub fn rules() -> (r: Vec<RuleSource>)
        ensures
            r@.len() == 15,
            forall|i: int| 0 <= i < r@.len() ==> (#[trigger] r@[i]).colors@.len() >= 1,
    {
        vec![
            // nping
            RuleSource {
                pattern: r#"unreachable"#,
                colors: vec![Colors::Red],
            },
            // these are good for nping
            RuleSource {
                pattern: r#"SENT|RCVD"#,
                colors: vec![Colors::Red],
            },
            // last line values
            RuleSource {
                pattern: r#"\=\s([0-9\.]+)/([0-9\.]+)/([0-9\.]+)/([0-9\.]+)"#,
                colors: vec![Colors::Default, Colors::BYellow, Colors::BBlue, Colors::BRed, Colors::BMagenta],
            },
            // last line min/avg/max/mdev
            RuleSource {
                pattern: r#"rtt (min)/(avg)/(max)/(mdev)"#,
                colors: vec![Colors::Default, Colors::BYellow, Colors::BBlue, Colors::BRed, Colors::BMagenta],
            },
            // statistics header
            RuleSource {
                pattern: r#"--- (\S+) ping statistics ---"#,
                colors: vec![Colors::BDefault, Colors::BBlue],
            },
            // unknown host
            RuleSource {
                pattern: r#".+unknown\shost\s(.+)"#,
                colors: vec![Colors::Red, Colors::BRed],
            },
            // Errors
            RuleSource {
                pattern: r#"(Destination Host Unreachable|100(\.0)?% packet loss)"#,
                colors: vec![Colors::Red],
            },
            // OK
            RuleSource {
                pattern: r#" 0(\.0)?% packet loss"#,
                colors: vec![Colors::Green],
            },
            // DUP
            RuleSource {
                pattern: r#"DUP\!"#,
                colors: vec![Colors::Red],
            },
            // time
            RuleSource {
                pattern: r#"([0-9\.]+)?\s?ms"#,
                colors: vec![Colors::Green, Colors::BGreen],
            },
            // name
            RuleSource {
                pattern: r#"(?:[fF]rom|PING)\s(\S+)\s"#,
                colors: vec![Colors::Default, Colors::Blue],
            },
            // ttl=
            RuleSource {
                pattern: r#"ttl=(\d+)"#,
                colors: vec![Colors::Default, Colors::Magenta],
            },
            // icmp_seq=
            RuleSource {
                pattern: r#"icmp_seq=(\d+)"#,
                colors: vec![Colors::Default, Colors::Magenta],
            },
            // ipv6 number
            RuleSource {
                pattern: r#"(([0-9a-fA-F]{1,4})?\:\:?[0-9a-fA-F]{1,4})+"#,
                colors: vec![Colors::Magenta],
            },
            // IP
            RuleSource {
                pattern: r#"\d{1,3}\.\d{1,3}\.\d{1,3}\.\d{1,3}"#,
                colors: vec![Colors::BBlue],
            },
        ]
    }
}

} // verus!
