//! Rules for the output of `ifconfig`.
use vstd::prelude::*;
use crate::color::Colors;
use crate::registry::RuleSource;

verus! {

/// The `ifconfig` subcommand.
pub struct Cmd {}

impl Cmd {
    /// The rules, highest priority first.
    pub fn rules() -> (r: Vec<RuleSource>)
        ensures
            r@.len() == 14,
            forall|i: int| 0 <= i < r@.len() ==> (#[trigger] r@[i]).colors@.len() >= 1,
    {
        vec![
            RuleSource {
                pattern: r#"collisions[\s|\:]\d+"#,
                colors: vec![Colors::Red],
            },
            RuleSource {
                pattern: r#"carrier[\s|\:]\d+"#,
                colors: vec![Colors::Cyan],
            },
            RuleSource {
                pattern: r#"frame[\s|\:]\d+"#,
                colors: vec![Colors::White],
            },
            RuleSource {
                pattern: r#"overruns[\s|\:]\d+"#,
                colors: vec![Colors::Green],
            },
            RuleSource {
                pattern: r#"dropped[\s|\:]\d+"#,
                colors: vec![Colors::White],
            },
            // errors
            RuleSource {
                pattern: r#"errors[\s|\:]\d+"#,
                colors: vec![Colors::Red],
            },
            // mtu
            RuleSource {
                pattern: r#"(?i)mtu[\s|\:]\d+"#,
                colors: vec![Colors::Green],
            },
            // flags
            RuleSource {
                pattern: r#"(?<=[,<])[^,]+?(?=[,>])"#,
                colors: vec![Colors::Blue],
            },
            // ip disc
            RuleSource {
                pattern: r#"(inet6?|netmask|broadcast)"#,
                colors: vec![Colors::Cyan],
            },
            // interface
            RuleSource {
                pattern: r#"^([a-z0-9.]{2,}\d*):?\s"#,
                colors: vec![Colors::BGreen],
            },
            // size [T\|G\|M\|K]i?B
            RuleSource {
                pattern: r#"\d+\.?\d*\s+[T|G|M|K]?i?B"#,
                colors: vec![Colors::Yellow],
            },
            // hwaddr
            RuleSource {
                pattern: r#"[\d[a-f]]{2}(\:[\d[a-f]]{2}){5}"#,
                colors: vec![Colors::Yellow],
            },
            // ipv6
            RuleSource {
                pattern: r#"\b[0-9a-fA-F]{1,4}(\:\:?[0-9a-fA-F]{1,4})+"#,
                colors: vec![Colors::BGreen],
            },
            // ipv4
            RuleSource {
                pattern: r#"\d{1,3}\.\d{1,3}\.\d{1,3}\.\d{1,3}"#,
                colors: vec![Colors::BGreen],
            },
        ]
    }
}

} // verus!
