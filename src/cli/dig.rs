//! Rules for the output of `dig`.
use vstd::prelude::*;
use crate::color::Colors;
use crate::registry::RuleSource;

verus! {

/// The `dig` subcommand.
pub struct Cmd {}

impl Cmd {
    /// The rules, highest priority first.
    pub fn rules() -> (r: Vec<RuleSource>)
        ensures
            r@.len() == 6,
            forall|i: int| 0 <= i < r@.len() ==> (#[trigger] r@[i]).colors@.len() >= 1,
    {
        vec![
            // Title
            RuleSource {
                pattern: r#"; <<>> DiG.* <<>> (\S+)"#,
                colors: vec![Colors::Default, Colors::BMagenta],
            },
            // comments
            RuleSource {
                pattern: r#"^;;[\s\w]+"#,
                colors: vec![Colors::Yellow],
            },
            // ipv6
            RuleSource {
                pattern: r#"\t(([0-9a-fA-F]{1,4})?\:\:?[0-9a-fA-F]{1,4})+"#,
                colors: vec![Colors::DGreen],
            },
            // ip4 address
            RuleSource {
                pattern: r#"\d{1,3}\.\d{1,3}\.\d{1,3}\.\d{1,3}"#,
                colors: vec![Colors::Green],
            },
            // line
            RuleSource {
                pattern: r#"^(\S+).*?(\d+)\t(\w+)\t(\w+)\t"#,
                colors: vec![Colors::UnChanged, Colors::Magenta, Colors::Red, Colors::Yellow, Colors::Cyan],
            },
            // domain
            RuleSource {
                pattern: r#"[\S]+\."#,
                colors: vec![Colors::BMagenta],
            },
        ]
    }
}

} // verus!
