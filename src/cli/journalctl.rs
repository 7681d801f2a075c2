//! Rules for the output of `journalctl`.
use vstd::prelude::*;
use crate::color::Colors;
use crate::registry::RuleSource;

verus! {

/// The `journalctl` subcommand.
pub struct Cmd {}

impl Cmd {
    /// The rules, highest priority first.
    pub fn rules() -> (r: Vec<RuleSource>)
        ensures
            r@.len() == 18,
            forall|i: int| 0 <= i < r@.len() ==> (#[trigger] r@[i]).colors@.len() >= 1,
    {
        vec![
            // Connect requires special attention
            RuleSource {
                pattern: r#"connect"#,
                colors: vec![Colors::OnRed],
            },
            // Status deferred
            RuleSource {
                pattern: r#"status\=deferred|Connection refused"#,
                colors: vec![Colors::Red],
            },
            // 5xx status
            RuleSource {
                pattern: r#"\s\b5\d{2}\b\s"#,
                colors: vec![Colors::Red],
            },
            // 4xx status
            RuleSource {
                pattern: r#"\s\b4\d{2}\b\s"#,
                colors: vec![Colors::Red],
            },
            // 3xx status
            RuleSource {
                pattern: r#"\s\b3\d{2}\b\s"#,
                colors: vec![Colors::Yellow],
            },
            // 2xx status
            RuleSource {
                pattern: r#"\s\b2\d{2}\b\s"#,
                colors: vec![Colors::Green],
            },
            // HTTP verbs
            RuleSource {
                pattern: r#"GET|POST|PUT|DELETE|PATCH|HEAD"#,
                colors: vec![Colors::Green],
            },
            // Email address
            RuleSource {
                pattern: r#"[a-zA-z0-9\.\-\+]+\@[\w\-\.]+"#,
                colors: vec![Colors::Green],
            },
            // Date and hostname
            RuleSource {
                pattern: r#"^... (\d| )\d \d\d:\d\d:\d\d(\s[-.\w\d]+?\s)"#,
                colors: vec![Colors::Green, Colors::Green, Colors::Yellow],
            },
            // IPv6
            RuleSource {
                pattern: r#"\b[0-9a-fA-F]{1,4}(\:\:?[0-9a-fA-F]{1,4})+"#,
                colors: vec![Colors::BYellow],
            },
            // IPv4 or IPv4:Port
            RuleSource {
                pattern: r#"\d{1,3}\.\d{1,3}\.\d{1,3}\.\d{1,3}(:\d{1,5})?"#,
                colors: vec![Colors::BYellow],
            },
            // Name of process and pid
            RuleSource {
                pattern: r#"([\w/\.\-]+)(\[\d+?\])"#,
                colors: vec![Colors::BBlue, Colors::BRed],
            },
            // Everything in <>
            RuleSource {
                pattern: r#"\<.*?\>"#,
                colors: vec![Colors::Blue],
            },
            // This is probably a pathname
            RuleSource {
                pattern: r#"\s/[a-zA-Z_/\.\-\?\d\=\&]+"#,
                colors: vec![Colors::Blue],
            },
            // Everything in "
            RuleSource {
                pattern: r#"\".*?\""#,
                colors: vec![Colors::Blue],
            },
            // Everything in `'
            RuleSource {
                pattern: r#"\`.+?\'"#,
                colors: vec![Colors::BYellow],
            },
            // Everything in parentheses
            RuleSource {
                pattern: r#"\(.*?\)"#,
                colors: vec![Colors::Blue],
            },
            // Display this line in yellow and stop further processing
            RuleSource {
                pattern: r#".*last message repeated \d+ times$"#,
                colors: vec![Colors::Yellow],
            },
        ]
    }
}

} // verus!
