//! Rules for the output of `top`.
use vstd::prelude::*;
use crate::color::Colors;
use crate::registry::RuleSource;

verus! {

/// The `top` subcommand.
pub struct Cmd {}

impl Cmd {
    /// The rules, highest priority first.
    pub fn rules() -> (r: Vec<RuleSource>)
        ensures
            r@.len() == 8,
            forall|i: int| 0 <= i < r@.len() ==> (#[trigger] r@[i]).colors@.len() >= 1,
    {
        vec![
            // Header
            RuleSource {
                pattern: r#"\s+PID.+COMMAND.+$"#,
                colors: vec![Colors::BlackOnGreen],
            },
            // Swap
            RuleSource {
                pattern: r#"Swap"#,
                colors: vec![Colors::BMagenta],
            },
            // Mem
            RuleSource {
                pattern: r#"Mem"#,
                colors: vec![Colors::BCyan],
            },
            // Time
            RuleSource {
                pattern: r#"\d+:\d+[:\.]\d+"#,
                colors: vec![Colors::BBlue],
            },
            // Size 'T'
            RuleSource {
                pattern: r#"\s\d*[.,]?\dt|\b\d{10,12}\b"#,
                colors: vec![Colors::BRed],
            },
            // Size 'G'
            RuleSource {
                pattern: r#"\s\d*[.,]?\dg|\b\d{7,9}\b"#,
                colors: vec![Colors::Red],
            },
            // Size 'M'
            RuleSource {
                pattern: r#"\s\d*[.,]?\dm|\b\d{4,6}\b"#,
                colors: vec![Colors::Yellow],
            },
            // Size 'K'
            RuleSource {
                pattern: r#"\s\d*[.,]?\dk?"#,
                colors: vec![Colors::Green],
            },
        ]
    }
}

} // verus!
