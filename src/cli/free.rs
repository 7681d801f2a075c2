//! Rules for the output of `free`.
use vstd::prelude::*;
use crate::color::Colors;
use crate::registry::RuleSource;

verus! {

/// The `free` subcommand.
pub struct Cmd {}

impl Cmd {
    /// The rules, highest priority first.
    pub fn rules() -> (r: Vec<RuleSource>)
        ensures
            r@.len() == 7,
            forall|i: int| 0 <= i < r@.len() ==> (#[trigger] r@[i]).colors@.len() >= 1,
    {
        vec![
            // Zero
            RuleSource {
                pattern: r#"\s+0\w?(\s|$)"#,
                colors: vec![Colors::Green],
            },
            // Swap
            RuleSource {
                pattern: r#"^Swap"#,
                colors: vec![Colors::BMagenta],
            },
            // Mem
            RuleSource {
                pattern: r#"^Mem"#,
                colors: vec![Colors::BCyan],
            },
            // Size 'T'
            RuleSource {
                pattern: r#"\s\d*[.,]?\dTi?|\b\d{10,12}\b"#,
                colors: vec![Colors::BRed],
            },
            // Size 'G'
            RuleSource {
                pattern: r#"\s\d*[.,]?\dGi?|\b\d{7,9}\b"#,
                colors: vec![Colors::Red],
            },
            // Size 'M'
            RuleSource {
                pattern: r#"\s\d*[.,]?\dMi?|\b\d{4,6}\b"#,
                colors: vec![Colors::Yellow],
            },
            // Size 'K'
            RuleSource {
                pattern: r#"\s\d*[.,]?\dKi?|\b\d{1,3}\b"#,
                colors: vec![Colors::Green],
            },
        ]
    }
}

} // verus!
