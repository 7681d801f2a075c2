//! Rules for the output of `fdisk`.
use vstd::prelude::*;
use crate::color::Colors;
use crate::registry::RuleSource;

verus! {

/// The `fdisk` subcommand.
pub struct Cmd {}

impl Cmd {
    /// The rules, highest priority first.
    pub fn rules() -> (r: Vec<RuleSource>)
        ensures
            r@.len() == 9,
            forall|i: int| 0 <= i < r@.len() ==> (#[trigger] r@[i]).colors@.len() >= 1,
    {
        vec![
            // Size 'G'
            RuleSource {
                pattern: r#"\s\d+[.,]?\d*\s?Gi?B?"#,
                colors: vec![Colors::Red],
            },
            // Size 'M'
            RuleSource {
                pattern: r#"\s\d*[.,]?\d*\s?Mi?B?"#,
                colors: vec![Colors::Yellow],
            },
            // Size 'K'
            RuleSource {
                pattern: r#"\s\d*[.,]?\d*\s?Ki?B?"#,
                colors: vec![Colors::Green],
            },
            // ID
            RuleSource {
                pattern: r#"identifier: (.*)$"#,
                colors: vec![Colors::UnChanged, Colors::Cyan],
            },
            // Type
            RuleSource {
                pattern: r#"type: (.*)$"#,
                colors: vec![Colors::UnChanged, Colors::BCyan],
            },
            // Partitions
            RuleSource {
                pattern: r#"^(?:\/([^\/: ]+))+"#,
                colors: vec![Colors::Green, Colors::BGreen],
            },
            // Boot?
            RuleSource {
                pattern: r#"\*\s\s\s"#,
                colors: vec![Colors::OnRed, Colors::BWhite],
            },
            // Disk
            RuleSource {
                pattern: r#"^(Disk) (?:\/([^\/: ]+))+"#,
                colors: vec![Colors::Yellow, Colors::OnYellow, Colors::BYellow, Colors::BYellow],
            },
            // Error
            RuleSource {
                pattern: r#"fdisk: cannot open ([^:]+).*$"#,
                colors: vec![Colors::Red, Colors::BRed],
            },
        ]
    }
}

} // verus!
