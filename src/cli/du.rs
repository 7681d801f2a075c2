//! Rules for the output of `du`.
use vstd::prelude::*;
use crate::color::Colors;
use crate::registry::RuleSource;

verus! {

/// The `du` subcommand.
pub struct Cmd {}

impl Cmd {
    /// The rules, highest priority first.
    pub fn rules() -> (r: Vec<RuleSource>)
        ensures
            r@.len() == 10,
            forall|i: int| 0 <= i < r@.len() ==> (#[trigger] r@[i]).colors@.len() >= 1,
    {
        vec![
            // Path
            RuleSource {
                pattern: r#"\s+[\./]+([\w\s\-\_\.]+)(/.*)?$"#,
                colors: vec![Colors::Default, Colors::BBlue, Colors::Blue],
            },
            // Total
            RuleSource {
                pattern: r#"(.*)\s+(total)$"#,
                colors: vec![Colors::BYellow],
            },
            // Size 'T'
            RuleSource {
                pattern: r#"^ ?\d*[.,]?\dTi?"#,
                colors: vec![Colors::BRed],
            },
            // Size 'G'
            RuleSource {
                pattern: r#"^ ?\d*[.,]?\dGi?"#,
                colors: vec![Colors::Red],
            },
            RuleSource {
                pattern: r#"^\d{7,9}"#,
                colors: vec![Colors::Red],
            },
            // Size 'M'
            RuleSource {
                pattern: r#"^ ?\d*[.,]?\dMi?"#,
                colors: vec![Colors::Yellow],
            },
            RuleSource {
                pattern: r#"^\d{4,6}"#,
                colors: vec![Colors::Yellow],
            },
            // Size 'K'
            RuleSource {
                pattern: r#"^ ?\d*[.,]?\dKi?"#,
                colors: vec![Colors::Green],
            },
            RuleSource {
                pattern: r#"^\d{1,3}"#,
                colors: vec![Colors::Green],
            },
            // Cannot read error
            RuleSource {
                pattern: r#"^du.*"#,
                colors: vec![Colors::Red],
            },
        ]
    }
}

} // verus!
