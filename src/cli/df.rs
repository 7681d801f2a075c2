//! Rules for the output of `df`.
use vstd::prelude::*;
use crate::color::Colors;
use crate::registry::RuleSource;

verus! {

/// The `df` subcommand.
pub struct Cmd {}

impl Cmd {
    /// The rules, highest priority first.
    pub fn rules() -> (r: Vec<RuleSource>)
        ensures
            r@.len() == 11,
            forall|i: int| 0 <= i < r@.len() ==> (#[trigger] r@[i]).colors@.len() >= 1,
    {
        vec![
            // FS
            RuleSource {
                pattern: r#"^(?!Filesystem)(\/[-\w\d.]+)+\s"#,
                colors: vec![Colors::Blue, Colors::BBlue],
            },
            // tmpfs lines
            RuleSource {
                pattern: r#"^tmpfs.*"#,
                colors: vec![Colors::BBlack],
            },
            // Mounted on
            RuleSource {
                pattern: r#"\/$|(\/[-\w\d. ]+)+$"#,
                colors: vec![Colors::Green, Colors::BGreen],
            },
            // Use 0-60%
            RuleSource {
                pattern: r#"\s[1-6]?[0-9]%\s"#,
                colors: vec![Colors::Green],
            },
            // 70-89%
            RuleSource {
                pattern: r#"\s[78][0-9]%\s"#,
                colors: vec![Colors::Yellow],
            },
            // 90-97%
            RuleSource {
                pattern: r#"\s9[0-7]%\s"#,
                colors: vec![Colors::Red],
            },
            // Use 98-100%
            RuleSource {
                pattern: r#"\s9[89]%|100%\s"#,
                colors: vec![Colors::BRed],
            },
            // Size 'T'
            RuleSource {
                pattern: r#"\s\d*[.,]?\dTi?\s|\b\d{10,12}\b"#,
                colors: vec![Colors::BRed],
            },
            // Size 'G'
            RuleSource {
                pattern: r#"\s\d*[.,]?\dGi?\s|\b\d{7,9}\b"#,
                colors: vec![Colors::Red],
            },
            // Size 'M'
            RuleSource {
                pattern: r#"\s\d*[.,]?\dMi?\s|\b\d{4,6}\b"#,
                colors: vec![Colors::Yellow],
            },
            // Size 'K'
            RuleSource {
                pattern: r#"\s\d*[.,]?\d(K|B)i?\s|\b\d{1,3}\b"#,
                colors: vec![Colors::Green],
            },
        ]
    }
}

} // verus!
