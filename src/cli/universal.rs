//! Generic rules for commands without rules of their own: status words,
//! addresses, percentages, sizes and numbers.
use vstd::prelude::*;
use crate::color::Colors;
use crate::registry::RuleSource;

verus! {

/// The fallback for subcommands without rules of their own.
pub struct Cmd {}

impl Cmd {
    /// The rules, highest priority first.
    pub fn rules() -> (r: Vec<RuleSource>)
        ensures
            r@.len() == 14,
            forall|i: int| 0 <= i < r@.len() ==> (#[trigger] r@[i]).colors@.len() >= 1,
    {
        vec![
            // Warning
            RuleSource {
                pattern: r#"[Ww]arning|[Aa]lert"#,
                colors: vec![Colors::Yellow],
            },
            // Negative
            RuleSource {
                pattern: r#"[Dd]isabled?|[Ee]rrors?|[Ss]topped|[Ff]alse|[Nn]one|[Tt]erminated|[Ff]aile?d?"#,
                colors: vec![Colors::Red],
            },
            // Positive
            RuleSource {
                pattern: r#"[Ee]nabled?|[Oo]k|[Rr]unning|[Tt]rue|[Rr]eady|[Aa]ctive|[Aa]vailable|[Aa]pproved|[Cc]reated|[Cc]ompleted"#,
                colors: vec![Colors::Green],
            },
            // ipv6
            RuleSource {
                pattern: r#"\b[0-9a-fA-F]{1,4}(\:\:?[0-9a-fA-F]{1,4})+"#,
                colors: vec![Colors::BCyan],
            },
            // ipv4
            RuleSource {
                pattern: r#"\d{1,3}\.\d{1,3}\.\d{1,3}\.\d{1,3}"#,
                colors: vec![Colors::Cyan],
            },
            // 98-100%
            RuleSource {
                pattern: r#"9[89]%|100%"#,
                colors: vec![Colors::BRed],
            },
            // 90-97%
            RuleSource {
                pattern: r#"9[0-7]%"#,
                colors: vec![Colors::Red],
            },
            // 70-89%
            RuleSource {
                pattern: r#"[78][0-9]%"#,
                colors: vec![Colors::Yellow],
            },
            // Use 0-60%
            RuleSource {
                pattern: r#"[1-6]?[0-9]%"#,
                colors: vec![Colors::Green],
            },
            // Size 'T'
            RuleSource {
                pattern: r#"\s\d*[.,]?\dTi?|\b\d{10,12}\b"#,
                colors: vec![Colors::BRed],
            },
            // Size 'G'
            RuleSource {
                pattern: r#"\s\d*[.,]?\dGi?|\b\d{7,9}\b"#,
                colors: vec![Colors::Red],
            },
            // Size 'M'
            RuleSource {
                pattern: r#"\s\d*[.,]?\dMi?|\b\d{4,6}\b"#,
                colors: vec![Colors::Yellow],
            },
            // Size 'K'
            RuleSource {
                pattern: r#"\s\d*[.,]?\dKi?|\b\d{1,3}\b"#,
                colors: vec![Colors::Green],
            },
            // Numbers
            RuleSource {
                pattern: r#"\d*\.?\d+"#,
                colors: vec![Colors::BBlue],
            },
        ]
    }
}

} // verus!
