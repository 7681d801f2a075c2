//! Rules for the output of `findmnt`.
use vstd::prelude::*;
use crate::color::Colors;
use crate::registry::RuleSource;

verus! {

/// The `findmnt` subcommand.
pub struct Cmd {}

impl Cmd {
    /// The rules, highest priority first.
    pub fn rules() -> (r: Vec<RuleSource>)
        ensures
            r@.len() == 7,
            forall|i: int| 0 <= i < r@.len() ==> (#[trigger] r@[i]).colors@.len() >= 1,
    {
        vec![
            // MS Types
            RuleSource {
                pattern: r#"\b(fat|vfat|ntfs|msdos)\b"#,
                colors: vec![Colors::OnCyan],
            },
            // Common Types
            RuleSource {
                pattern: r#"\b(ext\d|xfs|btrfs|nfs)\b"#,
                colors: vec![Colors::Cyan],
            },
            // Like comment, leave at end always
            RuleSource {
                pattern: r#"^.*(?=cgroup|tmpfs).*$"#,
                colors: vec![Colors::BBlack],
            },
            // RO
            RuleSource {
                pattern: r#"(?:\s)ro"#,
                colors: vec![Colors::BGreen],
            },
            // RW
            RuleSource {
                pattern: r#"(?:\s)rw"#,
                colors: vec![Colors::BRed],
            },
            // Mount Path
            RuleSource {
                pattern: r#"(?<=â”€|-)(?:\/([^\/ ]+))+"#,
                colors: vec![Colors::UnChanged, Colors::BYellow],
            },
            // Devices
            RuleSource {
                pattern: r#"\s\/dev(?:\/([^\/ ]+))+"#,
                colors: vec![Colors::Green, Colors::BGreen],
            },
        ]
    }
}

} // verus!
