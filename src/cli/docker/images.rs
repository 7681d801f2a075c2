//! Rules for the output of `docker images`.
use vstd::prelude::*;
use crate::color::Colors;
use crate::registry::RuleSource;

verus! {

/// The `docker images` subcommand.
pub struct Cmd {}

impl Cmd {
    /// The rules, highest priority first.
    pub fn rules() -> (r: Vec<RuleSource>)
        ensures
            r@.len() == 16,
            forall|i: int| 0 <= i < r@.len() ==> (#[trigger] r@[i]).colors@.len() >= 1,
    {
        vec![
            // HEADERS
            RuleSource {
                pattern: r#"(?:\s|^)(REPOSITORY|TAG|IMAGE ID|CREATED|SIZE)(?:\s|$)"#,
                colors: vec![Colors::Default, Colors::UDefault],
            },
            // CREATED months
            RuleSource {
                pattern: r#"\s+(\d+\smonths\s\w+)"#,
                colors: vec![Colors::Default, Colors::Red],
            },
            // CREATED weeks
            RuleSource {
                pattern: r#"\s+(\d+\sweeks\s\w+)"#,
                colors: vec![Colors::Default, Colors::Yellow],
            },
            // CREATED days
            RuleSource {
                pattern: r#"\s+(\d+\sdays\s\w+)"#,
                colors: vec![Colors::Default, Colors::Green],
            },
            // CREATED hours
            RuleSource {
                pattern: r#"\s+(\d+\shours\s\w+)"#,
                colors: vec![Colors::Default, Colors::BGreen],
            },
            // CREATED About a minute ago
            RuleSource {
                pattern: r#"\s+(About a minute ago)\s\w+"#,
                colors: vec![Colors::Default, Colors::OnGreen, Colors::BWhite],
            },
            // CREATED seconds/minutes
            RuleSource {
                pattern: r#"[\da-f]{12}\s+((?:About a|\d+) (?:seconds?|minutes?) ago)"#,
                colors: vec![Colors::Default, Colors::OnGreen, Colors::BWhite],
            },
            // Size 'G'
            RuleSource {
                pattern: r#"(?<=\s)\d+[.,]?\d*\s?GB?"#,
                colors: vec![Colors::Red],
            },
            // Size 'M' 3+ digits
            RuleSource {
                pattern: r#"(?<=\s)\d{3,4}[.,]?\d*\s?MB?"#,
                colors: vec![Colors::Yellow],
            },
            // Size 'M', 2 digits
            RuleSource {
                pattern: r#"(?<=\s)\d{1,2}[.,]?\d*\s?MB?"#,
                colors: vec![Colors::Green],
            },
            // Size 'K'
            RuleSource {
                pattern: r#"(?<=\s)\d+[.,]?\d*\s?(KB?|B)"#,
                colors: vec![Colors::Green],
            },
            // images without tag
            RuleSource {
                pattern: r#"\s+(<none>)\s+"#,
                colors: vec![Colors::UnChanged, Colors::BRed],
            },
            // images without name
            RuleSource {
                pattern: r#"^<none>.*$"#,
                colors: vec![Colors::BRed],
            },
            // REPOSITORY (Image name)
            RuleSource {
                pattern: r#"^(?:(\S+)\/)*(\S+)\s"#,
                colors: vec![Colors::Default, Colors::Yellow, Colors::BWhite],
            },
            // latest
            RuleSource {
                pattern: r#"(?<=\s)latest(?=\s+)"#,
                colors: vec![Colors::DCyan],
            },
            // REPO, TAG, IMAGE ID
            RuleSource {
                pattern: r#"^([a-z]+\/?[^\s]+)\s+([^\s]+)\s+(\w+)"#,
                colors: vec![Colors::Default, Colors::BWhite, Colors::BCyan, Colors::BBlack],
            },
        ]
    }
}

} // verus!
