//! Rules for the output of `docker ps`.
use vstd::prelude::*;
use crate::color::Colors;
use crate::registry::RuleSource;

verus! {

/// The `docker ps` subcommand.
pub struct Cmd {}

impl Cmd {
    /// The rules, highest priority first.
    pub fn rules() -> (r: Vec<RuleSource>)
        ensures
            r@.len() == 20,
            forall|i: int| 0 <= i < r@.len() ==> (#[trigger] r@[i]).colors@.len() >= 1,
    {
        vec![
            // HEADERS
            RuleSource {
                pattern: r#"(?:\s|^)(CONTAINER ID|IMAGE|COMMAND|CREATED|STATUS|PORTS|NAMES)(?:\s|$)"#,
                colors: vec![Colors::Default, Colors::UDefault],
            },
            // IMAGE NAME (as docker image)
            RuleSource {
                pattern: r#"\s{2,}(?:([a-z\-_0-9]+)\/)*([a-z\-_0-9]+)(:\S+)?\s{2,}\""#,
                colors: vec![Colors::UnChanged, Colors::Yellow, Colors::BWhite, Colors::Cyan],
            },
            // IMAGE
            RuleSource {
                pattern: r#"^(?!CONTAINER)(\w+)\s+([^\s]+)\s+(".*")\s+(.*(?=(?:Up|Exited|Created|Restarting)))"#,
                colors: vec![Colors::UnChanged, Colors::BBlack, Colors::UnChanged, Colors::BBlack, Colors::Cyan],
            },
            // Statuses - Created
            RuleSource {
                pattern: r#"\sCreated\s"#,
                colors: vec![Colors::Blue],
            },
            // Statuses
            // https://github.com/docker/docker/blob/e5a3f86e447dd659da3c2e759f3c088a0bfcfe3d/container/state.go#L40
            // Up
            RuleSource {
                pattern: r#"(?:\s{2}|^)(?:Up|Restarting)(?:(?:\s[\w,\d]+)+)?"#,
                colors: vec![Colors::BGreen],
            },
            // Health - healthy
            RuleSource {
                pattern: r#"\s\(healthy\)"#,
                colors: vec![Colors::BGreen],
            },
            // Health -  starting
            RuleSource {
                pattern: r#"\s\(health: starting\)"#,
                colors: vec![Colors::BYellow],
            },
            // Health -  unhealthy
            RuleSource {
                pattern: r#"\s\(unhealthy\)"#,
                colors: vec![Colors::BRed],
            },
            // Statuses -  Exited
            RuleSource {
                pattern: r#"Exited\s.\d+."#,
                colors: vec![Colors::BRed, Colors::Red],
            },
            // Statuses -  Restarting
            RuleSource {
                pattern: r#"Restarting\s.\d+."#,
                colors: vec![Colors::BBlue],
            },
            // CREATED seconds
            RuleSource {
                pattern: r#"\s+(\d+\sseconds?\s\w+)"#,
                colors: vec![Colors::UnChanged, Colors::UnChanged, Colors::UnChanged],
            },
            // CREATED About a minute ago
            RuleSource {
                pattern: r#"\s+(About a minute ago)\s"#,
                colors: vec![Colors::UnChanged, Colors::UnChanged, Colors::UnChanged],
            },
            // CREATED minutes
            RuleSource {
                pattern: r#"\s+(\d+\sminutes\s\w+)"#,
                colors: vec![Colors::UnChanged, Colors::UnChanged, Colors::UnChanged],
            },
            // CREATED hours
            RuleSource {
                pattern: r#"\s+(\d+\shours?\s\w+)"#,
                colors: vec![Colors::UnChanged, Colors::UnChanged],
            },
            // CREATED days
            RuleSource {
                pattern: r#"\s+(\d+\sdays?\s\w+)"#,
                colors: vec![Colors::UnChanged, Colors::UnChanged],
            },
            // CREATED weeks
            RuleSource {
                pattern: r#"\s+(\d+\sweeks?\s\w+)"#,
                colors: vec![Colors::UnChanged, Colors::UnChanged],
            },
            // CREATED months
            RuleSource {
                pattern: r#"\s+(\d+\smonths?\s\w+)"#,
                colors: vec![Colors::UnChanged, Colors::UnChanged],
            },
            // Ip Addresses
            RuleSource {
                pattern: r#"(\d{1,3}\.\d{1,3}\.\d{1,3}\.\d{1,3})(\:)?"#,
                colors: vec![Colors::Default, Colors::Blue, Colors::Default],
            },
            // Ports
            RuleSource {
                pattern: r#"(\d{1,5})?(-)?(\d{1,5})?(->)?(\d{1,5})(-)?(\d{1,5})?(\/)(tcp|udp)"#,
                colors: vec![Colors::Default, Colors::BGreen, Colors::Default, Colors::BGreen, Colors::Default, Colors::BGreen, Colors::Default, Colors::BGreen, Colors::Default, Colors::Cyan],
            },
            // NAMES
            RuleSource {
                pattern: r#"(?:([a-z\-_0-9]+)\/)*([a-z\-_0-9]+)$"#,
                colors: vec![Colors::Default, Colors::Yellow, Colors::OnBlue, Colors::White],
            },
        ]
    }
}

} // verus!
