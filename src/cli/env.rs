//! Rules for the output of `env`.
use vstd::prelude::*;
use crate::color::Colors;
use crate::registry::RuleSource;

verus! {

/// The `env` subcommand.
pub struct Cmd {}

impl Cmd {
    /// The rules, highest priority first.
    pub fn rules() -> (r: Vec<RuleSource>)
        ensures
            r@.len() == 1,
            forall|i: int| 0 <= i < r@.len() ==> (#[trigger] r@[i]).colors@.len() >= 1,
    {
        vec![
            // Main
            RuleSource {
                pattern: r#"^([^=]+)(=)(.*)$"#,
                colors: vec![Colors::Default, Colors::Cyan, Colors::White, Colors::Yellow],
            },
        ]
    }
}

} // verus!
