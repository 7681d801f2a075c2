//! Rules for the output of `id`.
use vstd::prelude::*;
use crate::color::Colors;
use crate::registry::RuleSource;

verus! {

/// The `id` subcommand.
pub struct Cmd {}

impl Cmd {
    /// The rules, highest priority first.
    pub fn rules() -> (r: Vec<RuleSource>)
        ensures
            r@.len() == 3,
            forall|i: int| 0 <= i < r@.len() ==> (#[trigger] r@[i]).colors@.len() >= 1,
    {
        vec![
            // SELinux
            RuleSource {
                pattern: r#"(\w+_u):(\w+_r):(\w+_t):([\w\-.:]+)"#,
                colors: vec![Colors::UnChanged, Colors::Green, Colors::Yellow, Colors::Cyan, Colors::Magenta],
            },
            // User
            RuleSource {
                pattern: r#"uid.(\d+)\((\w+)\)"#,
                colors: vec![Colors::UnChanged, Colors::Green, Colors::BGreen],
            },
            // Groups
            RuleSource {
                pattern: r#"(\d+)\((\w+)\)"#,
                colors: vec![Colors::UnChanged, Colors::Yellow, Colors::BYellow],
            },
        ]
    }
}

} // verus!
