//! Rules for `docker`: its `ps` and `images` subcommands have rules of
//! their own; any other use of `docker` is passed through uncolored.
use vstd::prelude::*;
use crate::registry::RuleSource;

pub mod images;
pub mod ps;

verus! {

/// The `docker` subcommand.
pub struct Cmd {}

impl Cmd {
    /// The rules for `docker` without a subcommand that has rules: none.
    pub fn rules() -> (r: Vec<RuleSource>)
        ensures
            r@.len() == 0,
    {
        Vec::new()
    }
}

} // verus!
