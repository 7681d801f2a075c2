//! Shell aliases with a `u` in front of each command's name.
use vstd::prelude::*;
use crate::cli::alias::{alias_lines, alias_text, names_view};

verus! {

/// The `ualias` subcommand.
pub struct Cmd {}

impl Cmd {
    /// `alias u<name>='ufc <name>'` for each name, one per line.
    pub fn gen(subcommands: &Vec<&str>) -> (r: String)
        ensures
            r@ == alias_text(names_view(subcommands@), "u"@),
    {
        alias_lines(subcommands, "u")
    }
}

} // verus!
