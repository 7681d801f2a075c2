//! Shell aliases that route each supported command through the colorizer.
use vstd::prelude::*;
use crate::text::push_str;

verus! {

/// One alias line: `alias <prefix><name>='ufc <name>'`.
pub open spec fn alias_line(name: Seq<char>, prefix: Seq<char>) -> Seq<char> {
    "alias "@ + prefix + name + "='ufc "@ + name + "'"@
}

/// The alias lines of the names, separated by newlines.
pub open spec fn alias_text(names: Seq<Seq<char>>, prefix: Seq<char>) -> Seq<char>
    decreases names.len(),
{
    if names.len() == 0 {
        seq![]
    } else if names.len() == 1 {
        alias_line(names[0], prefix)
    } else {
        alias_text(names.drop_last(), prefix) + "\n"@ + alias_line(names.last(), prefix)
    }
}

pub open spec fn names_view(names: Seq<&str>) -> Seq<Seq<char>> {
    names.map_values(|n: &str| n@)
}

/// The alias lines for `subcommands`, each alias named `prefix` then the
/// command, one per line, without a final newline.
pub fn alias_lines(subcommands: &Vec<&str>, prefix: &str) -> (r: String)
    ensures
        r@ == alias_text(names_view(subcommands@), prefix@),
{
    let mut out = String::new();
    let mut i: usize = 0;
    while i < subcommands.len()
        invariant
            i <= subcommands@.len(),
            out@ == alias_text(names_view(subcommands@).take(i as int), prefix@),
        decreases subcommands.len() - i,
    {
        let name = subcommands[i];
        if i > 0 {
            push_str(&mut out, "\n");
        }
        push_str(&mut out, "alias ");
        push_str(&mut out, prefix);
        push_str(&mut out, name);
        push_str(&mut out, "='ufc ");
        push_str(&mut out, name);
        push_str(&mut out, "'");
        proof {
            let t = names_view(subcommands@).take(i as int + 1);
            assert(t.drop_last() =~= names_view(subcommands@).take(i as int));
            assert(t.last() == name@);
            if i == 0 {
                assert(alias_text(names_view(subcommands@).take(0), prefix@) =~= Seq::<char>::empty());
                assert(out@ =~= alias_line(name@, prefix@));
            } else {
                assert(out@ =~= alias_text(t.drop_last(), prefix@) + "\n"@ + alias_line(name@, prefix@));
            }
        }
        i += 1;
    }
    proof {
        assert(names_view(subcommands@).take(i as int) =~= names_view(subcommands@));
    }
    out
}

/// The `alias` subcommand.
pub struct Cmd {}

impl Cmd {
    /// `alias <name>='ufc <name>'` for each name, one per line.
    pub fn gen(subcommands: &Vec<&str>) -> (r: String)
        ensures
            r@ == alias_text(names_view(subcommands@), ""@),
    {
        alias_lines(subcommands, "")
    }
}

} // verus!
