//! Building a list of rules from a table of patterns and named styles.
use vstd::prelude::*;
use crate::color::{Colors, Paint, paint_of};
use crate::highlight::{Palette, RuleView, rules_view};
use crate::pattern::{Pattern, PatternError, regex_compiles};

verus! {

/// One rule as a table writes it: a pattern and the named styles of the whole
/// match and of each group.
pub struct RuleSource {
    pub pattern: &'static str,
    pub colors: Vec<Colors>,
}

/// The entries that a list of named styles stands for.
pub open spec fn paints_of(colors: Seq<Colors>) -> Seq<Paint> {
    colors.map_values(|c: Colors| paint_of(c))
}

/// The rule that a table row stands for.
pub open spec fn source_view(s: RuleSource) -> RuleView {
    (s.pattern@, paints_of(s.colors@))
}

fn paints(colors: &Vec<Colors>) -> (r: Vec<Paint>)
    ensures
        r@ == paints_of(colors@),
{
    let mut out: Vec<Paint> = Vec::new();
    let mut i: usize = 0;
    while i < colors.len()
        invariant
            i <= colors@.len(),
            out@ == paints_of(colors@.take(i as int)),
        decreases colors.len() - i,
    {
        out.push(colors[i].paint());
        proof {
            assert(paints_of(colors@.take(i as int + 1)) =~= paints_of(colors@.take(i as int)).push(
                paint_of(colors@[i as int]),
            ));
        }
        i += 1;
    }
    proof {
        assert(colors@.take(i as int) =~= colors@);
    }
    out
}

/// Compiles a table into rules, in the same order. Fails on the first
/// pattern that does not compile, and only when one does not.
pub fn build_palettes(sources: &Vec<RuleSource>) -> (r: Result<Vec<Palette>, PatternError>)
    ensures
        r is Ok <==> forall|i: int| 0 <= i < sources@.len() ==> regex_compiles(#[trigger] sources@[i].pattern@),
        r matches Ok(v) ==> rules_view(v@) == sources@.map_values(|s: RuleSource| source_view(s)),
        r matches Err(e) ==> exists|i: int|
            0 <= i < sources@.len() && !regex_compiles(#[trigger] sources@[i].pattern@)
                && e.pattern@ == sources@[i].pattern@,
{
    let mut out: Vec<Palette> = Vec::new();
    let mut i: usize = 0;
    while i < sources.len()
        invariant
            i <= sources@.len(),
            forall|j: int| 0 <= j < i ==> regex_compiles(#[trigger] sources@[j].pattern@),
            rules_view(out@) == sources@.take(i as int).map_values(|s: RuleSource| source_view(s)),
        decreases sources.len() - i,
    {
        let source = &sources[i];
        match Pattern::new(source.pattern) {
            Ok(regexp) => {
                let ghost before = out@;
                out.push(Palette { regexp, colors: paints(&source.colors) });
                proof {
                    assert(rules_view(out@) =~= rules_view(before).push(source_view(sources@[i as int])));
                    assert(sources@.take(i as int + 1).map_values(|s: RuleSource| source_view(s))
                        =~= sources@.take(i as int).map_values(|s: RuleSource| source_view(s)).push(
                        source_view(sources@[i as int]),
                    ));
                }
            },
            Err(e) => {
                return Err(e);
            },
        }
        i += 1;
    }
    proof {
        assert(sources@.take(i as int) =~= sources@);
    }
    Ok(out)
}

} // verus!
