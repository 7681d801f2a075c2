//! What holds of every line and every list of rules.
use vstd::prelude::*;
use crate::color::{Color, Paint, default_color};
use crate::highlight::{
    Cut, Frag, RuleView, cut_pieces, expand, highlight_spec, joined, lemma_filter_joined,
    lemma_joined_append, lemma_pass_joined, lemma_run_joined, non_empty, pass, run,
};

verus! {

/// Joining the texts of the highlighted fragments gives back the line, byte
/// for byte, whatever the rules.
pub proof fn lemma_round_trip(line: Seq<u8>, rules: Seq<RuleView>)
    requires
        line.len() <= usize::MAX,
    ensures
        joined(highlight_spec(line, rules)) == line,
{
    let start = seq![(line, default_color())];
    reveal_with_fuel(joined, 2);
    assert(start.drop_last() =~= Seq::<Frag>::empty());
    assert(joined(start) =~= line);
    lemma_run_joined(start, rules, default_color());
    lemma_filter_joined(run(start, rules, default_color()).0);
}

/// The highlighted fragments partition the line: none is empty, and fragment
/// `i` is exactly the bytes of the line from the end of fragment `i - 1` on.
pub proof fn lemma_partition(line: Seq<u8>, rules: Seq<RuleView>)
    requires
        line.len() <= usize::MAX,
    ensures
        ({
            let h = highlight_spec(line, rules);
            &&& forall|i: int| 0 <= i < h.len() ==> (#[trigger] h[i]).0.len() > 0
            &&& forall|i: int|
                0 <= i < h.len() ==> line.subrange(
                    joined(h.take(i)).len() as int,
                    joined(h.take(i + 1)).len() as int,
                ) == (#[trigger] h[i]).0
        }),
{
    let all = run(seq![(line, default_color())], rules, default_color()).0;
    let h = highlight_spec(line, rules);
    lemma_round_trip(line, rules);
    assert forall|i: int| 0 <= i < h.len() implies (#[trigger] h[i]).0.len() > 0 by {
        all.lemma_filter_pred(|f: Frag| non_empty(f), i);
    }
    assert forall|i: int| 0 <= i < h.len() implies line.subrange(
        joined(h.take(i)).len() as int,
        joined(h.take(i + 1)).len() as int,
    ) == (#[trigger] h[i]).0 by {
        let t = h.take(i + 1);
        assert(t.drop_last() =~= h.take(i));
        assert(t.last() == h[i]);
        lemma_joined_append(t, h.skip(i + 1));
        assert(t + h.skip(i + 1) =~= h);
        let pre = joined(h.take(i));
        assert(line.subrange(pre.len() as int, (pre.len() + h[i].0.len()) as int) =~= h[i].0);
    }
}

/// One pass over two lists one after the other is the pass over the first,
/// then the pass over the second, carrying the color last resolved.
pub proof fn lemma_pass_append(x: Seq<Frag>, y: Seq<Frag>, rule: RuleView, last: Color)
    ensures
        pass(x + y, rule, last) == ({
            let p = pass(x, rule, last);
            let q = pass(y, rule, p.1);
            (p.0 + q.0, q.1)
        }),
    decreases y.len(),
{
    if y.len() == 0 {
        assert(x + y =~= x);
        assert(pass(x, rule, last).0 + Seq::<Frag>::empty() =~= pass(x, rule, last).0);
    } else {
        lemma_pass_append(x, y.drop_last(), rule, last);
        assert((x + y).drop_last() =~= x + y.drop_last());
        assert((x + y).last() == y.last());
        let p = pass(x, rule, last);
        let q = pass(y.drop_last(), rule, p.1);
        let e = expand(y.last(), rule, q.1);
        assert(p.0 + q.0 + e.0 =~= p.0 + (q.0 + e.0));
    }
}

/// Running two lists of rules one after the other is running the second on
/// what the first left.
pub proof fn lemma_run_append(frags: Seq<Frag>, r1: Seq<RuleView>, r2: Seq<RuleView>, last: Color)
    ensures
        run(frags, r1 + r2, last) == ({
            let p = run(frags, r1, last);
            run(p.0, r2, p.1)
        }),
    decreases r2.len(),
{
    if r2.len() == 0 {
        assert(r1 + r2 =~= r1);
    } else {
        lemma_run_append(frags, r1, r2.drop_last(), last);
        assert((r1 + r2).drop_last() =~= r1 + r2.drop_last());
        assert((r1 + r2).last() == r2.last());
    }
}

/// Once a fragment holds a color other than the default, no later rule
/// recolors or splits it: after any rules, it is still one fragment of the
/// result, with the fragments before it spelling out exactly the text before
/// it, and those after it the text after it.
pub proof fn lemma_frozen_fragment(a: Seq<Frag>, f: Frag, c: Seq<Frag>, rules: Seq<RuleView>, last: Color)
    requires
        f.1 != default_color(),
        joined(a + seq![f] + c).len() <= usize::MAX,
    ensures
        exists|a2: Seq<Frag>, c2: Seq<Frag>|
            #![trigger joined(a2), joined(c2)]
            run(a + seq![f] + c, rules, last).0 == a2 + seq![f] + c2 && joined(a2) == joined(a)
                && joined(c2) == joined(c),
    decreases rules.len(),
{
    if rules.len() == 0 {
        assert(joined(a) == joined(a) && joined(c) == joined(c));
    } else {
        lemma_frozen_fragment(a, f, c, rules.drop_last(), last);
        let p = run(a + seq![f] + c, rules.drop_last(), last);
        let (a1, c1) = choose|a1: Seq<Frag>, c1: Seq<Frag>|
            #![trigger joined(a1), joined(c1)]
            p.0 == a1 + seq![f] + c1 && joined(a1) == joined(a) && joined(c1) == joined(c);
        let rule = rules.last();
        lemma_run_joined(a + seq![f] + c, rules.drop_last(), last);
        lemma_joined_append(a1, seq![f] + c1);
        lemma_joined_append(seq![f], c1);
        assert(a1 + seq![f] + c1 =~= a1 + (seq![f] + c1));
        lemma_pass_append(a1, seq![f] + c1, rule, p.1);
        let l1 = pass(a1, rule, p.1).1;
        lemma_pass_append(seq![f], c1, rule, l1);
        assert(seq![f].drop_last() =~= Seq::<Frag>::empty());
        assert(pass(Seq::<Frag>::empty(), rule, l1) == (Seq::<Frag>::empty(), l1));
        assert(expand(f, rule, l1) == (seq![f], l1));
        assert(Seq::<Frag>::empty() + seq![f] =~= seq![f]);
        assert(pass(seq![f], rule, l1) == (seq![f], l1));
        let a2 = pass(a1, rule, p.1).0;
        let c2 = pass(c1, rule, l1).0;
        lemma_pass_joined(a1, rule, p.1);
        lemma_pass_joined(c1, rule, l1);
        assert(a2 + (seq![f] + c2) =~= a2 + seq![f] + c2);
        assert(run(a + seq![f] + c, rules, last).0 == a2 + seq![f] + c2);
        assert(joined(a2) == joined(a) && joined(c2) == joined(c));
    }
}

/// Where the first rule gives part of a line a color other than the default,
/// the rules after it cannot touch that part: it stays one fragment with the
/// first rule's color, at the same place in the line.
pub proof fn lemma_priority(line: Seq<u8>, first: RuleView, rest: Seq<RuleView>, i: int)
    requires
        line.len() <= usize::MAX,
        0 <= i < pass(seq![(line, default_color())], first, default_color()).0.len(),
        pass(seq![(line, default_color())], first, default_color()).0[i].1 != default_color(),
    ensures
        ({
            let p = pass(seq![(line, default_color())], first, default_color()).0;
            exists|a2: Seq<Frag>, c2: Seq<Frag>|
                #![trigger joined(a2), joined(c2)]
                run(seq![(line, default_color())], seq![first] + rest, default_color()).0 == a2
                    + seq![p[i]] + c2 && joined(a2) == joined(p.take(i)) && joined(c2) == joined(
                    p.skip(i + 1),
                )
        }),
{
    let start = seq![(line, default_color())];
    let first_pass = pass(start, first, default_color());
    let p = first_pass.0;
    assert(seq![first].drop_last() =~= Seq::<RuleView>::empty());
    assert(run(start, Seq::<RuleView>::empty(), default_color()) == (start, default_color()));
    assert(run(start, seq![first], default_color()) == first_pass);
    lemma_run_append(start, seq![first], rest, default_color());
    reveal_with_fuel(joined, 2);
    assert(start.drop_last() =~= Seq::<Frag>::empty());
    lemma_pass_joined(start, first, default_color());
    assert(p =~= p.take(i) + seq![p[i]] + p.skip(i + 1));
    lemma_frozen_fragment(p.take(i), p[i], p.skip(i + 1), rest, first_pass.1);
}

/// The color that the cuts leave as last resolved: the last `Fixed` entry
/// among them, or `last` when there is none.
pub open spec fn last_fixed(cuts: Seq<Cut>, last: Color) -> Color
    decreases cuts.len(),
{
    if cuts.len() == 0 {
        last
    } else {
        match cuts.last().1 {
            Some(Paint::Fixed(c)) => c,
            _ => last_fixed(cuts.drop_last(), last),
        }
    }
}

proof fn lemma_cut_pieces_last(b: Seq<u8>, cuts: Seq<Cut>, last: Color)
    ensures
        cut_pieces(b, cuts, last).1 == last_fixed(cuts, last),
        cut_pieces(b, cuts, last).0.len() == cuts.len(),
    decreases cuts.len(),
{
    if cuts.len() > 0 {
        lemma_cut_pieces_last(b, cuts.drop_last(), last);
    }
}

proof fn lemma_cut_pieces_prefix(b: Seq<u8>, cuts: Seq<Cut>, last: Color, k: int)
    requires
        0 <= k < cuts.len(),
    ensures
        cut_pieces(b, cuts, last).0[k] == cut_pieces(b, cuts.take(k + 1), last).0[k],
    decreases cuts.len(),
{
    lemma_cut_pieces_last(b, cuts.drop_last(), last);
    lemma_cut_pieces_last(b, cuts.take(k + 1), last);
    if k + 1 == cuts.len() {
        assert(cuts.take(k + 1) =~= cuts);
    } else {
        lemma_cut_pieces_prefix(b, cuts.drop_last(), last, k);
        assert(cuts.drop_last().take(k + 1) =~= cuts.take(k + 1));
    }
}

/// An `Inherit` entry takes the color resolved most recently while the same
/// line is colored: that of the last `Fixed` entry before it, or, when there
/// is none, the color carried in, which is the default at the start of a line.
pub proof fn lemma_inherit_resolution(b: Seq<u8>, cuts: Seq<Cut>, last: Color, k: int)
    requires
        0 <= k < cuts.len(),
        cuts[k].1 == Some(Paint::Inherit),
    ensures
        cut_pieces(b, cuts, last).0[k].1 == last_fixed(cuts.take(k), last),
        cut_pieces(b, cuts, last).1 == last_fixed(cuts, last),
{
    lemma_cut_pieces_prefix(b, cuts, last, k);
    let t = cuts.take(k + 1);
    assert(t.drop_last() =~= cuts.take(k));
    lemma_cut_pieces_last(b, cuts.take(k), last);
    lemma_cut_pieces_last(b, cuts, last);
}

/// Every line starts from the default: with no rules, a line is one default
/// fragment, and nothing resolved in one line reaches the next.
pub proof fn lemma_line_starts_default(line: Seq<u8>)
    requires
        line.len() > 0,
    ensures
        highlight_spec(line, Seq::<RuleView>::empty()) == seq![(line, default_color())],
{
    reveal_with_fuel(Seq::filter, 2);
    let s = seq![(line, default_color())];
    assert(s.drop_last() =~= Seq::<Frag>::empty());
    assert(Seq::<Frag>::empty().filter(|f: Frag| non_empty(f)) =~= Seq::<Frag>::empty());
    assert(Seq::<Frag>::empty().push((line, default_color())) =~= s);
}

} // verus!
