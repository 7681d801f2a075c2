//! The span highlighter: one line and an ordered list of rules in, a list of
//! colored fragments out.
use vstd::prelude::*;
use vstd::string::*;
use vstd::utf8::*;
use crate::color::{Color, Paint, default_color};
use crate::pattern::{Pattern, regex_captures};

verus! {

broadcast use vstd::utf8::group_utf8_lib;

/// A fragment as the proofs see it: its UTF-8 bytes and its color.
pub type Frag = (Seq<u8>, Color);

/// A rule as the proofs see it: the pattern's source and the rule's entries.
pub type RuleView = (Seq<char>, Seq<Paint>);

/// One cut of a matched fragment: where a piece ends, and its entry; `None`
/// marks the unmatched text before and after the match, which stays default.
pub type Cut = (usize, Option<Paint>);

/// A piece of a line with the color it is shown in.
pub struct Fragment {
    pub text: String,
    pub color: Color,
}

impl View for Fragment {
    type V = Frag;

    open spec fn view(&self) -> Frag {
        (encode_utf8(self.text@), self.color)
    }
}

/// One rule: a pattern and its entries. Entry 0 colors the whole match, or
/// the text between groups when groups took part; entry `i` colors group `i`.
pub struct Palette {
    pub regexp: Pattern,
    pub colors: Vec<Paint>,
}

impl View for Palette {
    type V = RuleView;

    open spec fn view(&self) -> RuleView {
        (self.regexp@, self.colors@)
    }
}

pub open spec fn frags_view(v: Seq<Fragment>) -> Seq<Frag> {
    v.map_values(|f: Fragment| f@)
}

pub open spec fn rules_view(v: Seq<Palette>) -> Seq<RuleView> {
    v.map_values(|p: Palette| p@)
}

/// The entry for the text of a match outside its groups; default when the
/// rule declares none.
pub open spec fn connective(colors: Seq<Paint>) -> Paint {
    if colors.len() > 0 {
        colors[0]
    } else {
        Paint::Fixed(default_color())
    }
}

/// The entry for group `i`; default when the rule declares fewer entries.
pub open spec fn group_paint(colors: Seq<Paint>, i: int) -> Paint {
    if 0 <= i < colors.len() {
        colors[i]
    } else {
        Paint::Fixed(default_color())
    }
}

/// A group is used when it took part in the match and lies, on character
/// boundaries, between the end of the last used group and the end of the match.
pub open spec fn usable(g: Option<(usize, usize)>, cursor: usize, end: usize, b: Seq<u8>) -> bool {
    match g {
        Some(s) => cursor <= s.0 && s.0 <= s.1 && s.1 <= end && is_char_boundary(b, s.0 as int)
            && is_char_boundary(b, s.1 as int),
        None => false,
    }
}

/// The cuts inside a match, from group `i` on, with `cursor` the end of the
/// last used group: connective text, then the group, for each used group,
/// and the connective text up to the end of the match.
pub open spec fn group_cuts(
    caps: Seq<Option<(usize, usize)>>,
    colors: Seq<Paint>,
    b: Seq<u8>,
    i: int,
    cursor: usize,
    end: usize,
) -> Seq<Cut>
    decreases caps.len() - i,
{
    if i >= caps.len() || i < 0 {
        seq![(end, Some(connective(colors)))]
    } else if usable(caps[i], cursor, end, b) {
        let s = caps[i].unwrap();
        seq![(s.0, Some(connective(colors))), (s.1, Some(group_paint(colors, i)))] + group_cuts(
            caps,
            colors,
            b,
            i + 1,
            s.1,
            end,
        )
    } else {
        group_cuts(caps, colors, b, i + 1, cursor, end)
    }
}

/// Whether the captures hold a whole match that lies within `b` on character
/// boundaries.
pub open spec fn whole_match(caps: Option<Seq<Option<(usize, usize)>>>, b: Seq<u8>) -> bool {
    match caps {
        Some(c) => c.len() >= 1 && match c[0] {
            Some(s) => s.0 <= s.1 && s.1 <= b.len() && is_char_boundary(b, s.0 as int)
                && is_char_boundary(b, s.1 as int),
            None => false,
        },
        None => false,
    }
}

/// All cuts of a fragment `b` under a match: the text before it, the match,
/// the text after it. `None` when there is no usable match.
pub open spec fn cuts_of(caps: Option<Seq<Option<(usize, usize)>>>, colors: Seq<Paint>, b: Seq<u8>) -> Option<Seq<Cut>> {
    if whole_match(caps, b) {
        let c = caps.unwrap();
        let s = c[0].unwrap();
        Some(seq![(s.0, None::<Paint>)] + group_cuts(c, colors, b, 1, s.0, s.1) + seq![(b.len() as usize, None::<Paint>)])
    } else {
        None
    }
}

/// The color an entry gets, and the color last resolved after it. An entry
/// `Inherit` takes the color last resolved; text outside the match is default
/// and leaves the last resolved color as it was.
pub open spec fn resolve(p: Option<Paint>, last: Color) -> (Color, Color) {
    match p {
        None => (default_color(), last),
        Some(Paint::Inherit) => (last, last),
        Some(Paint::Fixed(c)) => (c, c),
    }
}

/// Where the piece of cut `k` starts.
pub open spec fn cut_start(cuts: Seq<Cut>, k: int) -> int {
    if k == 0 { 0 } else { cuts[k - 1].0 as int }
}

/// The pieces that the cuts make of `b`, with their resolved colors, and the
/// color last resolved after them.
pub open spec fn cut_pieces(b: Seq<u8>, cuts: Seq<Cut>, last: Color) -> (Seq<Frag>, Color)
    decreases cuts.len(),
{
    if cuts.len() == 0 {
        (seq![], last)
    } else {
        let prev = cut_pieces(b, cuts.drop_last(), last);
        let k = cuts.len() - 1;
        let r = resolve(cuts[k].1, prev.1);
        (prev.0.push((b.subrange(cut_start(cuts, k), cuts[k].0 as int), r.0)), r.1)
    }
}

/// What one rule makes of one fragment. A fragment that already has a color
/// other than the default is left alone.
pub open spec fn expand(f: Frag, rule: RuleView, last: Color) -> (Seq<Frag>, Color) {
    if f.1 != default_color() {
        (seq![f], last)
    } else {
        match cuts_of(regex_captures(rule.0, f.0), rule.1, f.0) {
            None => (seq![f], last),
            Some(cuts) => cut_pieces(f.0, cuts, last),
        }
    }
}

/// One rule applied, left to right, to every fragment of a list.
pub open spec fn pass(frags: Seq<Frag>, rule: RuleView, last: Color) -> (Seq<Frag>, Color)
    decreases frags.len(),
{
    if frags.len() == 0 {
        (seq![], last)
    } else {
        let p = pass(frags.drop_last(), rule, last);
        let e = expand(frags.last(), rule, p.1);
        (p.0 + e.0, e.1)
    }
}

/// The rules applied in order.
pub open spec fn run(frags: Seq<Frag>, rules: Seq<RuleView>, last: Color) -> (Seq<Frag>, Color)
    decreases rules.len(),
{
    if rules.len() == 0 {
        (frags, last)
    } else {
        let p = run(frags, rules.drop_last(), last);
        pass(p.0, rules.last(), p.1)
    }
}

pub open spec fn non_empty(f: Frag) -> bool {
    f.0.len() > 0
}

/// The highlighted line: one default fragment holding the whole line, every
/// rule applied in order, the color last resolved starting at the default,
/// and empty fragments dropped at the end.
pub open spec fn highlight_spec(line: Seq<u8>, rules: Seq<RuleView>) -> Seq<Frag> {
    run(seq![(line, default_color())], rules, default_color()).0.filter(|f: Frag| non_empty(f))
}

/// The bytes of a list of fragments, one after another.
pub open spec fn joined(frags: Seq<Frag>) -> Seq<u8>
    decreases frags.len(),
{
    if frags.len() == 0 {
        seq![]
    } else {
        joined(frags.drop_last()) + frags.last().0
    }
}

/// Cuts that run left to right within `b`, starting at offset 0.
pub open spec fn ordered_cuts(b: Seq<u8>, cuts: Seq<Cut>) -> bool {
    forall|k: int|
        0 <= k < cuts.len() ==> cut_start(cuts, k) <= #[trigger] cuts[k].0 <= b.len()
}

/// Cuts that all fall on character boundaries of `b`.
pub open spec fn cuts_on_boundaries(b: Seq<u8>, cuts: Seq<Cut>) -> bool {
    forall|k: int| 0 <= k < cuts.len() ==> is_char_boundary(b, cuts[k].0 as int)
}

proof fn lemma_group_cuts_shape(
    caps: Seq<Option<(usize, usize)>>,
    colors: Seq<Paint>,
    b: Seq<u8>,
    i: int,
    cursor: usize,
    end: usize,
)
    requires
        cursor <= end,
        is_char_boundary(b, end as int),
    ensures
        ({
            let g = group_cuts(caps, colors, b, i, cursor, end);
            &&& g.len() >= 1
            &&& g.last().0 == end
            &&& cursor <= g[0].0
            &&& forall|k: int| 0 <= k < g.len() ==> g[k].0 <= end && is_char_boundary(b, g[k].0 as int)
            &&& forall|k: int| 0 < k < g.len() ==> g[k - 1].0 <= #[trigger] g[k].0
        }),
    decreases caps.len() - i,
{
    if i >= caps.len() || i < 0 {
    } else if usable(caps[i], cursor, end, b) {
        let s = caps[i].unwrap();
        lemma_group_cuts_shape(caps, colors, b, i + 1, s.1, end);
        let head = seq![(s.0, Some(connective(colors))), (s.1, Some(group_paint(colors, i)))];
        let rest = group_cuts(caps, colors, b, i + 1, s.1, end);
        let g = head + rest;
        assert(group_cuts(caps, colors, b, i, cursor, end) == g);
        assert forall|k: int| 0 < k < g.len() implies g[k - 1].0 <= #[trigger] g[k].0 by {
            if k >= 3 {
                assert(g[k - 1] == rest[k - 3]);
                assert(g[k] == rest[k - 2]);
            }
        }
    } else {
        lemma_group_cuts_shape(caps, colors, b, i + 1, cursor, end);
    }
}

/// The cuts of a match run left to right over the whole fragment, on
/// character boundaries, and end at its end.
pub proof fn lemma_cuts_of_shape(caps: Option<Seq<Option<(usize, usize)>>>, colors: Seq<Paint>, b: Seq<u8>)
    requires
        b.len() <= usize::MAX,
        cuts_of(caps, colors, b) is Some,
    ensures
        ({
            let cuts = cuts_of(caps, colors, b).unwrap();
            &&& ordered_cuts(b, cuts)
            &&& valid_utf8(b) ==> cuts_on_boundaries(b, cuts)
            &&& cuts.len() >= 1
            &&& cuts.last().0 == b.len()
        }),
{
    let c = caps.unwrap();
    let s = c[0].unwrap();
    lemma_group_cuts_shape(c, colors, b, 1, s.0, s.1);
    let g = group_cuts(c, colors, b, 1, s.0, s.1);
    let cuts = seq![(s.0, None::<Paint>)] + g + seq![(b.len() as usize, None::<Paint>)];
    assert(cuts_of(caps, colors, b) == Some(cuts));
    if valid_utf8(b) {
        is_char_boundary_start_end_of_seq(b);
    }
    assert forall|k: int| 0 <= k < cuts.len() implies cut_start(cuts, k) <= #[trigger] cuts[k].0 <= b.len()
        && (valid_utf8(b) ==> is_char_boundary(b, cuts[k].0 as int)) by {
        if 1 <= k <= g.len() {
            assert(cuts[k] == g[k - 1]);
            if k >= 2 {
                assert(cuts[k - 1] == g[k - 2]);
            }
        }
        if k == g.len() + 1 {
            assert(cuts[k - 1] == g[g.len() - 1]);
        }
    }
}

/// Bytes of a concatenation are the bytes of each part.
pub proof fn lemma_joined_append(a: Seq<Frag>, c: Seq<Frag>)
    ensures
        joined(a + c) == joined(a) + joined(c),
    decreases c.len(),
{
    if c.len() == 0 {
        assert(a + c =~= a);
        assert(joined(a) + joined(c) =~= joined(a));
    } else {
        lemma_joined_append(a, c.drop_last());
        assert((a + c).drop_last() =~= a + c.drop_last());
        assert((a + c).last() == c.last());
        assert(joined(a) + joined(c) =~= joined(a) + joined(c.drop_last()) + c.last().0);
    }
}

proof fn lemma_cut_pieces_joined(b: Seq<u8>, cuts: Seq<Cut>, last: Color)
    requires
        ordered_cuts(b, cuts),
    ensures
        cut_pieces(b, cuts, last).0.len() == cuts.len(),
        cuts.len() > 0 ==> joined(cut_pieces(b, cuts, last).0) == b.subrange(0, cuts.last().0 as int),
        cuts.len() == 0 ==> joined(cut_pieces(b, cuts, last).0) == Seq::<u8>::empty(),
    decreases cuts.len(),
{
    if cuts.len() > 0 {
        let prev = cuts.drop_last();
        assert(ordered_cuts(b, prev)) by {
            assert forall|k: int| 0 <= k < prev.len() implies cut_start(prev, k) <= #[trigger] prev[k].0 <= b.len() by {
                assert(cut_start(prev, k) == cut_start(cuts, k));
            }
        }
        lemma_cut_pieces_joined(b, prev, last);
        let k = cuts.len() - 1;
        let p = cut_pieces(b, prev, last);
        let r = resolve(cuts[k].1, p.1);
        assert(cut_pieces(b, cuts, last).0 == p.0.push((b.subrange(cut_start(cuts, k), cuts[k].0 as int), r.0)));
        assert(p.0.push((b.subrange(cut_start(cuts, k), cuts[k].0 as int), r.0)).drop_last() =~= p.0);
        assert(0 <= cut_start(cuts, k) <= cuts[k].0 <= b.len());
        if k == 0 {
            assert(joined(p.0) + b.subrange(0, cuts[k].0 as int) =~= b.subrange(0, cuts[k].0 as int));
        } else {
            assert(b.subrange(0, cuts[k - 1].0 as int) + b.subrange(cuts[k - 1].0 as int, cuts[k].0 as int) =~= b.subrange(0, cuts[k].0 as int));
        }
    }
}

/// What a rule makes of a fragment spells out the same bytes.
pub proof fn lemma_expand_joined(f: Frag, rule: RuleView, last: Color)
    requires
        f.0.len() <= usize::MAX,
    ensures
        joined(expand(f, rule, last).0) == f.0,
{
    reveal_with_fuel(joined, 2);
    if f.1 == default_color() {
        let m = cuts_of(regex_captures(rule.0, f.0), rule.1, f.0);
        if m is Some {
            lemma_cuts_of_shape(regex_captures(rule.0, f.0), rule.1, f.0);
            lemma_cut_pieces_joined(f.0, m.unwrap(), last);
            assert(f.0.subrange(0, f.0.len() as int) =~= f.0);
        } else {
            assert(seq![f].drop_last() =~= Seq::<Frag>::empty());
        }
    } else {
        assert(seq![f].drop_last() =~= Seq::<Frag>::empty());
    }
}

/// A pass over a list spells out the same bytes as the list.
pub proof fn lemma_pass_joined(frags: Seq<Frag>, rule: RuleView, last: Color)
    requires
        joined(frags).len() <= usize::MAX,
    ensures
        joined(pass(frags, rule, last).0) == joined(frags),
    decreases frags.len(),
{
    if frags.len() > 0 {
        lemma_pass_joined(frags.drop_last(), rule, last);
        let p = pass(frags.drop_last(), rule, last);
        lemma_expand_joined(frags.last(), rule, p.1);
        lemma_joined_append(p.0, expand(frags.last(), rule, p.1).0);
    }
}

/// Running rules over a list spells out the same bytes as the list.
pub proof fn lemma_run_joined(frags: Seq<Frag>, rules: Seq<RuleView>, last: Color)
    requires
        joined(frags).len() <= usize::MAX,
    ensures
        joined(run(frags, rules, last).0) == joined(frags),
    decreases rules.len(),
{
    if rules.len() > 0 {
        lemma_run_joined(frags, rules.drop_last(), last);
        let p = run(frags, rules.drop_last(), last);
        lemma_pass_joined(p.0, rules.last(), p.1);
    }
}

/// Dropping empty fragments leaves the bytes as they were.
pub proof fn lemma_filter_joined(frags: Seq<Frag>)
    ensures
        joined(frags.filter(|f: Frag| non_empty(f))) == joined(frags),
    decreases frags.len(),
{
    reveal_with_fuel(Seq::filter, 1);
    if frags.len() > 0 {
        lemma_filter_joined(frags.drop_last());
        let rest = frags.drop_last().filter(|f: Frag| non_empty(f));
        if non_empty(frags.last()) {
            assert(rest.push(frags.last()).drop_last() =~= rest);
        } else {
            assert(joined(frags.drop_last()) + frags.last().0 =~= joined(frags.drop_last()));
        }
    }
}

proof fn lemma_boundary_in_suffix(b: Seq<u8>, off: int, p: int)
    requires
        valid_utf8(b),
        0 <= off <= p <= b.len(),
        is_char_boundary(b, off),
        is_char_boundary(b, p),
    ensures
        valid_utf8(b.subrange(off, b.len() as int)),
        is_char_boundary(b.subrange(off, b.len() as int), p - off),
{
    let rest = b.subrange(off, b.len() as int);
    valid_utf8_split(b, off);
    if p == off {
        is_char_boundary_start_end_of_seq(rest);
    } else if p == b.len() {
        is_char_boundary_start_end_of_seq(rest);
    } else {
        is_char_boundary_iff_not_is_continuation_byte(b, p);
        is_char_boundary_iff_not_is_continuation_byte(rest, p - off);
        assert(rest[p - off] == b[p]);
    }
}

/// The captures as the proofs see them.
pub open spec fn caps_view(c: Option<Vec<Option<(usize, usize)>>>) -> Option<Seq<Option<(usize, usize)>>> {
    match c {
        Some(v) => Some(v@),
        None => None,
    }
}

/// The number of bytes of `text`.
fn byte_len(text: &str) -> (n: usize)
    ensures
        n == text.spec_bytes().len(),
{
    text.as_bytes().len()
}

fn connective_of(colors: &Vec<Paint>) -> (r: Paint)
    ensures
        r == connective(colors@),
{
    if colors.len() > 0 {
        colors[0]
    } else {
        Paint::Fixed(Color::plain())
    }
}

fn group_paint_of(colors: &Vec<Paint>, i: usize) -> (r: Paint)
    ensures
        r == group_paint(colors@, i as int),
{
    if i < colors.len() {
        colors[i]
    } else {
        Paint::Fixed(Color::plain())
    }
}

/// The cuts that a match makes of `text`, or `None` when there is no usable match.
fn match_cuts(caps: &Option<Vec<Option<(usize, usize)>>>, colors: &Vec<Paint>, text: &str) -> (r: Option<Vec<Cut>>)
    ensures
        cuts_of(caps_view(*caps), colors@, text.spec_bytes()) == match r {
            Some(v) => Some(v@),
            None => None::<Seq<Cut>>,
        },
{
    let ghost b = text.spec_bytes();
    let n = byte_len(text);
    match caps {
        None => None,
        Some(c) => {
            if c.len() < 1 {
                return None;
            }
            match c[0] {
                None => None,
                Some(whole) => {
                    let ms = whole.0;
                    let me = whole.1;
                    if !(ms <= me && me <= n && text.is_char_boundary(ms) && text.is_char_boundary(me)) {
                        return None;
                    }
                    let conn = connective_of(colors);
                    let mut cuts: Vec<Cut> = Vec::new();
                    cuts.push((ms, None));
                    let mut cursor: usize = ms;
                    let mut i: usize = 1;
                    while i < c.len()
                        invariant
                            1 <= i <= c@.len(),
                            conn == connective(colors@),
                            b == text.spec_bytes(),
                            cuts@ + group_cuts(c@, colors@, b, i as int, cursor, me) == seq![(ms, None::<Paint>)]
                                + group_cuts(c@, colors@, b, 1, ms, me),
                        decreases c.len() - i,
                    {
                        let ghost before = cuts@;
                        match c[i] {
                            Some(g) => {
                                if cursor <= g.0 && g.0 <= g.1 && g.1 <= me && text.is_char_boundary(g.0)
                                    && text.is_char_boundary(g.1) {
                                    cuts.push((g.0, Some(conn)));
                                    cuts.push((g.1, Some(group_paint_of(colors, i))));
                                    cursor = g.1;
                                    proof {
                                        assert(cuts@ =~= before + seq![(g.0, Some(conn)), (g.1, Some(group_paint(colors@, i as int)))]);
                                    }
                                }
                            },
                            None => {},
                        }
                        i += 1;
                    }
                    cuts.push((me, Some(conn)));
                    cuts.push((n, None));
                    Some(cuts)
                },
            }
        },
    }
}

/// Splits `text` at the cuts, resolving each entry against the color last resolved.
fn cut_text(text: &str, cuts: &Vec<Cut>, last: Color) -> (r: (Vec<Fragment>, Color))
    requires
        ordered_cuts(text.spec_bytes(), cuts@),
        cuts_on_boundaries(text.spec_bytes(), cuts@),
    ensures
        (frags_view(r.0@), r.1) == cut_pieces(text.spec_bytes(), cuts@, last),
{
    let ghost b = text.spec_bytes();
    let mut out: Vec<Fragment> = Vec::new();
    let mut rest: &str = text;
    let mut off: usize = 0;
    let mut cur = last;
    let mut k: usize = 0;
    while k < cuts.len()
        invariant
            k <= cuts@.len(),
            b == text.spec_bytes(),
            valid_utf8(b),
            ordered_cuts(b, cuts@),
            cuts_on_boundaries(b, cuts@),
            off as int == cut_start(cuts@, k as int),
            off <= b.len(),
            is_char_boundary(b, off as int),
            rest.spec_bytes() == b.subrange(off as int, b.len() as int),
            (frags_view(out@), cur) == cut_pieces(b, cuts@.take(k as int), last),
        decreases cuts.len() - k,
    {
        let end = cuts[k].0;
        let paint = cuts[k].1;
        proof {
            is_char_boundary_start_end_of_seq(b);
            lemma_boundary_in_suffix(b, off as int, end as int);
        }
        let (piece, tail) = rest.split_at(end - off);
        let color = match paint {
            None => Color::plain(),
            Some(Paint::Inherit) => cur,
            Some(Paint::Fixed(c)) => {
                cur = c;
                c
            },
        };
        let ghost out_before = out@;
        out.push(Fragment { text: piece.to_owned(), color });
        proof {
            let t = cuts@.take(k as int + 1);
            assert(t.drop_last() =~= cuts@.take(k as int));
            assert(cut_start(t, k as int) == cut_start(cuts@, k as int));
            assert(piece.spec_bytes() =~= b.subrange(off as int, end as int));
            assert(frags_view(out@) =~= frags_view(out_before).push((b.subrange(off as int, end as int), color)));
            assert(tail.spec_bytes() =~= b.subrange(end as int, b.len() as int));
        }
        rest = tail;
        off = end;
        k += 1;
    }
    proof {
        assert(cuts@.take(k as int) =~= cuts@);
    }
    (out, cur)
}

fn copy_fragment(f: &Fragment) -> (r: Fragment)
    ensures
        r@ == f@,
{
    Fragment { text: f.text.clone(), color: f.color }
}

/// What one rule makes of one fragment.
fn expand_fragment(f: &Fragment, palette: &Palette, last: Color) -> (r: (Vec<Fragment>, Color))
    ensures
        (frags_view(r.0@), r.1) == expand(f@, palette@, last),
{
    if !f.color.is_plain() {
        let v = vec![copy_fragment(f)];
        proof {
            assert(frags_view(v@) =~= seq![f@]);
        }
        return (v, last);
    }
    let text = f.text.as_str();
    let len = byte_len(text);
    let caps = palette.regexp.captures(text);
    match match_cuts(&caps, &palette.colors, text) {
        None => {
            let v = vec![copy_fragment(f)];
            proof {
                assert(frags_view(v@) =~= seq![f@]);
            }
            (v, last)
        },
        Some(cuts) => {
            proof {
                assert(text.spec_bytes().len() == len);
                lemma_cuts_of_shape(caps_view(caps), palette.colors@, text.spec_bytes());
            }
            cut_text(text, &cuts, last)
        },
    }
}

/// One rule applied to every fragment of a list, left to right.
fn apply_rule(frags: &Vec<Fragment>, palette: &Palette, last: Color) -> (r: (Vec<Fragment>, Color))
    ensures
        (frags_view(r.0@), r.1) == pass(frags_view(frags@), palette@, last),
{
    let mut out: Vec<Fragment> = Vec::new();
    let mut cur = last;
    let mut i: usize = 0;
    while i < frags.len()
        invariant
            i <= frags@.len(),
            (frags_view(out@), cur) == pass(frags_view(frags@).take(i as int), palette@, last),
        decreases frags.len() - i,
    {
        let (mut pieces, next) = expand_fragment(&frags[i], palette, cur);
        let ghost out_before = out@;
        let ghost added = pieces@;
        out.append(&mut pieces);
        cur = next;
        proof {
            let t = frags_view(frags@).take(i as int + 1);
            assert(t.drop_last() =~= frags_view(frags@).take(i as int));
            assert(t.last() == frags@[i as int]@);
            assert(frags_view(out@) =~= frags_view(out_before) + frags_view(added));
        }
        i += 1;
    }
    proof {
        assert(frags_view(frags@).take(i as int) =~= frags_view(frags@));
    }
    (out, cur)
}

/// Colors one line: starts from one default fragment holding the whole line,
/// applies the rules in order (each only to fragments still default), and
/// drops empty fragments at the end.
pub fn colored_output(line: &str, palettes: &Vec<Palette>) -> (r: Vec<Fragment>)
    ensures
        frags_view(r@) == highlight_spec(line.spec_bytes(), rules_view(palettes@)),
{
    let ghost start = seq![(line.spec_bytes(), default_color())];
    let mut frags: Vec<Fragment> = vec![Fragment { text: line.to_owned(), color: Color::plain() }];
    let mut last = Color::plain();
    proof {
        assert(frags_view(frags@) =~= start);
    }
    let mut k: usize = 0;
    while k < palettes.len()
        invariant
            k <= palettes@.len(),
            (frags_view(frags@), last) == run(start, rules_view(palettes@).take(k as int), default_color()),
        decreases palettes.len() - k,
    {
        let (next, next_last) = apply_rule(&frags, &palettes[k], last);
        proof {
            let t = rules_view(palettes@).take(k as int + 1);
            assert(t.drop_last() =~= rules_view(palettes@).take(k as int));
            assert(t.last() == palettes@[k as int]@);
        }
        frags = next;
        last = next_last;
        k += 1;
    }
    proof {
        assert(rules_view(palettes@).take(k as int) =~= rules_view(palettes@));
    }
    let ghost all = frags_view(frags@);
    let mut out: Vec<Fragment> = Vec::new();
    let mut i: usize = 0;
    while i < frags.len()
        invariant
            i <= frags@.len(),
            all == frags_view(frags@),
            frags_view(out@) == all.take(i as int).filter(|f: Frag| non_empty(f)),
        decreases frags.len() - i,
    {
        let ghost out_before = out@;
        if byte_len(frags[i].text.as_str()) > 0 {
            out.push(copy_fragment(&frags[i]));
            proof {
                assert(frags_view(out@) =~= frags_view(out_before).push(all[i as int]));
            }
        }
        proof {
            let t = all.take(i as int + 1);
            assert(t.drop_last() =~= all.take(i as int));
            assert(t.last() == all[i as int]);
            reveal_with_fuel(Seq::filter, 1);
        }
        i += 1;
    }
    proof {
        assert(all.take(i as int) =~= all);
    }
    out
}

} // verus!
