//! Properties of rendering that hold for every canvas.
use vstd::prelude::*;

use super::artist::{definitions_text, scene_text, shapes_text, Artist};
use super::canvas::{canvas_colors, first_seen, lemma_first_seen};
use super::cetz::{cetz_color, CeTZ};
use super::color::Color;
use super::shape::{Anchor, Drawable};
use super::tikz::{tikz_color, TikZ};

verus! {

/// Rendering is deterministic: canvases with the same drawables in the same
/// order give the same text, with any backend.
pub proof fn lemma_render_deterministic<A: Artist>(a: Seq<Drawable>, b: Seq<Drawable>)
    requires
        a == b,
    ensures
        scene_text::<A>(a) == scene_text::<A>(b),
{
}

/// The colour table of a canvas holds exactly the colours that its drawables
/// refer to, each once; the "none" colour is named `none` by both backends,
/// and so never gets a numbered identifier.
pub proof fn lemma_table_complete(ds: Seq<Drawable>)
    ensures
        first_seen(canvas_colors(ds)).no_duplicates(),
        forall|c: Color| #[trigger]
            first_seen(canvas_colors(ds)).contains(c) <==> canvas_colors(ds).contains(c),
        forall|c: Color|
            c.spec_is_none() ==> #[trigger] tikz_color(first_seen(canvas_colors(ds)), c)
                == "none"@,
        forall|c: Color|
            c.spec_is_none() ==> #[trigger] cetz_color(first_seen(canvas_colors(ds)), c)
                == "none"@,
{
    lemma_first_seen(canvas_colors(ds));
}

/// The table of a prefix of a colour sequence is a prefix of the table of
/// the whole sequence.
pub proof fn lemma_first_seen_prefix(s: Seq<Color>, k: int)
    requires
        0 <= k <= s.len(),
    ensures
        first_seen(s.take(k)).is_prefix_of(first_seen(s)),
    decreases s.len(),
{
    if k == s.len() {
        assert(s.take(k) =~= s);
    } else {
        lemma_first_seen_prefix(s.drop_last(), k);
        assert(s.drop_last().take(k) =~= s.take(k));
    }
}

/// Identifiers are numbered in order of first occurrence: a colour that
/// appears for the first time at position `k` gets the position right after
/// the colours seen before it.
pub proof fn lemma_first_seen_numbering(s: Seq<Color>, k: int)
    requires
        0 <= k < s.len(),
        !s.take(k).contains(s[k]),
    ensures
        first_seen(s).index_of(s[k]) == first_seen(s.take(k)).len(),
        first_seen(s)[first_seen(s.take(k)).len() as int] == s[k],
{
    let before = first_seen(s.take(k));
    assert(s.take(k + 1).drop_last() =~= s.take(k));
    assert(s.take(k + 1).last() == s[k]);
    lemma_first_seen(s.take(k));
    assert(!before.contains(s[k]));
    assert(first_seen(s.take(k + 1)) == before.push(s[k]));
    lemma_first_seen_prefix(s, k + 1);
    let whole = first_seen(s);
    assert(whole[before.len() as int] == first_seen(s.take(k + 1))[before.len() as int]);
    lemma_first_seen(s);
    let j = whole.index_of(s[k]);
    assert(whole.contains(s[k]));
    assert(whole[j] == s[k]);
}

/// Every anchor has a non-empty name in both backends.
pub proof fn lemma_anchor_tokens()
    ensures
        forall|a: Anchor| #[trigger] TikZ::anchor_text(a).len() > 0,
        forall|a: Anchor| #[trigger] CeTZ::anchor_text(a).len() > 0,
{
    reveal_strlit("center");
    reveal_strlit("north");
    reveal_strlit("south");
    reveal_strlit("north east");
    reveal_strlit("south east");
    reveal_strlit("east");
    reveal_strlit("north west");
    reveal_strlit("south west");
    reveal_strlit("west");
}

/// An empty canvas renders to empty text: no colour definitions and no
/// statements.
pub proof fn lemma_empty_scene<A: Artist>()
    ensures
        scene_text::<A>(Seq::empty()) == Seq::<char>::empty(),
{
    let ds = Seq::<Drawable>::empty();
    assert(canvas_colors(ds) == Seq::<Color>::empty());
    assert(first_seen(canvas_colors(ds)) == Seq::<Color>::empty());
    assert(definitions_text::<A>(Seq::empty()) == Seq::<char>::empty());
    assert(shapes_text::<A>(ds, Seq::empty()) == Seq::<char>::empty());
    assert(scene_text::<A>(ds) =~= Seq::<char>::empty());
}

} // verus!
