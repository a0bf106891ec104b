use vstd::prelude::*;

use super::canvas::{canvas_colors, first_seen, lemma_first_seen, Canvas, ColorMap};
use super::color::Color;
use super::shape::{drawable_colors, Anchor, Circle, Drawable, Line, Rect, Text};

verus! {

/// A text backend: how colours, shapes and labels are written.
///
/// Each backend states the text of every statement as a spec function; the
/// shared pipeline, `render_canvas`, is then exact for every backend. Label
/// content is written as it is: characters that a backend reserves are not
/// escaped, so a caller that needs them literally escapes them first.
pub trait Artist: Sized {
    /// The identifier of colour `c`, which stands at `index` in the colour table.
    spec fn ident_text(c: Color, index: nat) -> Seq<char>;

    /// The statement that defines colour `c`, which stands at `index`.
    spec fn definition_text(c: Color, index: nat) -> Seq<char>;

    /// The backend's name for an anchor.
    spec fn anchor_text(a: Anchor) -> Seq<char>;

    /// The statement for a segment, given the colour table.
    spec fn line_text(line: Line, table: Seq<Color>) -> Seq<char>;

    /// The statement for a circle, given the colour table.
    spec fn circle_text(circle: Circle, table: Seq<Color>) -> Seq<char>;

    /// The statement for a rectangle, given the colour table.
    spec fn rect_text(rect: Rect, table: Seq<Color>) -> Seq<char>;

    /// The statement for a label, given the colour table.
    spec fn text_text(text: Text, table: Seq<Color>) -> Seq<char>;

    /// The identifier of colour `c` at `index`.
    fn ident(c: Color, index: usize) -> (r: String)
        ensures
            r@ == Self::ident_text(c, index as nat),
    ;

    /// The statement that defines colour `c` at `index`.
    fn define_color(c: Color, index: usize) -> (r: String)
        ensures
            r@ == Self::definition_text(c, index as nat),
    ;

    /// The backend's name for an anchor.
    fn anchor(a: Anchor) -> (r: &'static str)
        ensures
            r@ == Self::anchor_text(a),
    ;

    /// Renders a segment.
    fn render_line(line: Line, c: &ColorMap) -> (r: Result<String, ()>)
        requires
            c.wf(),
            c@.contains(line.stroke.color),
        ensures
            r matches Ok(s) && s@ == Self::line_text(line, c@),
    ;

    /// Renders a circle.
    fn render_circle(circle: Circle, c: &ColorMap) -> (r: Result<String, ()>)
        requires
            c.wf(),
            c@.contains(circle.stroke.color),
            c@.contains(circle.fill),
        ensures
            r matches Ok(s) && s@ == Self::circle_text(circle, c@),
    ;

    /// Renders a rectangle.
    fn render_rect(rect: Rect, c: &ColorMap) -> (r: Result<String, ()>)
        requires
            c.wf(),
            c@.contains(rect.stroke.color),
            c@.contains(rect.fill),
        ensures
            r matches Ok(s) && s@ == Self::rect_text(rect, c@),
    ;

    /// Renders a label.
    fn render_text(text: Text, c: &ColorMap) -> (r: Result<String, ()>)
        requires
            c.wf(),
            c@.contains(text.stroke.color),
            c@.contains(text.fill),
            c@.contains(text.font),
        ensures
            r matches Ok(s) && s@ == Self::text_text(text, c@),
    ;
}

/// The statement for any drawable: the one of its variant.
pub open spec fn drawable_text<A: Artist>(d: Drawable, table: Seq<Color>) -> Seq<char> {
    match d {
        Drawable::Line(l) => A::line_text(l, table),
        Drawable::Circle(c) => A::circle_text(c, table),
        Drawable::Rect(r) => A::rect_text(r, table),
        Drawable::Text(t) => A::text_text(t, table),
    }
}

/// The colour definitions of a table, skipping "none", each on its own line.
pub open spec fn definitions_text<A: Artist>(table: Seq<Color>) -> Seq<char>
    decreases table.len(),
{
    if table.len() == 0 {
        Seq::empty()
    } else {
        let prev = definitions_text::<A>(table.drop_last());
        if table.last().spec_is_none() {
            prev
        } else {
            prev + A::definition_text(table.last(), (table.len() - 1) as nat) + "\n"@
        }
    }
}

/// The statements of the drawables, in order, each on its own line.
pub open spec fn shapes_text<A: Artist>(ds: Seq<Drawable>, table: Seq<Color>) -> Seq<char>
    decreases ds.len(),
{
    if ds.len() == 0 {
        Seq::empty()
    } else {
        shapes_text::<A>(ds.drop_last(), table) + drawable_text::<A>(ds.last(), table) + "\n"@
    }
}

/// The fragment a backend writes for a scene.
pub open spec fn scene_text<A: Artist>(ds: Seq<Drawable>) -> Seq<char> {
    let table = first_seen(canvas_colors(ds));
    definitions_text::<A>(table) + shapes_text::<A>(ds, table)
}

/// Every colour of a canvas is in its table.
proof fn lemma_table_covers(ds: Seq<Drawable>)
    ensures
        forall|k: int| 0 <= k < canvas_colors(ds).len() ==> first_seen(canvas_colors(ds)).contains(
            #[trigger] canvas_colors(ds)[k],
        ),
{
    lemma_first_seen(canvas_colors(ds));
    assert forall|k: int| 0 <= k < canvas_colors(ds).len() implies first_seen(
        canvas_colors(ds),
    ).contains(#[trigger] canvas_colors(ds)[k]) by {
        assert(canvas_colors(ds).contains(canvas_colors(ds)[k]));
    }
}

/// The colours of drawable `j` stand in the canvas colours right after
/// those of the drawables before it.
proof fn lemma_drawable_colors_in(ds: Seq<Drawable>, j: int)
    requires
        0 <= j < ds.len(),
    ensures
        forall|k: int| 0 <= k < drawable_colors(ds[j]).len() ==> (#[trigger] drawable_colors(
            ds[j],
        )[k]) == canvas_colors(ds)[canvas_colors(ds.take(j)).len() + k],
        canvas_colors(ds.take(j)).len() + drawable_colors(ds[j]).len() <= canvas_colors(ds).len(),
    decreases ds.len(),
{
    if j == ds.len() - 1 {
        assert(ds.drop_last() =~= ds.take(j));
    } else {
        lemma_drawable_colors_in(ds.drop_last(), j);
        assert(ds.drop_last().take(j) =~= ds.take(j));
        assert(ds.drop_last()[j] == ds[j]);
    }
}

/// Renders any drawable with the function for its variant.
pub fn render_any<A: Artist>(d: Drawable, cm: &ColorMap) -> (r: Result<String, ()>)
    requires
        cm.wf(),
        forall|k: int| 0 <= k < drawable_colors(d).len() ==> cm@.contains(
            #[trigger] drawable_colors(d)[k],
        ),
    ensures
        r matches Ok(s) && s@ == drawable_text::<A>(d, cm@),
{
    match d {
        Drawable::Line(l) => {
            assert(drawable_colors(d)[0] == l.stroke.color);
            A::render_line(l, cm)
        },
        Drawable::Rect(r) => {
            assert(drawable_colors(d)[0] == r.stroke.color);
            assert(drawable_colors(d)[1] == r.fill);
            A::render_rect(r, cm)
        },
        Drawable::Circle(c) => {
            assert(drawable_colors(d)[0] == c.stroke.color);
            assert(drawable_colors(d)[1] == c.fill);
            A::render_circle(c, cm)
        },
        Drawable::Text(t) => {
            assert(drawable_colors(d)[0] == t.stroke.color);
            assert(drawable_colors(d)[1] == t.fill);
            assert(drawable_colors(d)[2] == t.font);
            A::render_text(t, cm)
        },
    }
}

/// Renders a whole canvas: a definition for each colour but "none", in
/// table order, then one statement per drawable, in canvas order, each
/// line ended by a newline.
pub fn render_canvas<A: Artist>(c: Canvas) -> (r: Result<String, ()>)
    ensures
        r matches Ok(s) && s@ == scene_text::<A>(c@),
{
    let cm = ColorMap::from_canvas(&c);
    let ghost ds = c@;
    let ghost table = cm@;
    proof {
        lemma_table_covers(ds);
    }
    let mut buf = String::new();
    let n = cm.len();
    let mut i: usize = 0;
    while i < n
        invariant
            n == table.len(),
            cm@ == table,
            i <= n,
            buf@ == definitions_text::<A>(table.take(i as int)),
        decreases n - i,
    {
        let color = cm.get(i);
        assert(table.take(i + 1).drop_last() =~= table.take(i as int));
        if !color.is_none() {
            let def = A::define_color(color, i);
            buf.append(def.as_str());
            buf.append("\n");
        }
        i = i + 1;
    }
    assert(table.take(n as int) =~= table);
    let mut rest = c.into_drawables();
    let m = rest.len();
    let mut j: usize = 0;
    while j < m
        invariant
            m == ds.len(),
            cm@ == table,
            cm.wf(),
            table == first_seen(canvas_colors(ds)),
            forall|k: int| 0 <= k < canvas_colors(ds).len() ==> table.contains(
                #[trigger] canvas_colors(ds)[k],
            ),
            j <= m,
            rest@ == ds.subrange(j as int, m as int),
            buf@ == definitions_text::<A>(table) + shapes_text::<A>(
                ds.take(j as int),
                table,
            ),
        decreases m - j,
    {
        let d = rest.remove(0);
        assert(d == ds[j as int]);
        proof {
            lemma_drawable_colors_in(ds, j as int);
            assert forall|k: int| 0 <= k < drawable_colors(d).len() implies cm@.contains(
                #[trigger] drawable_colors(d)[k],
            ) by {
                let w = canvas_colors(ds.take(j as int)).len() + k;
                assert(canvas_colors(ds)[w] == drawable_colors(d)[k]);
            }
        }
        let s = render_any::<A>(d, &cm);
        match s {
            Ok(s) => {
                buf.append(s.as_str());
            },
            Err(_) => {},
        }
        buf.append("\n");
        assert(ds.take(j + 1).drop_last() =~= ds.take(j as int));
        assert(rest@ =~= ds.subrange(j + 1, m as int));
        assert(buf@ =~= definitions_text::<A>(table) + shapes_text::<A>(
            ds.take(j + 1),
            table,
        ));
        j = j + 1;
    }
    assert(ds.take(m as int) =~= ds);
    Ok(buf)
}

} // verus!
