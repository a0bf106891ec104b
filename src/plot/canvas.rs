use vstd::prelude::*;

use super::color::Color;
use super::shape::{drawable_colors, Drawable};

verus! {

/// Every colour that the drawables refer to, in drawable order, each
/// drawable's colours in the order of `drawable_colors`; duplicates and the
/// "none" colour included.
pub open spec fn canvas_colors(ds: Seq<Drawable>) -> Seq<Color>
    decreases ds.len(),
{
    if ds.len() == 0 {
        Seq::empty()
    } else {
        canvas_colors(ds.drop_last()) + drawable_colors(ds.last())
    }
}

/// The distinct colours of `s`, each once, in the order of first occurrence.
pub open spec fn first_seen(s: Seq<Color>) -> Seq<Color>
    decreases s.len(),
{
    if s.len() == 0 {
        Seq::empty()
    } else {
        let t = first_seen(s.drop_last());
        if t.contains(s.last()) {
            t
        } else {
            t.push(s.last())
        }
    }
}

/// Every colour of `s` is in the table of `s`, and the table holds only
/// colours of `s`, each once.
pub proof fn lemma_first_seen(s: Seq<Color>)
    ensures
        first_seen(s).no_duplicates(),
        forall|c: Color| first_seen(s).contains(c) <==> s.contains(c),
    decreases s.len(),
{
    if s.len() > 0 {
        lemma_first_seen(s.drop_last());
        let t = first_seen(s.drop_last());
        assert forall|c: Color| first_seen(s).contains(c) <==> s.contains(c) by {
            if s.contains(c) {
                let k = choose|k: int| 0 <= k < s.len() && s[k] == c;
                if k < s.len() - 1 {
                    assert(s.drop_last()[k] == c);
                    assert(s.drop_last().contains(c));
                    assert(t.contains(c));
                    let i = choose|i: int| 0 <= i < t.len() && t[i] == c;
                    assert(first_seen(s)[i] == c);
                } else if !t.contains(s.last()) {
                    assert(first_seen(s)[t.len() as int] == c);
                }
            }
            if first_seen(s).contains(c) {
                let i = choose|i: int| 0 <= i < first_seen(s).len() && first_seen(s)[i] == c;
                if i < t.len() {
                    assert(t[i] == c);
                    assert(t.contains(c));
                    assert(s.drop_last().contains(c));
                    let k = choose|k: int| 0 <= k < s.drop_last().len() && s.drop_last()[k] == c;
                    assert(s[k] == c);
                } else {
                    assert(s[s.len() - 1] == c);
                }
            }
        }
    }
}

/// An ordered scene: drawables in the order in which they are painted.
#[derive(Debug)]
pub struct Canvas {
    drawings: Vec<Drawable>,
}

impl View for Canvas {
    type V = Seq<Drawable>;

    closed spec fn view(&self) -> Seq<Drawable> {
        self.drawings@
    }
}

impl Canvas {
    /// An empty canvas.
    pub fn new() -> (r: Self)
        ensures
            r@ == Seq::<Drawable>::empty(),
    {
        Canvas { drawings: Vec::new() }
    }

    /// Appends a drawable, which is painted after those already there.
    pub fn draw(&mut self, d: Drawable)
        ensures
            final(self)@ == old(self)@.push(d),
    {
        self.drawings.push(d);
    }

    /// The number of drawables.
    pub fn len(&self) -> (r: usize)
        ensures
            r == self@.len(),
    {
        self.drawings.len()
    }

    /// Every colour the drawables refer to, in order, with duplicates.
    pub fn get_colors(&self) -> (r: Vec<Color>)
        ensures
            r@ == canvas_colors(self@),
    {
        let mut colors: Vec<Color> = Vec::new();
        let n = self.drawings.len();
        let mut i: usize = 0;
        while i < n
            invariant
                n == self@.len(),
                i <= n,
                colors@ == canvas_colors(self@.take(i as int)),
            decreases n - i,
        {
            assert(self@.take(i + 1).drop_last() =~= self@.take(i as int));
            match &self.drawings[i] {
                Drawable::Line(line) => {
                    colors.push(line.stroke.color);
                },
                Drawable::Circle(circle) => {
                    colors.push(circle.stroke.color);
                    colors.push(circle.fill);
                },
                Drawable::Rect(rect) => {
                    colors.push(rect.stroke.color);
                    colors.push(rect.fill);
                },
                Drawable::Text(text) => {
                    colors.push(text.stroke.color);
                    colors.push(text.fill);
                    colors.push(text.font);
                },
            }
            assert(colors@ =~= canvas_colors(self@.take(i + 1)));
            i = i + 1;
        }
        assert(self@.take(n as int) =~= self@);
        colors
    }

    /// The drawables, in order.
    pub fn into_drawables(self) -> (r: Vec<Drawable>)
        ensures
            r@ == self@,
    {
        self.drawings
    }
}

/// The colours of one render pass, each once, in the order of first
/// occurrence; a colour's identifier is built from its position.
pub struct ColorMap {
    colors: Vec<Color>,
}

impl View for ColorMap {
    type V = Seq<Color>;

    closed spec fn view(&self) -> Seq<Color> {
        self.colors@
    }
}

impl ColorMap {
    /// The table holds each colour once.
    pub open spec fn wf(&self) -> bool {
        self@.no_duplicates()
    }

    /// The table of the colours of `colors`, in the order of first occurrence.
    pub fn build(colors: &Vec<Color>) -> (r: Self)
        ensures
            r@ == first_seen(colors@),
            r.wf(),
    {
        let mut table: Vec<Color> = Vec::new();
        let n = colors.len();
        let mut i: usize = 0;
        while i < n
            invariant
                n == colors@.len(),
                i <= n,
                table@ == first_seen(colors@.take(i as int)),
                table@.no_duplicates(),
            decreases n - i,
        {
            let c = colors[i];
            assert(colors@.take(i + 1).drop_last() =~= colors@.take(i as int));
            assert(colors@.take(i + 1).last() == c);
            let found = position(&table, &c);
            if found.is_none() {
                table.push(c);
            }
            i = i + 1;
        }
        assert(colors@.take(n as int) =~= colors@);
        ColorMap { colors: table }
    }

    /// The table of the colours of a canvas.
    pub fn from_canvas(c: &Canvas) -> (r: Self)
        ensures
            r@ == first_seen(canvas_colors(c@)),
            r.wf(),
    {
        let colors = c.get_colors();
        Self::build(&colors)
    }

    /// The number of distinct colours.
    pub fn len(&self) -> (r: usize)
        ensures
            r == self@.len(),
    {
        self.colors.len()
    }

    /// The colour at position `i`.
    pub fn get(&self, i: usize) -> (r: Color)
        requires
            i < self@.len(),
        ensures
            r == self@[i as int],
    {
        self.colors[i]
    }

    /// The position of a colour of the table.
    pub fn index_of(&self, c: &Color) -> (r: usize)
        requires
            self.wf(),
            self@.contains(*c),
        ensures
            r < self@.len(),
            r as int == self@.index_of(*c),
    {
        match position(&self.colors, c) {
            Some(i) => i,
            None => {
                proof {
                    let k = choose|k: int| 0 <= k < self@.len() && self@[k] == *c;
                    assert(self@[k] == *c);
                }
                0
            },
        }
    }
}

/// The position of `c` in `v`, if it is there.
fn position(v: &Vec<Color>, c: &Color) -> (r: Option<usize>)
    ensures
        match r {
            Some(i) => i < v@.len() && v@[i as int] == *c && (v@.no_duplicates() ==> i as int
                == v@.index_of(*c)),
            None => !v@.contains(*c),
        },
{
    let mut i: usize = 0;
    while i < v.len()
        invariant
            i <= v@.len(),
            forall|k: int| 0 <= k < i ==> v@[k] != *c,
        decreases v@.len() - i,
    {
        if v[i] == *c {
            proof {
                if v@.no_duplicates() {
                    let j = v@.index_of(*c);
                    assert(v@[j] == *c);
                }
            }
            return Some(i);
        }
        i = i + 1;
    }
    None
}

} // verus!
