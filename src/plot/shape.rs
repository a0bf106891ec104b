use vstd::prelude::*;

use super::color::Color;
use super::number::Decimal;

verus! {

/// A point on the drawing plane.
#[derive(PartialEq, Eq, Structural, Clone, Copy, Debug)]
pub struct Point(pub Decimal, pub Decimal);

impl Point {
    /// The point `(x, y)`.
    pub fn new(x: Decimal, y: Decimal) -> (r: Self)
        ensures
            r == Point(x, y),
    {
        Point(x, y)
    }

    /// The point with whole coordinates `(x, y)`.
    pub fn from_ints(x: i64, y: i64) -> (r: Self)
        ensures
            r.0.numerator() == x as int,
            r.0.scale == 0,
            r.1.numerator() == y as int,
            r.1.scale == 0,
    {
        Point(Decimal::from_int(x), Decimal::from_int(y))
    }
}

impl Default for Point {
    /// The origin.
    fn default() -> (r: Self)
        ensures
            r.0.numerator() == 0,
            r.1.numerator() == 0,
    {
        Point(Decimal::default(), Decimal::default())
    }
}

/// The width `0.5`, which strokes have by default.
pub open spec fn half() -> Decimal {
    Decimal { negative: false, magnitude: 5, scale: 1 }
}

/// The outline of a shape: its colour and its line width.
#[derive(PartialEq, Eq, Structural, Clone, Copy, Debug)]
pub struct Stroke {
    pub color: Color,
    pub thickness: Decimal,
}

impl Stroke {
    /// The same stroke with another colour.
    pub fn color(self, color: Color) -> (r: Self)
        ensures
            r == (Stroke { color, ..self }),
    {
        Stroke { color, ..self }
    }

    /// The same stroke with another line width.
    pub fn thickness(self, thickness: Decimal) -> (r: Self)
        ensures
            r == (Stroke { thickness, ..self }),
    {
        Stroke { thickness, ..self }
    }
}

impl Default for Stroke {
    /// Opaque black, half a unit wide.
    fn default() -> (r: Self)
        ensures
            r == (Stroke { color: Color(0, 0, 0, 255), thickness: half() }),
    {
        Stroke { color: Color::black(), thickness: Decimal { negative: false, magnitude: 5, scale: 1 } }
    }
}

/// A straight segment.
#[derive(PartialEq, Eq, Structural, Clone, Copy, Debug)]
pub struct Line {
    pub from: Point,
    pub to: Point,
    pub stroke: Stroke,
}

impl Default for Line {
    /// A segment from the origin to the origin, with the default stroke.
    fn default() -> (r: Self)
        ensures
            r.from.0.numerator() == 0 && r.from.1.numerator() == 0,
            r.to.0.numerator() == 0 && r.to.1.numerator() == 0,
            r.stroke == (Stroke { color: Color(0, 0, 0, 255), thickness: half() }),
    {
        Line { from: Point::default(), to: Point::default(), stroke: Stroke::default() }
    }
}

impl Line {
    /// The same segment starting at `point`.
    pub fn start(self, point: Point) -> (r: Self)
        ensures
            r == (Line { from: point, ..self }),
    {
        Line { from: point, ..self }
    }

    /// The same segment ending at `point`.
    pub fn end(self, point: Point) -> (r: Self)
        ensures
            r == (Line { to: point, ..self }),
    {
        Line { to: point, ..self }
    }

    /// The same segment with another stroke.
    pub fn stroke(self, stroke: Stroke) -> (r: Self)
        ensures
            r == (Line { stroke, ..self }),
    {
        Line { stroke, ..self }
    }
}

/// A circle with an outline and a fill.
#[derive(PartialEq, Eq, Structural, Clone, Copy, Debug)]
pub struct Circle {
    pub center: Point,
    pub radius: Decimal,
    pub stroke: Stroke,
    pub fill: Color,
}

impl Default for Circle {
    /// The unit circle at the origin, with the default stroke and no fill.
    fn default() -> (r: Self)
        ensures
            r.center.0.numerator() == 0 && r.center.1.numerator() == 0,
            r.radius.numerator() == 1 && r.radius.scale == 0,
            r.stroke == (Stroke { color: Color(0, 0, 0, 255), thickness: half() }),
            r.fill == Color(0, 0, 0, 0),
    {
        Circle {
            center: Point::default(),
            radius: Decimal::from_int(1),
            stroke: Stroke::default(),
            fill: Color::none(),
        }
    }
}

impl Circle {
    /// The same circle centred at `point`.
    pub fn at(self, point: Point) -> (r: Self)
        ensures
            r == (Circle { center: point, ..self }),
    {
        Circle { center: point, ..self }
    }

    /// The same circle with another radius.
    pub fn radius(self, radius: Decimal) -> (r: Self)
        ensures
            r == (Circle { radius, ..self }),
    {
        Circle { radius, ..self }
    }

    /// The same circle with another stroke.
    pub fn stroke(self, stroke: Stroke) -> (r: Self)
        ensures
            r == (Circle { stroke, ..self }),
    {
        Circle { stroke, ..self }
    }

    /// The same circle with another fill.
    pub fn fill(self, fill: Color) -> (r: Self)
        ensures
            r == (Circle { fill, ..self }),
    {
        Circle { fill, ..self }
    }
}

/// An axis-aligned rectangle between two corners, with an outline and a fill.
#[derive(PartialEq, Eq, Structural, Clone, Copy, Debug)]
pub struct Rect {
    pub from: Point,
    pub to: Point,
    pub stroke: Stroke,
    pub fill: Color,
}

impl Default for Rect {
    /// An empty rectangle at the origin, with the default stroke and no fill.
    fn default() -> (r: Self)
        ensures
            r.from.0.numerator() == 0 && r.from.1.numerator() == 0,
            r.to.0.numerator() == 0 && r.to.1.numerator() == 0,
            r.stroke == (Stroke { color: Color(0, 0, 0, 255), thickness: half() }),
            r.fill == Color(0, 0, 0, 0),
    {
        Rect { from: Point::default(), to: Point::default(), stroke: Stroke::default(), fill: Color::none() }
    }
}

impl Rect {
    /// The same rectangle with its first corner at `point`.
    pub fn start(self, point: Point) -> (r: Self)
        ensures
            r == (Rect { from: point, ..self }),
    {
        Rect { from: point, ..self }
    }

    /// The same rectangle with its second corner at `point`.
    pub fn end(self, point: Point) -> (r: Self)
        ensures
            r == (Rect { to: point, ..self }),
    {
        Rect { to: point, ..self }
    }

    /// The same rectangle with another fill.
    pub fn fill(self, fill: Color) -> (r: Self)
        ensures
            r == (Rect { fill, ..self }),
    {
        Rect { fill, ..self }
    }
}

/// Where a text label sits relative to its location.
#[derive(PartialEq, Eq, Structural, Clone, Copy, Debug)]
pub enum Anchor {
    Center,
    North,
    South,
    NorthEast,
    SouthEast,
    East,
    NorthWest,
    SouthWest,
    West,
}

impl Default for Anchor {
    /// Centred on the location.
    fn default() -> (r: Self)
        ensures
            r == Anchor::Center,
    {
        Anchor::Center
    }
}

/// A text label.
#[derive(Clone, Debug)]
pub struct Text {
    pub content: String,
    pub location: Point,
    pub anchor: Anchor,
    pub stroke: Stroke,
    pub fill: Color,
    pub font: Color,
}

impl Default for Text {
    /// An empty, centred label at the origin, in black, with no fill.
    fn default() -> (r: Self)
        ensures
            r.content@ == Seq::<char>::empty(),
            r.location.0.numerator() == 0 && r.location.1.numerator() == 0,
            r.anchor == Anchor::Center,
            r.stroke == (Stroke { color: Color(0, 0, 0, 255), thickness: half() }),
            r.fill == Color(0, 0, 0, 0),
            r.font == Color(0, 0, 0, 255),
    {
        Text {
            content: String::new(),
            location: Point::default(),
            anchor: Anchor::Center,
            stroke: Stroke::default(),
            fill: Color::none(),
            font: Color::black(),
        }
    }
}

impl Text {
    /// The same label with other content.
    pub fn content(self, s: String) -> (r: Self)
        ensures
            r.content == s,
            r.location == self.location,
            r.anchor == self.anchor,
            r.stroke == self.stroke,
            r.fill == self.fill,
            r.font == self.font,
    {
        Text { content: s, ..self }
    }

    /// The same label with another anchor.
    pub fn anchor(self, a: Anchor) -> (r: Self)
        ensures
            r.content == self.content,
            r.location == self.location,
            r.anchor == a,
            r.stroke == self.stroke,
            r.fill == self.fill,
            r.font == self.font,
    {
        Text { anchor: a, ..self }
    }

    /// The same label at another location.
    pub fn at(self, point: Point) -> (r: Self)
        ensures
            r.content == self.content,
            r.location == point,
            r.anchor == self.anchor,
            r.stroke == self.stroke,
            r.fill == self.fill,
            r.font == self.font,
    {
        Text { location: point, ..self }
    }

    /// The same label with another stroke.
    pub fn stroke(self, stroke: Stroke) -> (r: Self)
        ensures
            r.content == self.content,
            r.location == self.location,
            r.anchor == self.anchor,
            r.stroke == stroke,
            r.fill == self.fill,
            r.font == self.font,
    {
        Text { stroke, ..self }
    }
}

/// One shape of a scene.
#[derive(Clone, Debug)]
pub enum Drawable {
    Line(Line),
    Circle(Circle),
    Rect(Rect),
    Text(Text),
}

impl From<Line> for Drawable {
    /// The drawable that holds this line.
    fn from(x: Line) -> (r: Self)
        ensures
            r == Drawable::Line(x),
    {
        Drawable::Line(x)
    }
}

impl vstd::std_specs::convert::FromSpecImpl<Line> for Drawable {
    open spec fn obeys_from_spec() -> bool {
        true
    }

    open spec fn from_spec(x: Line) -> Self {
        Drawable::Line(x)
    }
}

impl From<Circle> for Drawable {
    /// The drawable that holds this circle.
    fn from(x: Circle) -> (r: Self)
        ensures
            r == Drawable::Circle(x),
    {
        Drawable::Circle(x)
    }
}

impl vstd::std_specs::convert::FromSpecImpl<Circle> for Drawable {
    open spec fn obeys_from_spec() -> bool {
        true
    }

    open spec fn from_spec(x: Circle) -> Self {
        Drawable::Circle(x)
    }
}

impl From<Rect> for Drawable {
    /// The drawable that holds this rect.
    fn from(x: Rect) -> (r: Self)
        ensures
            r == Drawable::Rect(x),
    {
        Drawable::Rect(x)
    }
}

impl vstd::std_specs::convert::FromSpecImpl<Rect> for Drawable {
    open spec fn obeys_from_spec() -> bool {
        true
    }

    open spec fn from_spec(x: Rect) -> Self {
        Drawable::Rect(x)
    }
}

impl From<Text> for Drawable {
    /// The drawable that holds this text.
    fn from(x: Text) -> (r: Self)
        ensures
            r == Drawable::Text(x),
    {
        Drawable::Text(x)
    }
}

impl vstd::std_specs::convert::FromSpecImpl<Text> for Drawable {
    open spec fn obeys_from_spec() -> bool {
        true
    }

    open spec fn from_spec(x: Text) -> Self {
        Drawable::Text(x)
    }
}

/// The colours a drawable refers to, in a fixed order: the stroke, then the
/// fill, then the font colour, for the variants that have them.
pub open spec fn drawable_colors(d: Drawable) -> Seq<Color> {
    match d {
        Drawable::Line(l) => seq![l.stroke.color],
        Drawable::Circle(c) => seq![c.stroke.color, c.fill],
        Drawable::Rect(r) => seq![r.stroke.color, r.fill],
        Drawable::Text(t) => seq![t.stroke.color, t.fill, t.font],
    }
}

} // verus!
