use vstd::prelude::*;

use super::artist::{render_any as render_any_with, render_canvas, scene_text, drawable_text, Artist};
use super::canvas::{Canvas, ColorMap};
use super::color::Color;
use super::number::{int_text, push_int};
use super::shape::{drawable_colors, Anchor, Circle, Drawable, Line, Rect, Text};

verus! {

/// The CeTZ backend, for Typst documents.
pub struct CeTZ;

/// What a CeTZ document holds before the drawing.
pub const CETZ_PREAMBLE: &'static str = "#import \"@preview/cetz:0.4.2\"\n#set page(width: auto, height: auto)\n#cetz.canvas({\nimport cetz.draw: *\n";

/// What a CeTZ document holds after the drawing.
pub const CETZ_EPILOG: &'static str = "})\n";

/// The CeTZ name of the colour of `table` equal to `c`.
pub open spec fn cetz_color(table: Seq<Color>, c: Color) -> Seq<char> {
    if c.spec_is_none() {
        "none"@
    } else {
        "color-"@ + int_text(table.index_of(c) as nat)
    }
}

impl Artist for CeTZ {
    open spec fn ident_text(c: Color, index: nat) -> Seq<char> {
        if c.spec_is_none() {
            "none"@
        } else {
            "color-"@ + int_text(index)
        }
    }

    open spec fn definition_text(c: Color, index: nat) -> Seq<char> {
        "let "@ + Self::ident_text(c, index) + " = color.rgb("@ + int_text(c.0 as nat) + ", "@
            + int_text(c.1 as nat) + ", "@ + int_text(c.2 as nat) + ")"@
    }

    open spec fn anchor_text(a: Anchor) -> Seq<char> {
        match a {
            Anchor::Center => "center"@,
            Anchor::North => "north"@,
            Anchor::South => "south"@,
            Anchor::NorthEast => "north east"@,
            Anchor::SouthEast => "south east"@,
            Anchor::East => "east"@,
            Anchor::NorthWest => "north west"@,
            Anchor::SouthWest => "south west"@,
            Anchor::West => "west"@,
        }
    }

    open spec fn line_text(line: Line, table: Seq<Color>) -> Seq<char> {
        "line(("@ + line.from.0.text() + ", "@ + line.from.1.text() + "), ("@ + line.to.0.text()
            + ", "@ + line.to.1.text() + "), stroke: (paint: "@ + cetz_color(
            table,
            line.stroke.color,
        ) + ", thickness: "@ + line.stroke.thickness.text() + "))"@
    }

    open spec fn circle_text(circle: Circle, table: Seq<Color>) -> Seq<char> {
        "circle(("@ + circle.center.0.text() + ", "@ + circle.center.1.text() + "), radius: "@
            + circle.radius.text() + ", stroke: (paint: "@ + cetz_color(table, circle.stroke.color)
            + ", thickness: "@ + circle.stroke.thickness.text() + "), fill: "@ + cetz_color(
            table,
            circle.fill,
        ) + ")"@
    }

    open spec fn rect_text(rect: Rect, table: Seq<Color>) -> Seq<char> {
        "rect(("@ + rect.from.0.text() + ", "@ + rect.from.1.text() + "), ("@ + rect.to.0.text()
            + ", "@ + rect.to.1.text() + "), stroke: (paint: "@ + cetz_color(
            table,
            rect.stroke.color,
        ) + ", thickness: "@ + rect.stroke.thickness.text() + "), fill: "@ + cetz_color(
            table,
            rect.fill,
        ) + ")"@
    }

    open spec fn text_text(text: Text, table: Seq<Color>) -> Seq<char> {
        "content(("@ + text.location.0.text() + ", "@ + text.location.1.text()
            + "), stroke: (paint: "@ + cetz_color(table, text.stroke.color) + ", thickness: "@
            + text.stroke.thickness.text() + "), fill: "@ + cetz_color(table, text.fill)
            + ", color: "@ + cetz_color(table, text.font) + ", anchor: \""@ + Self::anchor_text(
            text.anchor,
        ) + "\")["@ + text.content@ + "]"@
    }

    fn ident(c: Color, index: usize) -> (r: String) {
        if c.is_none() {
            String::from_str("none")
        } else {
            let mut s = String::from_str("color-");
            push_int(&mut s, index as u64);
            s
        }
    }

    fn define_color(c: Color, index: usize) -> (r: String) {
        let mut s = String::from_str("let ");
        let id = Self::ident(c, index);
        s.append(id.as_str());
        s.append(" = color.rgb(");
        push_int(&mut s, c.0 as u64);
        s.append(", ");
        push_int(&mut s, c.1 as u64);
        s.append(", ");
        push_int(&mut s, c.2 as u64);
        s.append(")");
        s
    }

    fn anchor(a: Anchor) -> (r: &'static str) {
        match a {
            Anchor::Center => "center",
            Anchor::North => "north",
            Anchor::South => "south",
            Anchor::NorthEast => "north east",
            Anchor::SouthEast => "south east",
            Anchor::East => "east",
            Anchor::NorthWest => "north west",
            Anchor::SouthWest => "south west",
            Anchor::West => "west",
        }
    }

    fn render_line(line: Line, c: &ColorMap) -> (r: Result<String, ()>) {
        let color = cetz_lookup(c, line.stroke.color);
        let mut s = String::from_str("line((");
        line.from.0.write_to(&mut s);
        s.append(", ");
        line.from.1.write_to(&mut s);
        s.append("), (");
        line.to.0.write_to(&mut s);
        s.append(", ");
        line.to.1.write_to(&mut s);
        s.append("), stroke: (paint: ");
        s.append(color.as_str());
        s.append(", thickness: ");
        line.stroke.thickness.write_to(&mut s);
        s.append("))");
        Ok(s)
    }

    fn render_circle(circle: Circle, c: &ColorMap) -> (r: Result<String, ()>) {
        let outline = cetz_lookup(c, circle.stroke.color);
        let fill = cetz_lookup(c, circle.fill);
        let mut s = String::from_str("circle((");
        circle.center.0.write_to(&mut s);
        s.append(", ");
        circle.center.1.write_to(&mut s);
        s.append("), radius: ");
        circle.radius.write_to(&mut s);
        s.append(", stroke: (paint: ");
        s.append(outline.as_str());
        s.append(", thickness: ");
        circle.stroke.thickness.write_to(&mut s);
        s.append("), fill: ");
        s.append(fill.as_str());
        s.append(")");
        Ok(s)
    }

    fn render_rect(rect: Rect, c: &ColorMap) -> (r: Result<String, ()>) {
        let outline = cetz_lookup(c, rect.stroke.color);
        let fill = cetz_lookup(c, rect.fill);
        let mut s = String::from_str("rect((");
        rect.from.0.write_to(&mut s);
        s.append(", ");
        rect.from.1.write_to(&mut s);
        s.append("), (");
        rect.to.0.write_to(&mut s);
        s.append(", ");
        rect.to.1.write_to(&mut s);
        s.append("), stroke: (paint: ");
        s.append(outline.as_str());
        s.append(", thickness: ");
        rect.stroke.thickness.write_to(&mut s);
        s.append("), fill: ");
        s.append(fill.as_str());
        s.append(")");
        Ok(s)
    }

    fn render_text(text: Text, c: &ColorMap) -> (r: Result<String, ()>) {
        let outline = cetz_lookup(c, text.stroke.color);
        let fill = cetz_lookup(c, text.fill);
        let font = cetz_lookup(c, text.font);
        let anchor = Self::anchor(text.anchor);
        let mut s = String::from_str("content((");
        text.location.0.write_to(&mut s);
        s.append(", ");
        text.location.1.write_to(&mut s);
        s.append("), stroke: (paint: ");
        s.append(outline.as_str());
        s.append(", thickness: ");
        text.stroke.thickness.write_to(&mut s);
        s.append("), fill: ");
        s.append(fill.as_str());
        s.append(", color: ");
        s.append(font.as_str());
        s.append(", anchor: \"");
        s.append(anchor);
        s.append("\")[");
        s.append(text.content.as_str());
        s.append("]");
        Ok(s)
    }
}

/// The CeTZ name of a colour of the table.
fn cetz_lookup(cm: &ColorMap, c: Color) -> (r: String)
    requires
        cm.wf(),
        cm@.contains(c),
    ensures
        r@ == cetz_color(cm@, c),
{
    if c.is_none() {
        String::from_str("none")
    } else {
        let i = cm.index_of(&c);
        let mut s = String::from_str("color-");
        push_int(&mut s, i as u64);
        s
    }
}

impl CeTZ {
    /// Renders a canvas as a CeTZ fragment.
    pub fn render(c: Canvas) -> (r: Result<String, ()>)
        ensures
            r matches Ok(s) && s@ == scene_text::<CeTZ>(c@),
    {
        render_canvas::<CeTZ>(c)
    }

    /// Renders any drawable as a CeTZ statement.
    pub fn render_any(d: Drawable, cm: &ColorMap) -> (r: Result<String, ()>)
        requires
            cm.wf(),
            forall|k: int| 0 <= k < drawable_colors(d).len() ==> cm@.contains(
                #[trigger] drawable_colors(d)[k],
            ),
        ensures
            r matches Ok(s) && s@ == drawable_text::<CeTZ>(d, cm@),
    {
        render_any_with::<CeTZ>(d, cm)
    }

    /// Renders a canvas as a standalone Typst document.
    pub fn render_doc(c: Canvas) -> (r: Result<String, ()>)
        ensures
            r matches Ok(s) && s@ == CETZ_PREAMBLE@ + scene_text::<CeTZ>(c@) + CETZ_EPILOG@,
    {
        let mut buf = String::from_str(CETZ_PREAMBLE);
        match Self::render(c) {
            Ok(rendered) => {
                buf.append(rendered.as_str());
            },
            Err(_) => {},
        }
        buf.append(CETZ_EPILOG);
        Ok(buf)
    }
}

} // verus!
