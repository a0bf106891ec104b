use vstd::prelude::*;

use super::artist::{render_any as render_any_with, render_canvas, scene_text, drawable_text, Artist};
use super::canvas::{Canvas, ColorMap};
use super::color::Color;
use super::number::{int_text, push_int};
use super::shape::{drawable_colors, Anchor, Circle, Drawable, Line, Rect, Text};

verus! {

/// The TikZ backend, for LaTeX documents.
pub struct TikZ;

/// What a TikZ document holds before the picture.
pub const TIKZ_PREAMBLE: &'static str = "\\documentclass[tikz]{standalone}\n\\usepackage{tikz}\n\\begin{document}\n\\begin{tikzpicture}\n";

/// What a TikZ document holds after the picture.
pub const TIKZ_EPILOG: &'static str = "\\end{tikzpicture}\n\\end{document}\n";

/// The TikZ name of the colour of `table` equal to `c`.
pub open spec fn tikz_color(table: Seq<Color>, c: Color) -> Seq<char> {
    if c.spec_is_none() {
        "none"@
    } else {
        "Color"@ + int_text(table.index_of(c) as nat)
    }
}

impl Artist for TikZ {
    open spec fn ident_text(c: Color, index: nat) -> Seq<char> {
        if c.spec_is_none() {
            "none"@
        } else {
            "Color"@ + int_text(index)
        }
    }

    open spec fn definition_text(c: Color, index: nat) -> Seq<char> {
        "\\definecolor{"@ + Self::ident_text(c, index) + "}{RGB}{"@ + int_text(c.0 as nat) + ","@
            + int_text(c.1 as nat) + ","@ + int_text(c.2 as nat) + "}"@
    }

    open spec fn anchor_text(a: Anchor) -> Seq<char> {
        match a {
            Anchor::Center => "center"@,
            Anchor::North => "north"@,
            Anchor::South => "south"@,
            Anchor::NorthEast => "north east"@,
            Anchor::SouthEast => "south east"@,
            Anchor::East => "east"@,
            Anchor::NorthWest => "north west"@,
            Anchor::SouthWest => "south west"@,
            Anchor::West => "west"@,
        }
    }

    open spec fn line_text(line: Line, table: Seq<Color>) -> Seq<char> {
        "\\path[line width="@ + line.stroke.thickness.text() + ", draw="@ + tikz_color(
            table,
            line.stroke.color,
        ) + "] ("@ + line.from.0.text() + ", "@ + line.from.1.text() + ") -- ("@
            + line.to.0.text() + ", "@ + line.to.1.text() + ");"@
    }

    open spec fn circle_text(circle: Circle, table: Seq<Color>) -> Seq<char> {
        "\\path[draw="@ + tikz_color(table, circle.stroke.color) + ", fill="@ + tikz_color(
            table,
            circle.fill,
        ) + ", line width="@ + circle.stroke.thickness.text() + "] ("@ + circle.center.0.text()
            + ", "@ + circle.center.1.text() + ") circle ("@ + circle.radius.text() + ");"@
    }

    open spec fn rect_text(rect: Rect, table: Seq<Color>) -> Seq<char> {
        "\\path[draw="@ + tikz_color(table, rect.stroke.color) + ", fill="@ + tikz_color(
            table,
            rect.fill,
        ) + ", line width="@ + rect.stroke.thickness.text() + "] ("@ + rect.from.0.text() + ", "@
            + rect.from.1.text() + ") rectangle ("@ + rect.to.0.text() + ", "@ + rect.to.1.text()
            + ");"@
    }

    open spec fn text_text(text: Text, table: Seq<Color>) -> Seq<char> {
        "\\node[text="@ + tikz_color(table, text.font) + ", draw="@ + tikz_color(
            table,
            text.stroke.color,
        ) + ", fill="@ + tikz_color(table, text.fill) + ", line width="@
            + text.stroke.thickness.text() + ", anchor="@ + Self::anchor_text(text.anchor)
            + "] at ("@ + text.location.0.text() + ", "@ + text.location.1.text() + ") {"@
            + text.content@ + "};"@
    }

    fn ident(c: Color, index: usize) -> (r: String) {
        if c.is_none() {
            String::from_str("none")
        } else {
            let mut s = String::from_str("Color");
            push_int(&mut s, index as u64);
            s
        }
    }

    fn define_color(c: Color, index: usize) -> (r: String) {
        let mut s = String::from_str("\\definecolor{");
        let id = Self::ident(c, index);
        s.append(id.as_str());
        s.append("}{RGB}{");
        push_int(&mut s, c.0 as u64);
        s.append(",");
        push_int(&mut s, c.1 as u64);
        s.append(",");
        push_int(&mut s, c.2 as u64);
        s.append("}");
        s
    }

    fn anchor(a: Anchor) -> (r: &'static str) {
        match a {
            Anchor::Center => "center",
            Anchor::North => "north",
            Anchor::South => "south",
            Anchor::NorthEast => "north east",
            Anchor::SouthEast => "south east",
            Anchor::East => "east",
            Anchor::NorthWest => "north west",
            Anchor::SouthWest => "south west",
            Anchor::West => "west",
        }
    }

    fn render_line(line: Line, c: &ColorMap) -> (r: Result<String, ()>) {
        let color = tikz_lookup(c, line.stroke.color);
        let mut s = String::from_str("\\path[line width=");
        line.stroke.thickness.write_to(&mut s);
        s.append(", draw=");
        s.append(color.as_str());
        s.append("] (");
        line.from.0.write_to(&mut s);
        s.append(", ");
        line.from.1.write_to(&mut s);
        s.append(") -- (");
        line.to.0.write_to(&mut s);
        s.append(", ");
        line.to.1.write_to(&mut s);
        s.append(");");
        Ok(s)
    }

    fn render_circle(circle: Circle, c: &ColorMap) -> (r: Result<String, ()>) {
        let outline = tikz_lookup(c, circle.stroke.color);
        let fill = tikz_lookup(c, circle.fill);
        let mut s = String::from_str("\\path[draw=");
        s.append(outline.as_str());
        s.append(", fill=");
        s.append(fill.as_str());
        s.append(", line width=");
        circle.stroke.thickness.write_to(&mut s);
        s.append("] (");
        circle.center.0.write_to(&mut s);
        s.append(", ");
        circle.center.1.write_to(&mut s);
        s.append(") circle (");
        circle.radius.write_to(&mut s);
        s.append(");");
        Ok(s)
    }

    fn render_rect(rect: Rect, c: &ColorMap) -> (r: Result<String, ()>) {
        let outline = tikz_lookup(c, rect.stroke.color);
        let fill = tikz_lookup(c, rect.fill);
        let mut s = String::from_str("\\path[draw=");
        s.append(outline.as_str());
        s.append(", fill=");
        s.append(fill.as_str());
        s.append(", line width=");
        rect.stroke.thickness.write_to(&mut s);
        s.append("] (");
        rect.from.0.write_to(&mut s);
        s.append(", ");
        rect.from.1.write_to(&mut s);
        s.append(") rectangle (");
        rect.to.0.write_to(&mut s);
        s.append(", ");
        rect.to.1.write_to(&mut s);
        s.append(");");
        Ok(s)
    }

    fn render_text(text: Text, c: &ColorMap) -> (r: Result<String, ()>) {
        let outline = tikz_lookup(c, text.stroke.color);
        let fill = tikz_lookup(c, text.fill);
        let font = tikz_lookup(c, text.font);
        let anchor = Self::anchor(text.anchor);
        let mut s = String::from_str("\\node[text=");
        s.append(font.as_str());
        s.append(", draw=");
        s.append(outline.as_str());
        s.append(", fill=");
        s.append(fill.as_str());
        s.append(", line width=");
        text.stroke.thickness.write_to(&mut s);
        s.append(", anchor=");
        s.append(anchor);
        s.append("] at (");
        text.location.0.write_to(&mut s);
        s.append(", ");
        text.location.1.write_to(&mut s);
        s.append(") {");
        s.append(text.content.as_str());
        s.append("};");
        Ok(s)
    }
}

/// The TikZ name of a colour of the table.
fn tikz_lookup(cm: &ColorMap, c: Color) -> (r: String)
    requires
        cm.wf(),
        cm@.contains(c),
    ensures
        r@ == tikz_color(cm@, c),
{
    if c.is_none() {
        String::from_str("none")
    } else {
        let i = cm.index_of(&c);
        let mut s = String::from_str("Color");
        push_int(&mut s, i as u64);
        s
    }
}

impl TikZ {
    /// Renders a canvas as a TikZ fragment.
    pub fn render(c: Canvas) -> (r: Result<String, ()>)
        ensures
            r matches Ok(s) && s@ == scene_text::<TikZ>(c@),
    {
        render_canvas::<TikZ>(c)
    }

    /// Renders any drawable as a TikZ statement.
    pub fn render_any(d: Drawable, cm: &ColorMap) -> (r: Result<String, ()>)
        requires
            cm.wf(),
            forall|k: int| 0 <= k < drawable_colors(d).len() ==> cm@.contains(
                #[trigger] drawable_colors(d)[k],
            ),
        ensures
            r matches Ok(s) && s@ == drawable_text::<TikZ>(d, cm@),
    {
        render_any_with::<TikZ>(d, cm)
    }

    /// Renders a canvas as a standalone LaTeX document.
    pub fn render_doc(c: Canvas) -> (r: Result<String, ()>)
        ensures
            r matches Ok(s) && s@ == TIKZ_PREAMBLE@ + scene_text::<TikZ>(c@) + TIKZ_EPILOG@,
    {
        let mut buf = String::from_str(TIKZ_PREAMBLE);
        match Self::render(c) {
            Ok(rendered) => {
                buf.append(rendered.as_str());
            },
            Err(_) => {},
        }
        buf.append(TIKZ_EPILOG);
        Ok(buf)
    }
}

} // verus!
