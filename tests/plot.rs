use uhm::cli::{render_choice, ArtistChoice};
use uhm::plot::artist::Artist;
use uhm::plot::cetz::{CETZ_EPILOG, CETZ_PREAMBLE};
use uhm::plot::tikz::{TIKZ_EPILOG, TIKZ_PREAMBLE};
use uhm::plot::{
    Anchor, Canvas, CeTZ, Circle, Color, ColorMap, Decimal, Drawable, Line, Point, Rect, Stroke,
    Text, TikZ,
};

fn pt(x: i64, y: i64) -> Point {
    Point::from_ints(x, y)
}

fn example_canvas() -> Canvas {
    let mut c = Canvas::new();
    c.draw(Drawable::Line(Line::default().start(pt(0, 0)).end(pt(10, 0))));
    c.draw(Drawable::Circle(
        Circle::default().at(pt(5, 0)).radius(Decimal::new(5, 2)),
    ));
    c
}

#[test]
fn example_scene_tikz() {
    let out = TikZ::render(example_canvas()).unwrap();
    assert_eq!(
        out,
        "\\definecolor{Color0}{RGB}{0,0,0}\n\
         \\path[line width=0.5, draw=Color0] (0, 0) -- (10, 0);\n\
         \\path[draw=Color0, fill=none, line width=0.5] (5, 0) circle (0.05);\n"
    );
}

#[test]
fn example_scene_cetz() {
    let out = CeTZ::render(example_canvas()).unwrap();
    assert_eq!(
        out,
        "let color-0 = color.rgb(0, 0, 0)\n\
         line((0, 0), (10, 0), stroke: (paint: color-0, thickness: 0.5))\n\
         circle((5, 0), radius: 0.05, stroke: (paint: color-0, thickness: 0.5), fill: none)\n"
    );
}

#[test]
fn render_is_deterministic() {
    assert_eq!(TikZ::render(example_canvas()), TikZ::render(example_canvas()));
    assert_eq!(CeTZ::render(example_canvas()), CeTZ::render(example_canvas()));
}

#[test]
fn empty_canvas_renders_nothing() {
    assert_eq!(TikZ::render(Canvas::new()).unwrap(), "");
    assert_eq!(CeTZ::render(Canvas::new()).unwrap(), "");
    assert_eq!(
        TikZ::render_doc(Canvas::new()).unwrap(),
        format!("{}{}", TIKZ_PREAMBLE, TIKZ_EPILOG)
    );
    assert_eq!(
        CeTZ::render_doc(Canvas::new()).unwrap(),
        format!("{}{}", CETZ_PREAMBLE, CETZ_EPILOG)
    );
}

#[test]
fn documents_wrap_fragments() {
    let frag = TikZ::render(example_canvas()).unwrap();
    let doc = TikZ::render_doc(example_canvas()).unwrap();
    assert_eq!(doc, format!("{}{}{}", TIKZ_PREAMBLE, frag, TIKZ_EPILOG));
    assert!(doc.starts_with("\\documentclass[tikz]{standalone}\n"));
    assert!(doc.ends_with("\\end{document}\n"));
    let frag = CeTZ::render(example_canvas()).unwrap();
    let doc = CeTZ::render_doc(example_canvas()).unwrap();
    assert_eq!(doc, format!("{}{}{}", CETZ_PREAMBLE, frag, CETZ_EPILOG));
    assert!(doc.starts_with("#import \"@preview/cetz:0.4.2\"\n"));
    assert!(doc.ends_with("})\n"));
}

#[test]
fn backends_render_independently() {
    let t = TikZ::render(example_canvas()).unwrap();
    let c = CeTZ::render(example_canvas()).unwrap();
    assert!(t.contains("\\path") && !t.contains("line(("));
    assert!(c.contains("line((") && !c.contains("\\path"));
}

fn red() -> Color {
    Color::rgb(255, 0, 0)
}

fn blue() -> Color {
    Color::rgb(0, 0, 255)
}

fn red_circle() -> Drawable {
    Drawable::Circle(Circle::default().stroke(Stroke::default().color(red())))
}

fn blue_line() -> Drawable {
    Drawable::Line(Line::default().stroke(Stroke::default().color(blue())))
}

#[test]
fn identifiers_follow_first_occurrence() {
    let mut c = Canvas::new();
    c.draw(red_circle());
    c.draw(blue_line());
    assert_eq!(
        TikZ::render(c).unwrap(),
        "\\definecolor{Color0}{RGB}{255,0,0}\n\
         \\definecolor{Color2}{RGB}{0,0,255}\n\
         \\path[draw=Color0, fill=none, line width=0.5] (0, 0) circle (1);\n\
         \\path[line width=0.5, draw=Color2] (0, 0) -- (0, 0);\n"
    );
    let mut c = Canvas::new();
    c.draw(blue_line());
    c.draw(red_circle());
    assert_eq!(
        CeTZ::render(c).unwrap(),
        "let color-0 = color.rgb(0, 0, 255)\n\
         let color-1 = color.rgb(255, 0, 0)\n\
         line((0, 0), (0, 0), stroke: (paint: color-0, thickness: 0.5))\n\
         circle((0, 0), radius: 1, stroke: (paint: color-1, thickness: 0.5), fill: none)\n"
    );
}

#[test]
fn color_table_dedups_in_order() {
    let mut c = Canvas::new();
    c.draw(red_circle());
    c.draw(blue_line());
    c.draw(red_circle());
    let colors = c.get_colors();
    assert_eq!(colors, vec![red(), Color::none(), blue(), red(), Color::none()]);
    let table = ColorMap::from_canvas(&c);
    assert_eq!(table.len(), 3);
    assert_eq!(table.get(0), red());
    assert_eq!(table.get(1), Color::none());
    assert_eq!(table.get(2), blue());
    assert_eq!(table.index_of(&blue()), 2);
}

#[test]
fn rect_and_text_statements() {
    let mut c = Canvas::new();
    c.draw(Drawable::Rect(
        Rect::default().start(pt(1, 2)).end(pt(3, -4)).fill(blue()),
    ));
    c.draw(Drawable::Text(
        Text::default()
            .content("hi".to_string())
            .anchor(Anchor::NorthEast)
            .at(Point::new(Decimal::new(-15, 1), Decimal::from_int(2))),
    ));
    assert_eq!(
        TikZ::render(c).unwrap(),
        "\\definecolor{Color0}{RGB}{0,0,0}\n\
         \\definecolor{Color1}{RGB}{0,0,255}\n\
         \\path[draw=Color0, fill=Color1, line width=0.5] (1, 2) rectangle (3, -4);\n\
         \\node[text=Color0, draw=Color0, fill=none, line width=0.5, anchor=north east] at (-1.5, 2) {hi};\n"
    );
    let mut c = Canvas::new();
    c.draw(Drawable::Rect(
        Rect::default().start(pt(1, 2)).end(pt(3, -4)).fill(blue()),
    ));
    c.draw(Drawable::Text(
        Text::default()
            .content("hi".to_string())
            .anchor(Anchor::NorthEast)
            .at(Point::new(Decimal::new(-15, 1), Decimal::from_int(2))),
    ));
    assert_eq!(
        CeTZ::render(c).unwrap(),
        "let color-0 = color.rgb(0, 0, 0)\n\
         let color-1 = color.rgb(0, 0, 255)\n\
         rect((1, 2), (3, -4), stroke: (paint: color-0, thickness: 0.5), fill: color-1)\n\
         content((-1.5, 2), stroke: (paint: color-0, thickness: 0.5), fill: none, color: color-0, anchor: \"north east\")[hi]\n"
    );
}

#[test]
fn every_anchor_has_a_name() {
    let all = [
        (Anchor::Center, "center"),
        (Anchor::North, "north"),
        (Anchor::South, "south"),
        (Anchor::NorthEast, "north east"),
        (Anchor::SouthEast, "south east"),
        (Anchor::East, "east"),
        (Anchor::NorthWest, "north west"),
        (Anchor::SouthWest, "south west"),
        (Anchor::West, "west"),
    ];
    for (a, name) in all {
        assert_eq!(TikZ::anchor(a), name);
        assert_eq!(CeTZ::anchor(a), name);
        assert!(!name.is_empty());
    }
}

#[test]
fn decimal_text() {
    assert_eq!(Decimal::new(-125, 2).to_text(), "-1.25");
    assert_eq!(Decimal::new(500, 2).to_text(), "5");
    assert_eq!(Decimal::new(5, 3).to_text(), "0.005");
    assert_eq!(Decimal::new(0, 3).to_text(), "0");
    assert_eq!(Decimal::new(1050, 1).to_text(), "105");
    assert_eq!(Decimal::new(1050, 3).to_text(), "1.05");
    assert_eq!(Decimal::from_int(-7).to_text(), "-7");
    assert_eq!(Decimal::from_int(i64::MIN).to_text(), "-9223372036854775808");
    assert_eq!(Decimal::from_int(1234567890).to_text(), "1234567890");
    assert_eq!(Decimal::default().to_text(), "0");
}

#[test]
fn color_constructors() {
    assert_eq!(Color::rgb(1, 2, 3), Color(1, 2, 3, 255));
    assert_eq!(Color::rgba(1, 2, 3, 4), Color(1, 2, 3, 4));
    assert_eq!(Color::hex(0x123456), Color(0x12, 0x34, 0x56, 255));
    assert_eq!(Color::hex(0xAB123456), Color(0x12, 0x34, 0x56, 255));
    assert_eq!(Color::hexa(0x12345678), Color(0x12, 0x34, 0x56, 0x78));
    assert_eq!(Color::white(), Color(255, 255, 255, 255));
    assert_eq!(Color::black(), Color(0, 0, 0, 255));
    assert_eq!(Color::none(), Color(0, 0, 0, 0));
    assert_eq!(Color::default(), Color::none());
    assert!(Color::none().is_none());
    assert!(!Color::black().is_none());
    assert!(!Color::rgba(0, 0, 0, 1).is_none());
}

#[test]
fn defaults() {
    let s = Stroke::default();
    assert_eq!(s.color, Color::black());
    assert_eq!(s.thickness.to_text(), "0.5");
    let c = Circle::default();
    assert_eq!(c.radius.to_text(), "1");
    assert_eq!(c.fill, Color::none());
    let t = Text::default();
    assert_eq!(t.content, "");
    assert_eq!(t.font, Color::black());
    assert_eq!(t.anchor, Anchor::Center);
    assert_eq!(Anchor::default(), Anchor::Center);
    assert_eq!(Rect::default().fill, Color::none());
}

#[test]
fn render_any_picks_the_variant() {
    let mut c = Canvas::new();
    c.draw(blue_line());
    let table = ColorMap::from_canvas(&c);
    assert_eq!(
        TikZ::render_any(blue_line(), &table).unwrap(),
        "\\path[line width=0.5, draw=Color0] (0, 0) -- (0, 0);"
    );
    assert_eq!(
        CeTZ::render_any(blue_line(), &table).unwrap(),
        "line((0, 0), (0, 0), stroke: (paint: color-0, thickness: 0.5))"
    );
    assert_eq!(TikZ::define_color(blue(), 3), "\\definecolor{Color3}{RGB}{0,0,255}");
    assert_eq!(CeTZ::define_color(blue(), 12), "let color-12 = color.rgb(0, 0, 255)");
    assert_eq!(TikZ::ident(Color::none(), 4), "none");
}

#[test]
fn choices_render_their_format() {
    let frag = TikZ::render(example_canvas()).unwrap();
    assert_eq!(render_choice(ArtistChoice::TikZSmall, example_canvas()).unwrap(), frag);
    assert_eq!(
        render_choice(ArtistChoice::TikZ, example_canvas()).unwrap(),
        format!("{}{}{}", TIKZ_PREAMBLE, frag, TIKZ_EPILOG)
    );
    let frag = CeTZ::render(example_canvas()).unwrap();
    assert_eq!(render_choice(ArtistChoice::CeTZSmall, example_canvas()).unwrap(), frag);
    assert_eq!(
        render_choice(ArtistChoice::CeTZ, example_canvas()).unwrap(),
        format!("{}{}{}", CETZ_PREAMBLE, frag, CETZ_EPILOG)
    );
}

#[test]
fn shapes_convert_into_drawables() {
    let mut c = Canvas::new();
    c.draw(Line::default().end(pt(1, 1)).into());
    c.draw(Circle::default().into());
    c.draw(Rect::default().into());
    c.draw(Text::default().content("t".to_string()).into());
    assert_eq!(c.len(), 4);
    assert_eq!(
        TikZ::render(c).unwrap(),
        "\\definecolor{Color0}{RGB}{0,0,0}\n\
         \\path[line width=0.5, draw=Color0] (0, 0) -- (1, 1);\n\
         \\path[draw=Color0, fill=none, line width=0.5] (0, 0) circle (1);\n\
         \\path[draw=Color0, fill=none, line width=0.5] (0, 0) rectangle (0, 0);\n\
         \\node[text=Color0, draw=Color0, fill=none, line width=0.5, anchor=center] at (0, 0) {t};\n"
    );
}
