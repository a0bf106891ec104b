//! Shapes, canvases, colour tables and the two text backends.
pub mod artist;
pub mod canvas;
pub mod cetz;
pub mod color;
pub mod number;
pub mod shape;
pub mod tikz;
pub mod laws;

pub use self::color::Color;
pub use self::number::Decimal;
pub use self::shape::{Anchor, Circle, Drawable, Line, Point, Rect, Stroke, Text};
pub use self::canvas::{Canvas, ColorMap};
pub use self::artist::Artist;
pub use self::tikz::TikZ;
pub use self::cetz::CeTZ;
