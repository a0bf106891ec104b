//! The output formats offered to users, and what each one renders.
use vstd::prelude::*;

use crate::plot::artist::scene_text;
use crate::plot::canvas::Canvas;
use crate::plot::cetz::{CeTZ, CETZ_EPILOG, CETZ_PREAMBLE};
use crate::plot::tikz::{TikZ, TIKZ_EPILOG, TIKZ_PREAMBLE};

verus! {

/// A backend, as a whole document or as a bare fragment.
#[derive(PartialEq, Eq, Structural, Clone, Copy, Debug)]
pub enum ArtistChoice {
    TikZ,
    CeTZ,
    TikZSmall,
    CeTZSmall,
}

/// The text that `choice` gives for a scene.
pub open spec fn choice_text(choice: ArtistChoice, ds: Seq<crate::plot::shape::Drawable>) -> Seq<char> {
    match choice {
        ArtistChoice::TikZ => TIKZ_PREAMBLE@ + scene_text::<TikZ>(ds) + TIKZ_EPILOG@,
        ArtistChoice::CeTZ => CETZ_PREAMBLE@ + scene_text::<CeTZ>(ds) + CETZ_EPILOG@,
        ArtistChoice::TikZSmall => scene_text::<TikZ>(ds),
        ArtistChoice::CeTZSmall => scene_text::<CeTZ>(ds),
    }
}

/// Renders a canvas in the chosen format.
pub fn render_choice(choice: ArtistChoice, c: Canvas) -> (r: Result<String, ()>)
    ensures
        r matches Ok(s) && s@ == choice_text(choice, c@),
{
    match choice {
        ArtistChoice::TikZ => TikZ::render_doc(c),
        ArtistChoice::CeTZ => CeTZ::render_doc(c),
        ArtistChoice::TikZSmall => TikZ::render(c),
        ArtistChoice::CeTZSmall => CeTZ::render(c),
    }
}

} // verus!
