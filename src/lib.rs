//! Vector drawings with textual backends for TikZ and CeTZ, the decisions
//! of a recording session, and the plain values that describe where text is
//! read from and written to.
pub mod cli;
pub mod io;
pub mod plot;
pub mod record;
