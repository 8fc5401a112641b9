//! A model of Western musical notation (pitches, durations, time signatures,
//! notes, bars and staff lines) together with the layout engine that sizes a
//! bar and emits its staff geometry.

pub mod bar;
pub mod decimal;
pub mod math;
pub mod notes;
pub mod render;
pub mod scales;
pub mod tempo;

use vstd::prelude::*;

use crate::bar::SheetLine;

verus! {

/// A sheet of music: what is written at its head, and its lines from top to
/// bottom.
#[derive(Debug, Clone)]
pub struct MusicSheet {
    pub title: String,
    pub subtitle: Option<String>,
    pub author: String,
    pub lines: Vec<SheetLine>,
}

/// How many notes a tuplet can hold.
pub const MAX_NOTES_IN_TUPLET: usize = 5;

/// How many bars a new line makes room for.
pub const STARTING_BAR_CAPACITY: usize = 4;

} // verus!
