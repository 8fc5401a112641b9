//! Rendering of notation as vector graphics.

use vstd::prelude::*;

pub mod line;

verus! {

/// How a sheet is to be drawn.
#[derive(Debug, Copy, Clone)]
pub struct RendererConfig<'a> {
    /// The fill of the page.
    pub background_color: &'a str,
    /// The color of the notes of each octave letter.
    pub octave_colors: [&'a str; 7],
    /// The color of the helper line at each staff position.
    pub line_help_colors: [&'a str; 8],
    /// Whether bars are checked against their time signature. Nothing reads
    /// it yet.
    pub error_checking: bool,
}

impl<'a> RendererConfig<'a> {
    /// Black notes and invisible helper lines on the given background:
    /// what the two presets have in common.
    pub open spec fn is_preset(&self, background: Seq<char>) -> bool {
        &&& self.background_color@ == background
        &&& forall|i: int| 0 <= i < 7 ==> (#[trigger] self.octave_colors@[i])@ == "black"@
        &&& forall|i: int| 0 <= i < 8 ==> (#[trigger] self.line_help_colors@[i])@ == "#00000000"@
        &&& !self.error_checking
    }

    /// The default preset on a light grey page.
    pub fn default_accessibility() -> (res: Self)
        ensures
            res.is_preset("#EFEFEF"@),
    {
        Self {
            background_color: "#EFEFEF",
            octave_colors: ["black", "black", "black", "black", "black", "black", "black"],
            line_help_colors: [
                "#00000000",
                "#00000000",
                "#00000000",
                "#00000000",
                "#00000000",
                "#00000000",
                "#00000000",
                "#00000000",
            ],
            error_checking: false,
        }
    }
}

impl Default for RendererConfig<'static> {
    /// Black notes and invisible helper lines on a white page.
    fn default() -> (res: Self)
        ensures
            res.is_preset("white"@),
    {
        Self {
            background_color: "white",
            octave_colors: ["black", "black", "black", "black", "black", "black", "black"],
            line_help_colors: [
                "#00000000",
                "#00000000",
                "#00000000",
                "#00000000",
                "#00000000",
                "#00000000",
                "#00000000",
                "#00000000",
            ],
            error_checking: false,
        }
    }
}

} // verus!
