use std::cmp::Ordering;

use rustsheet::bar::{Bar, BarHeader, Clef, LineType, NotePosition, SheetLine, SingleLine};
use rustsheet::notes::{Note, Octave, Tone, ToneModifiers};
use rustsheet::tempo::TimeSignature;
use rustsheet::{MusicSheet, MAX_NOTES_IN_TUPLET, STARTING_BAR_CAPACITY};

fn position(line: usize, bar: usize, index: usize) -> NotePosition {
    NotePosition { line, bar, index }
}

#[test]
fn positions_on_different_lines_are_not_ordered() {
    assert_eq!(position(0, 1, 1).partial_cmp(&position(1, 1, 1)), None);
    assert_eq!(position(1, 0, 0).partial_cmp(&position(0, 5, 5)), None);
    assert!(!(position(0, 1, 1) < position(1, 1, 1)));
    assert!(!(position(0, 1, 1) > position(1, 1, 1)));
    assert!(!(position(0, 1, 1) <= position(1, 1, 1)));
    assert_ne!(position(0, 1, 1), position(1, 1, 1));
}

#[test]
fn positions_are_ordered_by_bar_then_index() {
    assert_eq!(
        position(2, 1, 9).partial_cmp(&position(2, 2, 0)),
        Some(Ordering::Less)
    );
    assert_eq!(
        position(2, 3, 0).partial_cmp(&position(2, 2, 9)),
        Some(Ordering::Greater)
    );
    assert_eq!(
        position(2, 2, 1).partial_cmp(&position(2, 2, 4)),
        Some(Ordering::Less)
    );
    assert_eq!(
        position(2, 2, 4).partial_cmp(&position(2, 2, 1)),
        Some(Ordering::Greater)
    );
    assert_eq!(
        position(2, 2, 4).partial_cmp(&position(2, 2, 4)),
        Some(Ordering::Equal)
    );
    assert!(position(0, 0, 0) < position(0, 0, 1));
    assert!(position(0, 0, usize::MAX) < position(0, 1, 0));
    assert!(position(0, 4, 0) >= position(0, 4, 0));
    assert_eq!(position(3, 2, 1), position(3, 2, 1));
}

#[test]
fn clef_center_tones() {
    let center = Clef::Treble.get_center_tone();
    assert_eq!((center.octave, center.position), (Octave::B, 4));
    assert!(center.modifiers.is_none());
    let center = Clef::Tenor.get_center_tone();
    assert_eq!((center.octave, center.position), (Octave::C, 4));
    assert!(center.modifiers.is_none());
    let center = Clef::Bass.get_center_tone();
    assert_eq!((center.octave, center.position), (Octave::D, 3));
    assert!(center.modifiers.is_none());
    let given = Tone::with_modifiers_unchecked(Octave::F, 2, ToneModifiers::Sharp);
    let center = Clef::NoClef { center: given }.get_center_tone();
    assert_eq!((center.octave, center.position), (Octave::F, 2));
    assert_eq!(center.modifiers, Some(ToneModifiers::Sharp));
}

#[test]
fn default_clef_centers_on_c4() {
    match Clef::default() {
        Clef::NoClef { center } => {
            assert_eq!((center.octave, center.position), (Octave::C, 4));
            assert!(center.modifiers.is_none());
        }
        _ => panic!("a clef by default"),
    }
}

#[test]
fn clef_equality() {
    assert_eq!(Clef::Treble, Clef::Treble);
    assert_eq!(Clef::Tenor, Clef::Tenor);
    assert_eq!(Clef::Bass, Clef::Bass);
    assert_ne!(Clef::Treble, Clef::Bass);
    assert_ne!(Clef::Tenor, Clef::default());
    let c_sharp = Tone::with_modifiers_unchecked(Octave::C, 4, ToneModifiers::Sharp);
    let d_flat = Tone::with_modifiers_unchecked(Octave::D, 4, ToneModifiers::Flat);
    assert_eq!(
        Clef::NoClef { center: c_sharp },
        Clef::NoClef { center: d_flat }
    );
    assert_ne!(
        Clef::NoClef { center: c_sharp },
        Clef::NoClef {
            center: Tone::new(Octave::C, 4)
        }
    );
}

#[test]
fn default_header_holds_nothing() {
    let header = BarHeader::default();
    assert!(header.clef.is_none());
    assert!(header.time_signature.is_none());
    assert_eq!(header.attributes.len(), 8);
    assert!(header.attributes.iter().all(|a| a.is_none()));
}

#[test]
fn sane_default_header() {
    let header = BarHeader::sane_default();
    assert_eq!(header.clef, Some(Clef::Bass));
    assert_eq!(header.time_signature, Some(TimeSignature::default()));
    assert_eq!(header.time_signature.unwrap().num(), 4);
    assert_eq!(header.time_signature.unwrap().den(), 4);
    assert!(header.attributes.iter().all(|a| a.is_none()));
}

#[test]
fn header_equality() {
    assert_eq!(BarHeader::default(), BarHeader::default());
    assert_eq!(BarHeader::sane_default(), BarHeader::sane_default());
    assert_ne!(BarHeader::default(), BarHeader::sane_default());

    let mut clef_only = BarHeader::default();
    clef_only.clef = Some(Clef::Bass);
    assert_ne!(clef_only, BarHeader::default());
    assert_ne!(clef_only, BarHeader::sane_default());

    let mut treble = BarHeader::sane_default();
    treble.clef = Some(Clef::Treble);
    assert_ne!(treble, BarHeader::sane_default());

    let mut waltz = BarHeader::sane_default();
    waltz.time_signature = Some(TimeSignature::new(3, 4).unwrap());
    assert_ne!(waltz, BarHeader::sane_default());

    let mut sharp = BarHeader::default();
    sharp.attributes[7] = Some(Tone::with_modifiers_unchecked(
        Octave::F,
        4,
        ToneModifiers::Sharp,
    ));
    let mut flat = BarHeader::default();
    flat.attributes[7] = Some(Tone::with_modifiers_unchecked(
        Octave::G,
        4,
        ToneModifiers::Flat,
    ));
    assert_eq!(sharp, flat);
    assert_ne!(sharp, BarHeader::default());
    let mut elsewhere = BarHeader::default();
    elsewhere.attributes[0] = sharp.attributes[7];
    assert_ne!(sharp, elsewhere);
    flat.attributes[7] = Some(Tone::new(Octave::G, 4));
    assert_ne!(sharp, flat);
}

#[test]
fn empty_default_bar_is_empty() {
    assert_eq!(Bar::default().is_empty(), true);
    let bar = Bar {
        header: BarHeader::default(),
        notes: Vec::new(),
    };
    assert_eq!(bar.is_empty(), true);
}

#[test]
fn bar_without_notes_but_with_a_header_is_not_empty() {
    let bar = Bar {
        header: BarHeader::sane_default(),
        notes: Vec::new(),
    };
    assert_eq!(bar.is_empty(), false);

    let mut bar = Bar::default();
    bar.header.clef = Some(Clef::Treble);
    assert_eq!(bar.is_empty(), false);

    let mut bar = Bar::default();
    bar.header.time_signature = Some(TimeSignature::default());
    assert_eq!(bar.is_empty(), false);

    for i in 0..8 {
        let mut bar = Bar::default();
        bar.header.attributes[i] = Some(Tone::default());
        assert_eq!(bar.is_empty(), false);
    }
}

#[test]
fn bar_with_notes_is_not_empty() {
    let mut bar = Bar::default();
    bar.notes.push(Note::default());
    assert_eq!(bar.is_empty(), false);
    bar.notes.clear();
    assert_eq!(bar.is_empty(), true);
    let bar = Bar {
        header: BarHeader::sane_default(),
        notes: vec![Note::default()],
    };
    assert_eq!(bar.is_empty(), false);
}

#[test]
fn every_bar_passes_the_time_signature_check() {
    assert!(Bar::default().check_time_signature(TimeSignature::default()));
    let bar = Bar {
        header: BarHeader::sane_default(),
        notes: vec![Note::default(); 9],
    };
    assert!(bar.check_time_signature(TimeSignature::new(3, 8).unwrap()));
}

#[test]
fn default_line_has_one_empty_bar() {
    let line = SingleLine::default();
    assert_eq!(line.bars.len(), 1);
    assert!(line.bars[0].is_empty());
    assert!(line.bars.capacity() >= STARTING_BAR_CAPACITY);
    assert_eq!(STARTING_BAR_CAPACITY, 4);
    assert_eq!(MAX_NOTES_IN_TUPLET, 5);
}

#[test]
fn sane_default_line_has_one_bar_with_a_sane_header() {
    let line = SingleLine::sane_default();
    assert_eq!(line.bars.len(), 1);
    assert_eq!(line.bars[0].notes.len(), 0);
    assert_eq!(line.bars[0].header, BarHeader::sane_default());
    assert!(!line.bars[0].is_empty());
    assert!(line.bars.capacity() >= STARTING_BAR_CAPACITY);
}

#[test]
fn line_type_from_a_single_line() {
    match LineType::from(SingleLine::sane_default()) {
        LineType::Single(line) => {
            assert_eq!(line.bars.len(), 1);
            assert_eq!(line.bars[0].header, BarHeader::sane_default());
        }
        LineType::Double(_, _) => panic!("two staves from one"),
    }
    match LineType::default() {
        LineType::Single(line) => {
            assert_eq!(line.bars.len(), 1);
            assert!(line.bars[0].is_empty());
        }
        LineType::Double(_, _) => panic!("two staves by default"),
    }
}

#[test]
fn sheet_lines() {
    let line = SheetLine::new(SingleLine::sane_default().into());
    assert!(line.name.is_none());
    assert!(matches!(line.line, LineType::Single(_)));

    let pair = LineType::Double(SingleLine::default(), SingleLine::sane_default());
    let line = SheetLine::new_named(String::from("Piano"), pair);
    assert_eq!(line.name.as_deref(), Some("Piano"));
    match line.line {
        LineType::Double(upper, lower) => {
            assert!(upper.bars[0].is_empty());
            assert!(!lower.bars[0].is_empty());
        }
        LineType::Single(_) => panic!("one staff from two"),
    }

    let line = SheetLine::default();
    assert!(line.name.is_none());
    match line.line {
        LineType::Single(single) => {
            assert_eq!(single.bars.len(), 1);
            assert!(single.bars[0].is_empty());
        }
        LineType::Double(_, _) => panic!("two staves by default"),
    }
}

#[test]
fn music_sheet_holds_its_lines() {
    let sheet = MusicSheet {
        title: String::from("Etude"),
        subtitle: None,
        author: String::from("Anon"),
        lines: vec![SheetLine::default(), SheetLine::default()],
    };
    assert_eq!(sheet.lines.len(), 2);
    assert_eq!(sheet.title, "Etude");
    assert_eq!(sheet.clone().author, "Anon");
}
