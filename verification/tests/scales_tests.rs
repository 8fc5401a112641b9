use rustsheet::notes::{Octave, Tone, ToneModifiers};
use rustsheet::scales::MajorScale;

fn spelling(tone: Tone) -> (Octave, u8, Option<ToneModifiers>) {
    (tone.octave, tone.position, tone.modifiers)
}

fn take(scale: &mut MajorScale, count: usize) -> Vec<(Octave, u8, Option<ToneModifiers>)> {
    let mut tones = Vec::new();
    for _ in 0..count {
        tones.push(spelling(scale.next().unwrap()));
    }
    tones
}

#[test]
fn c_major_from_c4() {
    let mut scale = MajorScale::new(Tone::new(Octave::C, 4)).unwrap();
    assert_eq!(
        take(&mut scale, 8),
        vec![
            (Octave::C, 4, None),
            (Octave::D, 4, None),
            (Octave::E, 4, None),
            (Octave::F, 4, None),
            (Octave::G, 4, None),
            (Octave::A, 4, None),
            (Octave::B, 4, None),
            (Octave::C, 5, None),
        ]
    );
    assert_eq!(
        take(&mut scale, 7),
        vec![
            (Octave::D, 5, None),
            (Octave::E, 5, None),
            (Octave::F, 5, None),
            (Octave::G, 5, None),
            (Octave::A, 5, None),
            (Octave::B, 5, None),
            (Octave::C, 6, None),
        ]
    );
}

#[test]
fn g_major_has_an_f_sharp() {
    let sharp = Some(ToneModifiers::Sharp);
    let mut scale = MajorScale::new(Tone::new(Octave::G, 2)).unwrap();
    assert_eq!(
        take(&mut scale, 8),
        vec![
            (Octave::G, 2, None),
            (Octave::A, 2, None),
            (Octave::B, 2, None),
            (Octave::C, 3, None),
            (Octave::D, 3, None),
            (Octave::E, 3, None),
            (Octave::F, 3, sharp),
            (Octave::G, 3, None),
        ]
    );
}

#[test]
fn a_flat_start_is_spelled_with_sharps() {
    let sharp = Some(ToneModifiers::Sharp);
    let start = Tone::with_modifiers(Octave::D, 4, ToneModifiers::Flat).unwrap();
    let mut scale = MajorScale::new(start).unwrap();
    assert_eq!(
        take(&mut scale, 8),
        vec![
            (Octave::C, 4, sharp),
            (Octave::D, 4, sharp),
            (Octave::F, 4, None),
            (Octave::F, 4, sharp),
            (Octave::G, 4, sharp),
            (Octave::A, 4, sharp),
            (Octave::C, 5, None),
            (Octave::C, 5, sharp),
        ]
    );
}

#[test]
fn scales_start_on_the_listed_pitches_only() {
    let sharp = Some(ToneModifiers::Sharp);
    let flat = Some(ToneModifiers::Flat);
    let natural = Some(ToneModifiers::Natural);
    let starts = [
        (Octave::C, None),
        (Octave::G, None),
        (Octave::D, None),
        (Octave::A, None),
        (Octave::E, None),
        (Octave::B, None),
        (Octave::F, sharp),
        (Octave::G, flat),
        (Octave::C, sharp),
        (Octave::D, flat),
    ];
    let letters = [
        Octave::A,
        Octave::B,
        Octave::C,
        Octave::D,
        Octave::E,
        Octave::F,
        Octave::G,
    ];
    for octave in letters {
        for modifiers in [None, flat, natural, sharp] {
            for position in [0u8, 4, 255] {
                let tone = Tone {
                    octave,
                    position,
                    modifiers,
                };
                let listed = starts.contains(&(octave, modifiers));
                assert_eq!(MajorScale::new(tone).is_some(), listed);
            }
        }
    }
}

#[test]
fn scale_ends_at_the_top_of_the_keyboard() {
    let mut scale = MajorScale::new(Tone::new(Octave::B, 255)).unwrap();
    assert_eq!(spelling(scale.next().unwrap()), (Octave::B, 255, None));
    for _ in 0..20 {
        assert!(scale.next().is_none());
    }

    let mut scale = MajorScale::new(Tone::new(Octave::G, 255)).unwrap();
    assert_eq!(
        take(&mut scale, 3),
        vec![
            (Octave::G, 255, None),
            (Octave::A, 255, None),
            (Octave::B, 255, None),
        ]
    );
    for _ in 0..20 {
        assert!(scale.next().is_none());
    }
}

#[test]
fn scale_rises_by_whole_and_half_steps() {
    let mut scale = MajorScale::new(Tone::new(Octave::E, 0)).unwrap();
    let steps = [2, 2, 1, 2, 2, 2, 1];
    let mut last = scale.next().unwrap().get_semitones_since_c0();
    assert_eq!(last, 4);
    let mut count = 0;
    while let Some(tone) = scale.next() {
        let index = tone.get_semitones_since_c0();
        assert_eq!(index - last, steps[count % 7]);
        last = index;
        count += 1;
    }
    assert!(last <= 3071);
    assert!(last >= 3070);
    assert!(count > 1700);
}
