//! Scales: the pitches that follow from a starting pitch.

use vstd::prelude::*;

use crate::notes::{Octave, Tone, ToneModifiers, MAX_SEMITONES};

verus! {

/// The rising major scale from a starting pitch, one pitch at a time, until
/// it leaves the keyboard.
pub struct MajorScale {
    current: u32,
    iter: u32,
}

impl MajorScale {
    #[verifier::type_invariant]
    spec fn in_range(self) -> bool {
        self.current <= MAX_SEMITONES && self.iter <= 7
    }

    /// The semitone index of the pitch given last, or of the starting pitch
    /// before any was given.
    pub closed spec fn current(&self) -> nat {
        self.current as nat
    }

    /// The degree of the scale that comes next: `0` for the starting pitch,
    /// then `1` to `7` over and over, `7` being the next octave of the
    /// start.
    pub closed spec fn degree(&self) -> nat {
        self.iter as nat
    }

    /// Whether a major scale starts on the pitch as spelled: on a plain C,
    /// G, D, A, E or B, on F sharp or G flat, on C sharp or D flat.
    pub open spec fn starts_scale(start: Tone) -> bool {
        match (start.octave, start.modifiers) {
            (Octave::C, None) => true,
            (Octave::G, None) => true,
            (Octave::D, None) => true,
            (Octave::A, None) => true,
            (Octave::E, None) => true,
            (Octave::B, None) => true,
            (Octave::F, Some(ToneModifiers::Sharp)) => true,
            (Octave::G, Some(ToneModifiers::Flat)) => true,
            (Octave::C, Some(ToneModifiers::Sharp)) => true,
            (Octave::D, Some(ToneModifiers::Flat)) => true,
            _ => false,
        }
    }

    /// The semitones from one pitch of the scale up to the pitch of the
    /// given degree: none to the start, a half step to the fourth and the
    /// eighth pitch, a whole step to the others.
    pub open spec fn step(degree: nat) -> nat {
        if degree == 0 {
            0
        } else if degree == 3 || degree == 7 {
            1
        } else {
            2
        }
    }

    /// The degree after the given one: after the seventh, the first again.
    pub open spec fn following(degree: nat) -> nat {
        if degree == 7 {
            1
        } else {
            degree + 1
        }
    }

    /// The major scale from the starting pitch, if one starts there.
    pub fn new(start: Tone) -> (res: Option<Self>)
        ensures
            res is Some <==> Self::starts_scale(start),
            res matches Some(scale) ==> scale.current() == start.semitones() && scale.degree() == 0,
    {
        let starts: bool = match (start.octave, start.modifiers) {
            (Octave::C, None) => true,
            (Octave::G, None) => true,
            (Octave::D, None) => true,
            (Octave::A, None) => true,
            (Octave::E, None) => true,
            (Octave::B, None) => true,
            (Octave::F, Some(ToneModifiers::Sharp)) => true,
            (Octave::G, Some(ToneModifiers::Flat)) => true,
            (Octave::C, Some(ToneModifiers::Sharp)) => true,
            (Octave::D, Some(ToneModifiers::Flat)) => true,
            _ => false,
        };
        if starts {
            Some(Self { current: start.get_semitones_since_c0(), iter: 0 })
        } else {
            None
        }
    }

    /// The next pitch of the scale, in its canonical spelling.
    ///
    /// The first pitch is the start itself. Once a pitch would lie above the
    /// highest key the scale has ended: `None` comes back, now and at every
    /// later call, and the scale stays as it is.
    pub fn next(&mut self) -> (res: Option<Tone>)
        ensures
            res == Tone::from_semitones(old(self).current() + Self::step(old(self).degree())),
            res is Some ==> final(self).current() == old(self).current() + Self::step(
                old(self).degree(),
            ) && final(self).degree() == Self::following(old(self).degree()),
            res is None ==> final(self).current() == old(self).current() && final(self).degree()
                == old(self).degree(),
    {
        proof {
            use_type_invariant(&*self);
        }
        let mut num: u32 = self.current;
        match self.iter {
            0 => {},
            3 | 7 => num += 1,
            _ => num += 2,
        }
        if num > MAX_SEMITONES {
            return None;
        }
        let mut iter: u32 = self.iter + 1;
        if iter == 8 {
            iter = 1;
        }
        self.iter = iter;
        self.current = num;
        Tone::from_semitones_since_c0(num)
    }
}

} // verus!
