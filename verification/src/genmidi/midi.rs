//! MIDI note numbers, arranged as one octave built over a base note.

use vstd::prelude::*;

verus! {

/// The seventeen note names of one octave (sharps and flats spelled out),
/// as MIDI note numbers over a base note.
#[derive(Copy, Clone)]
pub struct Octave {
    pub inner: [u8; 17],
}

impl Octave {
    /// Builds the octave over `base`: semitone offsets for c, cs, db, d, ds,
    /// eb, e, f, fs, gb, g, gs, ab, a, a-sharp, bd and b.
    pub fn new(base: u8) -> (r: Octave)
        requires
            base <= 244,
        ensures
            r.inner@ == seq![
                base,
                (base + 1) as u8,
                (base + 1) as u8,
                (base + 2) as u8,
                (base + 3) as u8,
                (base + 3) as u8,
                (base + 4) as u8,
                (base + 5) as u8,
                (base + 6) as u8,
                (base + 6) as u8,
                (base + 7) as u8,
                (base + 8) as u8,
                (base + 8) as u8,
                (base + 9) as u8,
                (base + 10) as u8,
                (base + 10) as u8,
                (base + 11) as u8,
            ],
    {
        let r = Octave {
            inner: [
                base,
                base + 1,
                base + 1,
                base + 2,
                base + 3,
                base + 3,
                base + 4,
                base + 5,
                base + 6,
                base + 6,
                base + 7,
                base + 8,
                base + 8,
                base + 9,
                base + 10,
                base + 10,
                base + 11,
            ],
        };
        assert(r.inner@ =~= seq![
            base,
            (base + 1) as u8,
            (base + 1) as u8,
            (base + 2) as u8,
            (base + 3) as u8,
            (base + 3) as u8,
            (base + 4) as u8,
            (base + 5) as u8,
            (base + 6) as u8,
            (base + 6) as u8,
            (base + 7) as u8,
            (base + 8) as u8,
            (base + 8) as u8,
            (base + 9) as u8,
            (base + 10) as u8,
            (base + 10) as u8,
            (base + 11) as u8,
        ]);
        r
    }

    pub fn c(self) -> (r: u8)
        ensures
            r == self.inner@[0],
    {
        self.inner[0]
    }

    pub fn cs(self) -> (r: u8)
        ensures
            r == self.inner@[1],
    {
        self.inner[1]
    }

    pub fn db(self) -> (r: u8)
        ensures
            r == self.inner@[2],
    {
        self.inner[2]
    }

    pub fn d(self) -> (r: u8)
        ensures
            r == self.inner@[3],
    {
        self.inner[3]
    }

    pub fn ds(self) -> (r: u8)
        ensures
            r == self.inner@[4],
    {
        self.inner[4]
    }

    pub fn eb(self) -> (r: u8)
        ensures
            r == self.inner@[5],
    {
        self.inner[5]
    }

    pub fn e(self) -> (r: u8)
        ensures
            r == self.inner@[6],
    {
        self.inner[6]
    }

    pub fn f(self) -> (r: u8)
        ensures
            r == self.inner@[7],
    {
        self.inner[7]
    }

    pub fn fs(self) -> (r: u8)
        ensures
            r == self.inner@[8],
    {
        self.inner[8]
    }

    pub fn gb(self) -> (r: u8)
        ensures
            r == self.inner@[9],
    {
        self.inner[9]
    }

    pub fn g(self) -> (r: u8)
        ensures
            r == self.inner@[10],
    {
        self.inner[10]
    }

    pub fn gs(self) -> (r: u8)
        ensures
            r == self.inner@[11],
    {
        self.inner[11]
    }

    pub fn ab(self) -> (r: u8)
        ensures
            r == self.inner@[12],
    {
        self.inner[12]
    }

    pub fn a(self) -> (r: u8)
        ensures
            r == self.inner@[13],
    {
        self.inner[13]
    }

    /// The note a sharp above a.
    pub fn asharp(self) -> (r: u8)
        ensures
            r == self.inner@[14],
    {
        self.inner[14]
    }

    pub fn bd(self) -> (r: u8)
        ensures
            r == self.inner@[15],
    {
        self.inner[15]
    }

    pub fn b(self) -> (r: u8)
        ensures
            r == self.inner@[16],
    {
        self.inner[16]
    }
}

} // verus!
