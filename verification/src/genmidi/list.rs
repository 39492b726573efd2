//! The fixed tables naming which SBI file each general-MIDI instrument and
//! percussion key is decoded from, with its note offset or fixed note. The
//! caller turns each entry into file reads and hands the bytes to the
//! instrument decoder.

use vstd::prelude::*;

use crate::genmidi::midi::Octave;

verus! {

/// Which SBI file (or pair of files) an entry is decoded from.
#[derive(PartialEq, Eq, Structural, Debug, Clone, Copy)]
pub enum SbiFile {
    /// `instrNNN.sbi` for the given one-based program number.
    Melodic(u16),
    /// `instrNNN.sbi` and `instrNNN-2.sbi`: a two-voice instrument.
    MelodicPair(u16),
    /// `percNN.sbi` for the given percussion key.
    Percussion(u16),
    /// The placeholder file `dummy.sbi`.
    Dummy,
}

/// One table entry: the file to decode, the first and second voice note
/// offsets, and the fixed note of a percussion entry.
#[derive(PartialEq, Eq, Structural, Debug, Clone, Copy)]
pub struct InstrumentSpec {
    pub file: SbiFile,
    pub off1: isize,
    pub off2: isize,
    pub note: Option<u8>,
}

/// Entry `i` of the melodic table: programs 1 to 128 in order; programs 4
/// and 5 are two-voice, and a handful keep their pitch while the rest drop
/// an octave.
pub open spec fn melodic_entry(i: int) -> InstrumentSpec {
    InstrumentSpec {
        file: if i == 3 || i == 4 {
            SbiFile::MelodicPair((i + 1) as u16)
        } else {
            SbiFile::Melodic((i + 1) as u16)
        },
        off1: if i == 0 || i == 1 || i == 2 || i == 3 || i == 4 || i == 6 || i == 81 {
            0isize
        } else {
            -12isize
        },
        off2: 0isize,
        note: None,
    }
}

/// The fixed note of percussion key `k`, for the keys that have their own
/// sample; the rest are placeholders.
pub open spec fn percussion_note(k: int) -> Option<u8> {
    if k == 35 || k == 36 {
        Some(21u8)
    } else if k == 37 || k == 49 || k == 52 {
        Some(48u8)
    } else if k == 38 || k == 43 {
        Some(32u8)
    } else if k == 39 {
        Some(96u8)
    } else if k == 40 || k == 50 {
        Some(49u8)
    } else if k == 41 {
        Some(26u8)
    } else if k == 42 || k == 44 || k == 46 {
        Some(80u8)
    } else if k == 45 {
        Some(36u8)
    } else if k == 47 {
        Some(42u8)
    } else if k == 48 {
        Some(45u8)
    } else if k == 51 {
        Some(59u8)
    } else if k == 53 {
        Some(76u8)
    } else if k == 54 || k == 59 {
        Some(64u8)
    } else if k == 57 {
        Some(58u8)
    } else if 70 <= k <= 81 {
        Some(4u8)
    } else {
        None
    }
}

/// Entry for percussion key `k`: its own sample with a fixed note, or the
/// placeholder file.
pub open spec fn percussion_entry(k: int) -> InstrumentSpec {
    match percussion_note(k) {
        Some(n) => InstrumentSpec {
            file: SbiFile::Percussion(k as u16),
            off1: 0isize,
            off2: 0isize,
            note: Some(n),
        },
        None => InstrumentSpec { file: SbiFile::Dummy, off1: 0isize, off2: 0isize, note: None },
    }
}

/// The 128 melodic instrument entries, one per general-MIDI program, in
/// program order.
pub fn iter_instruments() -> (r: Vec<InstrumentSpec>)
    ensures
        r@.len() == 128,
        forall|i: int| 0 <= i < 128 ==> r@[i] == melodic_entry(i),
{
    let mut r: Vec<InstrumentSpec> = Vec::new();
    let mut i: usize = 0;
    while i < 128
        invariant
            i <= 128,
            r@.len() == i,
            forall|k: int| 0 <= k < i ==> r@[k] == melodic_entry(k),
        decreases 128 - i,
    {
        let file = if i == 3 || i == 4 {
            SbiFile::MelodicPair((i + 1) as u16)
        } else {
            SbiFile::Melodic((i + 1) as u16)
        };
        let off1: isize = if i == 0 || i == 1 || i == 2 || i == 3 || i == 4 || i == 6 || i == 81 {
            0
        } else {
            -12
        };
        r.push(InstrumentSpec { file, off1, off2: 0, note: None });
        i = i + 1;
    }
    r
}

/// A percussion entry with its own sample and fixed note.
fn perc(key: u16, note: u8) -> (r: InstrumentSpec)
    ensures
        r == (InstrumentSpec {
            file: SbiFile::Percussion(key),
            off1: 0,
            off2: 0,
            note: Some(note),
        }),
{
    InstrumentSpec { file: SbiFile::Percussion(key), off1: 0, off2: 0, note: Some(note) }
}

/// A placeholder percussion entry.
fn perc_dummy() -> (r: InstrumentSpec)
    ensures
        r == (InstrumentSpec { file: SbiFile::Dummy, off1: 0, off2: 0, note: None }),
{
    InstrumentSpec { file: SbiFile::Dummy, off1: 0, off2: 0, note: None }
}

/// The 47 percussion entries, for keys 35 to 81 in order. The fixed notes
/// are spelled through the octave table, as the sample list names them.
pub fn iter_percussion() -> (r: Vec<InstrumentSpec>)
    ensures
        r@.len() == 47,
        forall|k: int| 35 <= k <= 81 ==> r@[k - 35] == percussion_entry(k),
{
    let on5 = Octave::new(0);
    let on4 = Octave::new(12);
    let on3 = Octave::new(24);
    let on2 = Octave::new(36);
    let on1 = Octave::new(48);
    let o0 = Octave::new(60);
    let o1 = Octave::new(72);
    let o3 = Octave::new(96);

    let mut r: Vec<InstrumentSpec> = Vec::new();
    r.push(perc(35, on4.a()));
    r.push(perc(36, on4.a()));
    r.push(perc(37, on1.c()));
    r.push(perc(38, on3.gs()));
    r.push(perc(39, o3.c()));
    r.push(perc(40, on1.cs()));
    r.push(perc(41, on3.d()));
    r.push(perc(42, o1.gs()));
    r.push(perc(43, on3.gs()));
    r.push(perc(44, o1.gs()));
    r.push(perc(45, on2.c()));
    r.push(perc(46, o1.gs()));
    r.push(perc(47, on2.fs()));
    r.push(perc(48, on2.a()));
    r.push(perc(49, on1.c()));
    r.push(perc(50, on1.cs()));
    r.push(perc(51, on1.b()));
    r.push(perc(52, on1.c()));
    r.push(perc(53, o1.e()));
    r.push(perc(54, o0.e()));
    r.push(perc_dummy());
    r.push(perc_dummy());
    r.push(perc(57, on1.asharp()));
    r.push(perc_dummy());
    r.push(perc(59, o0.e()));
    let mut k: usize = 60;
    while k < 70
        invariant
            60 <= k <= 70,
            r@.len() == k - 35,
            forall|j: int| 35 <= j < k ==> r@[j - 35] == percussion_entry(j),
        decreases 70 - k,
    {
        r.push(perc_dummy());
        k = k + 1;
    }
    let mut k: usize = 70;
    while k < 82
        invariant
            70 <= k <= 82,
            on5.inner@.len() == 17,
            on5.inner@[6] == 4,
            r@.len() == k - 35,
            forall|j: int| 35 <= j < k ==> r@[j - 35] == percussion_entry(j),
        decreases 82 - k,
    {
        r.push(perc(k as u16, on5.e()));
        k = k + 1;
    }
    r
}

} // verus!
