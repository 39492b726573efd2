//! Instruments and voices decoded from SBI files. The caller reads the
//! files; decoding the bytes, and everything after it, is done here.

use vstd::prelude::*;

use crate::bytes::subvec;

verus! {

/// A decoded SBI file is refused when it does not start with the SBI
/// magic bytes.
pub enum GenmidiError {
    BadHeader,
}

/// The four magic bytes that open an SBI file.
pub open spec fn sbi_header() -> Seq<u8> {
    seq![83u8, 66u8, 73u8, 26u8]
}

/// One OPL voice: the register values and the instrument name, as read from
/// an SBI file.
#[derive(Debug, Clone)]
pub struct Voice {
    pub m_am_vibrato_eg: u8,
    pub c_am_vibrato_eg: u8,
    pub m_ksl_volume: u8,
    pub c_ksl_volume: u8,
    pub m_attack_decay: u8,
    pub c_attack_decay: u8,
    pub m_sustain_release: u8,
    pub c_sustain_release: u8,
    pub m_waveform: u8,
    pub c_waveform: u8,
    pub feedback_fm: u8,
    pub name: Vec<u8>,
}

/// The voice `v` is the decoding of the SBI file bytes `data`: the name is
/// bytes 4 to 35 and the register values follow in the file's field order.
pub open spec fn voice_matches(v: Voice, data: Seq<u8>) -> bool {
    &&& v.name@ == data.subrange(4, 36)
    &&& v.m_am_vibrato_eg == data[36]
    &&& v.c_am_vibrato_eg == data[37]
    &&& v.m_ksl_volume == data[38]
    &&& v.c_ksl_volume == data[39]
    &&& v.m_attack_decay == data[40]
    &&& v.c_attack_decay == data[41]
    &&& v.m_sustain_release == data[42]
    &&& v.c_sustain_release == data[43]
    &&& v.m_waveform == data[44]
    &&& v.c_waveform == data[45]
    &&& v.feedback_fm == data[46]
}

impl Voice {
    /// Decodes one SBI file: checks the magic bytes, then takes the name
    /// and the register fields. The file must be long enough to hold them.
    pub fn load(data: &Vec<u8>) -> (r: Result<Voice, GenmidiError>)
        requires
            data@.len() >= 47,
        ensures
            match r {
                Ok(v) => voice_matches(v, data@) && data@.subrange(0, 4) == sbi_header(),
                Err(e) => data@.subrange(0, 4) != sbi_header(),
            },
    {
        if !(data[0] == 83 && data[1] == 66 && data[2] == 73 && data[3] == 26) {
            assert(data@.subrange(0, 4) != sbi_header()) by {
                assert(data@.subrange(0, 4)[0] == data@[0]);
                assert(data@.subrange(0, 4)[1] == data@[1]);
                assert(data@.subrange(0, 4)[2] == data@[2]);
                assert(data@.subrange(0, 4)[3] == data@[3]);
            }
            return Err(GenmidiError::BadHeader);
        }
        assert(data@.subrange(0, 4) =~= sbi_header());
        let name = subvec(data, 4, 36);
        Ok(
            Voice {
                m_am_vibrato_eg: data[36],
                c_am_vibrato_eg: data[37],
                m_ksl_volume: data[38],
                c_ksl_volume: data[39],
                m_attack_decay: data[40],
                c_attack_decay: data[41],
                m_sustain_release: data[42],
                c_sustain_release: data[43],
                m_waveform: data[44],
                c_waveform: data[45],
                feedback_fm: data[46],
                name,
            },
        )
    }
}

/// A MIDI instrument: one or two voices, their note offsets, and a fixed
/// octave note for percussion.
#[derive(Debug, Clone)]
pub struct Instrument {
    pub voice1: Voice,
    pub voice2: Option<Voice>,
    pub off1: isize,
    pub off2: isize,
    pub octave: Option<u8>,
}

impl Instrument {
    /// Decodes an instrument from the bytes of one SBI file and, for a
    /// two-voice instrument, a second one. Fails exactly when a file lacks
    /// the SBI magic bytes.
    pub fn load(
        d1: &Vec<u8>,
        d2: Option<&Vec<u8>>,
        off1: isize,
        off2: isize,
        octave: Option<u8>,
    ) -> (r: Result<Instrument, GenmidiError>)
        requires
            d1@.len() >= 47,
            match d2 {
                Some(d) => d@.len() >= 47,
                None => true,
            },
        ensures
            match r {
                Ok(ins) => {
                    &&& voice_matches(ins.voice1, d1@)
                    &&& d1@.subrange(0, 4) == sbi_header()
                    &&& ins.off1 == off1
                    &&& ins.off2 == off2
                    &&& ins.octave == octave
                    &&& match (ins.voice2, d2) {
                        (Some(v), Some(d)) => voice_matches(v, d@) && d@.subrange(0, 4)
                            == sbi_header(),
                        (None, None) => true,
                        _ => false,
                    }
                },
                Err(e) => d1@.subrange(0, 4) != sbi_header() || (match d2 {
                    Some(d) => d@.subrange(0, 4) != sbi_header(),
                    None => false,
                }),
            },
    {
        let voice1 = match Voice::load(d1) {
            Ok(v) => v,
            Err(e) => {
                return Err(e);
            },
        };
        let voice2 = match d2 {
            Some(d) => match Voice::load(d) {
                Ok(v) => Some(v),
                Err(e) => {
                    return Err(e);
                },
            },
            None => None,
        };
        Ok(Instrument { voice1, voice2, off1, off2, octave })
    }

    /// The first voice.
    pub fn voice1(&self) -> (r: &Voice)
        ensures
            *r == self.voice1,
    {
        &self.voice1
    }

    /// The second voice, for two-voice instruments.
    pub fn voice2(&self) -> (r: Option<&Voice>)
        ensures
            match r {
                Some(v) => self.voice2 is Some && *v == self.voice2->0,
                None => self.voice2 is None,
            },
    {
        self.voice2.as_ref()
    }

    /// The first voice's note offset.
    pub fn offset1(&self) -> (r: isize)
        ensures
            r == self.off1,
    {
        self.off1
    }

    /// The second voice's note offset.
    pub fn offset2(&self) -> (r: isize)
        ensures
            r == self.off2,
    {
        self.off2
    }

    /// The fixed note, for percussion instruments.
    pub fn octave(&self) -> (r: Option<u8>)
        ensures
            r == self.octave,
    {
        self.octave
    }
}

} // verus!
