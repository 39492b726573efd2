//! The GENMIDI lump encoder: OPL instrument records for MIDI emulation,
//! decoded from SBI files and encoded into the lump's fixed record format.

pub mod instrument;
pub mod list;
pub mod midi;

use vstd::prelude::*;

use crate::bytes::{le16i, push_le16i};
use crate::genmidi::instrument::{Instrument, Voice};

verus! {

/// The eight magic bytes that open the GENMIDI lump.
pub open spec fn genmidi_header() -> Seq<u8> {
    seq![35u8, 79u8, 80u8, 76u8, 95u8, 73u8, 73u8, 35u8]
}

/// The sixteen bytes of one encoded voice: the modulator and carrier
/// registers, the key-scale and volume halves of the level byte split
/// apart, a zero byte, and the note offset.
pub open spec fn voice_bytes(v: Voice, offset: i16) -> Seq<u8> {
    seq![
        v.m_am_vibrato_eg,
        v.m_attack_decay,
        v.m_sustain_release,
        v.m_waveform,
        v.m_ksl_volume & 0xC0,
        v.m_ksl_volume & 0x3F,
        v.feedback_fm,
        v.c_am_vibrato_eg,
        v.c_attack_decay,
        v.c_sustain_release,
        v.c_waveform,
        v.c_ksl_volume & 0xC0,
        v.c_ksl_volume & 0x3F,
        0u8,
    ] + le16i(offset)
}

/// The record flags of an instrument: bit two for a second voice, bit zero
/// for a fixed pitch.
pub open spec fn instrument_flags(ins: Instrument) -> i16 {
    ((if ins.voice2 is Some {
        4i16
    } else {
        0i16
    }) + (if ins.octave is Some {
        1i16
    } else {
        0i16
    })) as i16
}

/// One whole instrument record: flags, a tuning byte of 128, the fixed
/// note, then two encoded voices; a single-voice instrument carries the
/// null instrument's first voice with offset zero in the second slot.
pub open spec fn instrument_bytes(ins: Instrument, null_voice: Voice) -> Seq<u8> {
    le16i(instrument_flags(ins)) + seq![
        128u8,
        (match ins.octave {
            Some(o) => o,
            None => 0,
        }),
    ] + voice_bytes(ins.voice1, ins.off1 as i16) + (match ins.voice2 {
        Some(v) => voice_bytes(v, ins.off2 as i16),
        None => voice_bytes(null_voice, 0),
    })
}

/// A 32-byte instrument name: zero-padded on the right, truncated if
/// longer.
pub open spec fn name32(name: Seq<u8>) -> Seq<u8> {
    Seq::new(32, |i: int| if i < name.len() { name[i] } else { 0 })
}

/// The concatenated records of the first `i` instruments.
pub open spec fn instrument_records(instruments: Seq<Instrument>, null_voice: Voice, i: int) -> Seq<
    u8,
>
    decreases i,
{
    if i <= 0 {
        Seq::empty()
    } else {
        instrument_records(instruments, null_voice, i - 1) + instrument_bytes(
            instruments[i - 1],
            null_voice,
        )
    }
}

/// The concatenated 32-byte names of the first `i` instruments, taken from
/// each first voice.
pub open spec fn instrument_names(instruments: Seq<Instrument>, i: int) -> Seq<u8>
    decreases i,
{
    if i <= 0 {
        Seq::empty()
    } else {
        instrument_names(instruments, i - 1) + name32(instruments[i - 1].voice1.name@)
    }
}

/// The whole GENMIDI lump: the header, every instrument record, then every
/// instrument name.
pub open spec fn genmidi_lump(instruments: Seq<Instrument>, null_voice: Voice) -> Seq<u8> {
    genmidi_header() + instrument_records(instruments, null_voice, instruments.len() as int)
        + instrument_names(instruments, instruments.len() as int)
}

/// An instrument's note offsets fit the record's 16-bit fields.
pub open spec fn offsets_encodable(ins: Instrument) -> bool {
    &&& -0x8000 <= ins.off1 <= 0x7FFF
    &&& -0x8000 <= ins.off2 <= 0x7FFF
}

/// Appends the sixteen bytes of one voice.
pub fn encode_voice(out: &mut Vec<u8>, v: &Voice, offset: i16)
    ensures
        final(out)@ == old(out)@ + voice_bytes(*v, offset),
{
    out.push(v.m_am_vibrato_eg);
    out.push(v.m_attack_decay);
    out.push(v.m_sustain_release);
    out.push(v.m_waveform);
    out.push(v.m_ksl_volume & 0xC0);
    out.push(v.m_ksl_volume & 0x3F);
    out.push(v.feedback_fm);
    out.push(v.c_am_vibrato_eg);
    out.push(v.c_attack_decay);
    out.push(v.c_sustain_release);
    out.push(v.c_waveform);
    out.push(v.c_ksl_volume & 0xC0);
    out.push(v.c_ksl_volume & 0x3F);
    out.push(0);
    push_le16i(out, offset);
    assert(out@ =~= old(out)@ + voice_bytes(*v, offset));
}

/// Appends one whole instrument record.
pub fn encode_instrument(out: &mut Vec<u8>, instrument: &Instrument, null_voice: &Voice)
    requires
        offsets_encodable(*instrument),
    ensures
        final(out)@ == old(out)@ + instrument_bytes(*instrument, *null_voice),
{
    let mut flags: i16 = 0;
    if instrument.voice2.is_some() {
        flags = flags + 0x0004;
    }
    if instrument.octave.is_some() {
        flags = flags + 0x0001;
    }
    assert(flags == instrument_flags(*instrument));
    push_le16i(out, flags);
    out.push(128);
    let octave_byte: u8 = match instrument.octave {
        Some(o) => o,
        None => 0,
    };
    out.push(octave_byte);
    encode_voice(out, &instrument.voice1, instrument.off1 as i16);
    match &instrument.voice2 {
        Some(v2) => {
            encode_voice(out, v2, instrument.off2 as i16);
        },
        None => {
            encode_voice(out, null_voice, 0);
        },
    }
    assert(out@ =~= old(out)@ + instrument_bytes(*instrument, *null_voice));
}

/// Appends a 32-byte zero-padded instrument name.
pub fn push_name32(out: &mut Vec<u8>, name: &Vec<u8>)
    ensures
        final(out)@ == old(out)@ + name32(name@),
{
    let mut i: usize = 0;
    while i < 32
        invariant
            i <= 32,
            out@ == old(out)@ + name32(name@).take(i as int),
        decreases 32 - i,
    {
        let b: u8 = if i < name.len() {
            name[i]
        } else {
            0
        };
        assert(b == name32(name@)[i as int]);
        out.push(b);
        assert(out@ =~= old(out)@ + name32(name@).take(i + 1));
        i = i + 1;
    }
    assert(name32(name@).take(32) =~= name32(name@));
}

/// Encodes the whole GENMIDI lump from the decoded instruments; the null
/// instrument's first voice fills the second slot of single-voice records.
pub fn generate_genmidi(instruments: &Vec<Instrument>, null_instrument: &Instrument) -> (out: Vec<
    u8,
>)
    requires
        forall|i: int|
            0 <= i < instruments@.len() ==> offsets_encodable(#[trigger] instruments@[i]),
    ensures
        out@ == genmidi_lump(instruments@, null_instrument.voice1),
{
    let mut out: Vec<u8> = Vec::new();
    out.push(35);
    out.push(79);
    out.push(80);
    out.push(76);
    out.push(95);
    out.push(73);
    out.push(73);
    out.push(35);
    assert(out@ =~= genmidi_header());
    let null_voice = &null_instrument.voice1;
    let mut i: usize = 0;
    while i < instruments.len()
        invariant
            forall|k: int|
                0 <= k < instruments@.len() ==> offsets_encodable(#[trigger] instruments@[k]),
            *null_voice == null_instrument.voice1,
            i <= instruments@.len(),
            out@ == genmidi_header() + instrument_records(
                instruments@,
                null_instrument.voice1,
                i as int,
            ),
        decreases instruments@.len() - i,
    {
        encode_instrument(&mut out, &instruments[i], null_voice);
        assert(out@ =~= genmidi_header() + instrument_records(
            instruments@,
            null_instrument.voice1,
            i + 1,
        ));
        i = i + 1;
    }
    let ghost mid = genmidi_header() + instrument_records(
        instruments@,
        null_instrument.voice1,
        instruments@.len() as int,
    );
    let mut i: usize = 0;
    while i < instruments.len()
        invariant
            mid == genmidi_header() + instrument_records(
                instruments@,
                null_instrument.voice1,
                instruments@.len() as int,
            ),
            i <= instruments@.len(),
            out@ == mid + instrument_names(instruments@, i as int),
        decreases instruments@.len() - i,
    {
        push_name32(&mut out, &instruments[i].voice1.name);
        assert(out@ =~= mid + instrument_names(instruments@, i + 1));
        i = i + 1;
    }
    out
}

} // verus!
