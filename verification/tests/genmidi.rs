use klamath_util::genmidi::instrument::{GenmidiError, Instrument, Voice};
use klamath_util::genmidi::list::{iter_instruments, iter_percussion, InstrumentSpec, SbiFile};
use klamath_util::genmidi::midi::Octave;
use klamath_util::genmidi::{encode_instrument, encode_voice, generate_genmidi};

fn sbi_bytes(name: &[u8], fields: [u8; 11]) -> Vec<u8> {
    let mut data = b"SBI\x1A".to_vec();
    let mut padded = name.to_vec();
    padded.resize(32, 0);
    data.extend_from_slice(&padded);
    data.extend_from_slice(&fields);
    data
}

#[test]
fn voice_load_reads_name_and_fields() {
    let data = sbi_bytes(b"PIANO", [1, 2, 3, 4, 5, 6, 7, 8, 9, 10, 11]);
    let v = Voice::load(&data).ok().expect("valid header");
    let mut expect_name = b"PIANO".to_vec();
    expect_name.resize(32, 0);
    assert_eq!(v.name, expect_name);
    assert_eq!(v.m_am_vibrato_eg, 1);
    assert_eq!(v.c_am_vibrato_eg, 2);
    assert_eq!(v.m_ksl_volume, 3);
    assert_eq!(v.c_ksl_volume, 4);
    assert_eq!(v.m_attack_decay, 5);
    assert_eq!(v.c_attack_decay, 6);
    assert_eq!(v.m_sustain_release, 7);
    assert_eq!(v.c_sustain_release, 8);
    assert_eq!(v.m_waveform, 9);
    assert_eq!(v.c_waveform, 10);
    assert_eq!(v.feedback_fm, 11);
}

#[test]
fn voice_load_rejects_bad_header() {
    let mut data = sbi_bytes(b"PIANO", [0; 11]);
    data[0] = b'X';
    assert!(matches!(Voice::load(&data), Err(GenmidiError::BadHeader)));
}

#[test]
fn instrument_load_pairs_two_voices() {
    let d1 = sbi_bytes(b"A", [0; 11]);
    let d2 = sbi_bytes(b"B", [0; 11]);
    let ins = Instrument::load(&d1, Some(&d2), -12, 3, Some(60)).ok().expect("valid");
    assert_eq!(ins.off1, -12);
    assert_eq!(ins.off2, 3);
    assert_eq!(ins.octave, Some(60));
    assert!(ins.voice2.is_some());
    assert_eq!(ins.voice2().unwrap().name[0], b'B');
    assert_eq!(ins.voice1().name[0], b'A');
    assert_eq!(ins.offset1(), -12);
    assert_eq!(ins.offset2(), 3);
    assert_eq!(ins.octave(), Some(60));
}

#[test]
fn encode_voice_splits_level_byte_and_appends_offset() {
    let data = sbi_bytes(b"V", [1, 2, 0xEA, 4, 5, 6, 7, 8, 9, 10, 11]);
    let v = Voice::load(&data).ok().expect("valid");
    let mut out = Vec::new();
    encode_voice(&mut out, &v, -2);
    assert_eq!(
        out,
        vec![
            1,    // m_am_vibrato_eg
            5,    // m_attack_decay
            7,    // m_sustain_release
            9,    // m_waveform
            0xC0, // key-scale half of 0xEA
            0x2A, // volume half of 0xEA
            11,   // feedback_fm
            2, 6, 8, 10, // carrier registers
            4 & 0xC0,
            4 & 0x3F,
            0,    // reserved
            0xFE, 0xFF, // offset -2
        ]
    );
}

#[test]
fn encode_instrument_flags_and_null_second_voice() {
    let d1 = sbi_bytes(b"A", [0; 11]);
    let ins = Instrument::load(&d1, None, 0, 0, Some(42)).ok().expect("valid");
    let null = Instrument::load(&sbi_bytes(b"N", [0; 11]), None, 0, 0, None).ok().unwrap();
    let mut out = Vec::new();
    encode_instrument(&mut out, &ins, &null.voice1);
    // fixed pitch only: flags = 1; tuning byte 128; note 42
    assert_eq!(&out[0..4], &[1, 0, 128, 42]);
    assert_eq!(out.len(), 4 + 16 + 16);
}

#[test]
fn generate_genmidi_header_records_and_names() {
    let d1 = sbi_bytes(b"LEAD", [0; 11]);
    let ins = Instrument::load(&d1, None, 0, 0, None).ok().unwrap();
    let null = Instrument::load(&sbi_bytes(b"NULL", [0; 11]), None, 0, 0, None).ok().unwrap();
    let lump = generate_genmidi(&vec![ins], &null);
    assert_eq!(&lump[0..8], b"#OPL_II#");
    // one record of 36 bytes, then one 32-byte name
    assert_eq!(lump.len(), 8 + 36 + 32);
    assert_eq!(&lump[8..10], &[0, 0]); // single voice, no fixed pitch
    let mut expect_name = b"LEAD".to_vec();
    expect_name.resize(32, 0);
    assert_eq!(&lump[8 + 36..], &expect_name[..]);
}

#[test]
fn octave_notes_step_up_from_base() {
    let o = Octave::new(60);
    assert_eq!(o.c(), 60);
    assert_eq!(o.cs(), 61);
    assert_eq!(o.db(), 61);
    assert_eq!(o.d(), 62);
    assert_eq!(o.ds(), 63);
    assert_eq!(o.eb(), 63);
    assert_eq!(o.e(), 64);
    assert_eq!(o.f(), 65);
    assert_eq!(o.fs(), 66);
    assert_eq!(o.gb(), 66);
    assert_eq!(o.g(), 67);
    assert_eq!(o.gs(), 68);
    assert_eq!(o.ab(), 68);
    assert_eq!(o.a(), 69);
    assert_eq!(o.asharp(), 70);
    assert_eq!(o.bd(), 70);
    assert_eq!(o.b(), 71);
}

#[test]
fn melodic_table_shape() {
    let t = iter_instruments();
    assert_eq!(t.len(), 128);
    assert_eq!(
        t[0],
        InstrumentSpec { file: SbiFile::Melodic(1), off1: 0, off2: 0, note: None }
    );
    assert_eq!(
        t[3],
        InstrumentSpec { file: SbiFile::MelodicPair(4), off1: 0, off2: 0, note: None }
    );
    assert_eq!(
        t[5],
        InstrumentSpec { file: SbiFile::Melodic(6), off1: -12, off2: 0, note: None }
    );
    assert_eq!(
        t[81],
        InstrumentSpec { file: SbiFile::Melodic(82), off1: 0, off2: 0, note: None }
    );
    assert_eq!(
        t[127],
        InstrumentSpec { file: SbiFile::Melodic(128), off1: -12, off2: 0, note: None }
    );
}

#[test]
fn percussion_table_shape() {
    let t = iter_percussion();
    assert_eq!(t.len(), 47);
    // key 35: bass drum at the a below middle c octaves
    assert_eq!(
        t[0],
        InstrumentSpec { file: SbiFile::Percussion(35), off1: 0, off2: 0, note: Some(21) }
    );
    // key 55: a placeholder
    assert_eq!(
        t[55 - 35],
        InstrumentSpec { file: SbiFile::Dummy, off1: 0, off2: 0, note: None }
    );
    // key 57: crash cymbal
    assert_eq!(
        t[57 - 35],
        InstrumentSpec { file: SbiFile::Percussion(57), off1: 0, off2: 0, note: Some(58) }
    );
    // keys 70 to 81 share one high note
    assert_eq!(
        t[70 - 35],
        InstrumentSpec { file: SbiFile::Percussion(70), off1: 0, off2: 0, note: Some(4) }
    );
    assert_eq!(
        t[81 - 35],
        InstrumentSpec { file: SbiFile::Percussion(81), off1: 0, off2: 0, note: Some(4) }
    );
}
