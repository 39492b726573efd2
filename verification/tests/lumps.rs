use klamath_util::textures::lumps::{Pnames, Texture1};
use klamath_util::textures::types::{Patch, TexPatch, Texture};

#[test]
fn pnames_add_name_returns_record_positions() {
    let mut table = Pnames::new();
    assert_eq!(table.add_name(&b"first".to_vec()), 0);
    assert_eq!(table.add_name(&b"second78x".to_vec()), 1);
    assert_eq!(table.add_name(&b"".to_vec()), 2);
    let lump = table.write();
    let mut expect = vec![3u8, 0, 0, 0];
    expect.extend_from_slice(b"FIRST\0\0\0");
    expect.extend_from_slice(b"SECOND78"); // cut to eight bytes
    expect.extend_from_slice(b"\0\0\0\0\0\0\0\0");
    assert_eq!(lump, expect);
}

#[test]
fn texture1_encodes_records_behind_their_offsets() {
    let patches = vec![
        Patch { name: b"A".to_vec(), mat: 0, transforms: vec![], index: 0 },
        Patch { name: b"B".to_vec(), mat: 0, transforms: vec![], index: 1 },
    ];
    let tex_a = Texture {
        name: b"one".to_vec(),
        width: 16,
        height: 16,
        patches: vec![TexPatch { patch: 1, x: 3, y: -3 }],
        hscale: None,
        vscale: None,
    };
    let tex_b = Texture {
        name: b"two".to_vec(),
        width: 8,
        height: 8,
        patches: vec![],
        hscale: Some(24),
        vscale: Some(8),
    };
    let mut t1 = Texture1::new();
    t1.push_texture(&tex_a, &patches);
    t1.push_texture(&tex_b, &patches);
    let lump = t1.write();

    assert_eq!(&lump[0..4], &[2, 0, 0, 0]);
    let off0 = u32::from_le_bytes(lump[4..8].try_into().unwrap()) as usize;
    let off1 = u32::from_le_bytes(lump[8..12].try_into().unwrap()) as usize;
    assert_eq!(off0, 12);
    assert_eq!(off1, 12 + 32);
    assert_eq!(lump.len(), 12 + 32 + 22);

    // first record: upper-cased name, one placement referencing patch 1
    assert_eq!(&lump[off0..off0 + 8], b"ONE\0\0\0\0\0");
    assert_eq!(&lump[off0 + 22..off0 + 32], &[3, 0, 0xFD, 0xFF, 1, 0, 0, 0, 0, 0]);
    // second record: declared scale bytes, no placements
    assert_eq!(&lump[off1 + 10..off1 + 12], &[24, 8]);
    assert_eq!(&lump[off1 + 20..off1 + 22], &[0, 0]);
}
