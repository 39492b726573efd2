use klamath_util::bootstrap::bootstrap_wad;

#[test]
fn bootstrap_wad_layout() {
    let playpal = vec![0xABu8, 0xCD];
    let wad = bootstrap_wad(&playpal);

    let mut expect = b"IWAD".to_vec();
    expect.extend_from_slice(&3u32.to_le_bytes()); // lump count
    expect.extend_from_slice(&30u32.to_le_bytes()); // directory position: 12 + 2 + 4 + 12
    expect.extend_from_slice(&[0xAB, 0xCD]); // the palette lump
    expect.extend_from_slice(&[0, 0, 0, 0]); // empty TEXTURE1
    expect.extend_from_slice(&[1, 0, 0, 0, 0, 0, 0, 0, 0, 0, 0, 0]); // one-entry PNAMES
    expect.extend_from_slice(&12u32.to_le_bytes());
    expect.extend_from_slice(&2u32.to_le_bytes());
    expect.extend_from_slice(b"PLAYPAL\0");
    expect.extend_from_slice(&14u32.to_le_bytes());
    expect.extend_from_slice(&4u32.to_le_bytes());
    expect.extend_from_slice(b"TEXTURE1");
    expect.extend_from_slice(&18u32.to_le_bytes());
    expect.extend_from_slice(&12u32.to_le_bytes());
    expect.extend_from_slice(b"PNAMES\0\0");

    assert_eq!(wad, expect);
}

#[test]
fn bootstrap_wad_empty_palette() {
    let wad = bootstrap_wad(&vec![]);
    assert_eq!(&wad[0..4], b"IWAD");
    assert_eq!(u32::from_le_bytes(wad[8..12].try_into().unwrap()), 28);
    // directory entry of the palette lump: position 12, length 0
    let dir = &wad[12 + 0 + 4 + 12..];
    assert_eq!(u32::from_le_bytes(dir[0..4].try_into().unwrap()), 12);
    assert_eq!(u32::from_le_bytes(dir[4..8].try_into().unwrap()), 0);
}
