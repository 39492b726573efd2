use klamath_util::textures::pipeline::{process_textures, ProcessError};
use klamath_util::textures::resolve::ResolutionError;
use klamath_util::textures::types::{
    Matinfo, Patch, RawFlat, RawMaterial, RawMatinfo, RawPatch, RawTexPatch, RawTexture,
};

fn simple_raw() -> RawMatinfo {
    RawMatinfo {
        mats: vec![RawMaterial {
            name: b"brick1".to_vec(),
            file: b"brick1.png".to_vec(),
            spdx: b"CC0-1.0".to_vec(),
            source: b"self-made".to_vec(),
        }],
        flats: vec![],
        patches: vec![RawPatch {
            name: b"BRICK1A".to_vec(),
            mat: b"brick1".to_vec(),
            transforms: vec![],
        }],
        textures: vec![RawTexture {
            name: b"WALL01".to_vec(),
            width: 64,
            height: 128,
            scale: None,
            patches: vec![RawTexPatch { patch: b"BRICK1A".to_vec(), x: 0, y: 0 }],
        }],
    }
}

#[test]
fn example_lumps_byte_exact() {
    let raw = simple_raw();
    let out = process_textures(&raw, &b"mats".to_vec(), &b"flats".to_vec(), &b"patches".to_vec())
        .ok()
        .expect("resolution succeeds");

    let mut pnames = vec![1u8, 0, 0, 0];
    pnames.extend_from_slice(b"BRICK1A\0");
    assert_eq!(out.pnames, pnames);

    let mut texture1 = vec![1u8, 0, 0, 0];
    texture1.extend_from_slice(&[8, 0, 0, 0]);
    texture1.extend_from_slice(b"WALL01\0\0");
    texture1.extend_from_slice(&[0, 0]);
    texture1.extend_from_slice(&[8, 8]);
    texture1.extend_from_slice(&[64, 0]);
    texture1.extend_from_slice(&[128, 0]);
    texture1.extend_from_slice(&[0, 0, 0, 0]);
    texture1.extend_from_slice(&[1, 0]);
    texture1.extend_from_slice(&[0, 0, 0, 0, 0, 0]);
    texture1.extend_from_slice(&[0, 0, 0, 0]);
    assert_eq!(out.texture1, texture1);
}

#[test]
fn pnames_lists_patches_at_their_indices() {
    let mut raw = simple_raw();
    raw.patches.push(RawPatch {
        name: b"stone2b".to_vec(),
        mat: b"brick1".to_vec(),
        transforms: vec![],
    });
    let out = process_textures(&raw, &b"m".to_vec(), &b"f".to_vec(), &b"p".to_vec())
        .ok()
        .expect("resolution succeeds");

    assert_eq!(&out.pnames[0..4], &[2, 0, 0, 0]);
    assert_eq!(&out.pnames[4..12], b"BRICK1A\0");
    assert_eq!(&out.pnames[12..20], b"STONE2B\0");

    let records: Vec<&[u8]> = out.pnames[4..].chunks(8).collect();
    for (k, p) in out.graph.patches.iter().enumerate() {
        assert_eq!(p.index() as usize, k);
        let mut padded = p.name.clone();
        padded.iter_mut().for_each(|b| b.make_ascii_uppercase());
        padded.resize(8, 0);
        let found = records.iter().position(|r| **r == padded[..]).unwrap();
        assert_eq!(found, p.index() as usize);
    }
}

#[test]
fn texture_sub_records_store_assigned_indices() {
    let mut raw = simple_raw();
    raw.patches.insert(
        0,
        RawPatch { name: b"EDGE0".to_vec(), mat: b"brick1".to_vec(), transforms: vec![] },
    );
    raw.textures[0].patches.push(RawTexPatch { patch: b"EDGE0".to_vec(), x: -4, y: 7 });
    let out = process_textures(&raw, &b"m".to_vec(), &b"f".to_vec(), &b"p".to_vec())
        .ok()
        .expect("resolution succeeds");

    // one texture: record starts at 8; sub-records at 8 + 22 + 10*j
    let rec = &out.texture1[8..];
    // first placement references BRICK1A, assigned index 1
    assert_eq!(&rec[22 + 4..22 + 6], &[1, 0]);
    // second placement references EDGE0, assigned index 0, at x = -4, y = 7
    assert_eq!(&rec[32..34], &[0xFC, 0xFF]);
    assert_eq!(&rec[34..36], &[7, 0]);
    assert_eq!(&rec[36..38], &[0, 0]);
}

#[test]
fn offset_table_matches_record_lengths() {
    let mut raw = simple_raw();
    raw.textures.push(RawTexture {
        name: b"WALL02".to_vec(),
        width: 32,
        height: 32,
        scale: Some((16, 8)),
        patches: vec![
            RawTexPatch { patch: b"BRICK1A".to_vec(), x: 0, y: 0 },
            RawTexPatch { patch: b"BRICK1A".to_vec(), x: 8, y: 8 },
        ],
    });
    let out = process_textures(&raw, &b"m".to_vec(), &b"f".to_vec(), &b"p".to_vec())
        .ok()
        .expect("resolution succeeds");

    let t1 = &out.texture1;
    let count = u32::from_le_bytes(t1[0..4].try_into().unwrap());
    assert_eq!(count, 2);
    let off0 = u32::from_le_bytes(t1[4..8].try_into().unwrap());
    let off1 = u32::from_le_bytes(t1[8..12].try_into().unwrap());
    assert_eq!(off0, 4 + 4 * count);
    // first texture holds one placement: 22 + 10 bytes
    assert_eq!(off1 - off0, 32);
    // second texture holds two placements and ends the lump
    assert_eq!(t1.len() as u32 - off1, 42);
}

#[test]
fn missing_patch_reference_fails_with_its_name() {
    let mut raw = simple_raw();
    raw.textures[0].patches.push(RawTexPatch { patch: b"NOSUCH".to_vec(), x: 0, y: 0 });
    let err = process_textures(&raw, &b"m".to_vec(), &b"f".to_vec(), &b"p".to_vec())
        .err()
        .expect("resolution must fail");
    match err {
        ProcessError::Resolution(ResolutionError::MissingPatch(n)) => {
            assert_eq!(n, b"NOSUCH".to_vec());
        }
        _ => panic!("expected a missing patch"),
    }
}

#[test]
fn missing_material_reference_fails_with_its_name() {
    let mut raw = simple_raw();
    raw.flats.push(RawFlat { name: b"FLOOR1".to_vec(), mat: b"granite".to_vec() });
    let err = process_textures(&raw, &b"m".to_vec(), &b"f".to_vec(), &b"p".to_vec())
        .err()
        .expect("resolution must fail");
    match err {
        ProcessError::Resolution(ResolutionError::MissingMaterial(n)) => {
            assert_eq!(n, b"granite".to_vec());
        }
        _ => panic!("expected a missing material"),
    }
}

#[test]
fn resolve_alone_reports_missing_patch() {
    let mut raw = simple_raw();
    raw.textures[0].patches[0].patch = b"GHOST".to_vec();
    match Matinfo::resolve(&raw) {
        Err(ResolutionError::MissingPatch(n)) => assert_eq!(n, b"GHOST".to_vec()),
        _ => panic!("expected a missing patch"),
    }
}

#[test]
fn default_scale_encodes_eight_eight() {
    let raw = simple_raw();
    let out = process_textures(&raw, &b"m".to_vec(), &b"f".to_vec(), &b"p".to_vec())
        .ok()
        .expect("resolution succeeds");
    // scale bytes sit right after the name and the two flag bytes
    assert_eq!(out.texture1[8 + 10], 8);
    assert_eq!(out.texture1[8 + 11], 8);
}

#[test]
fn declared_scale_is_kept() {
    let mut raw = simple_raw();
    raw.textures[0].scale = Some((16, 4));
    let out = process_textures(&raw, &b"m".to_vec(), &b"f".to_vec(), &b"p".to_vec())
        .ok()
        .expect("resolution succeeds");
    assert_eq!(out.texture1[8 + 10], 16);
    assert_eq!(out.texture1[8 + 11], 4);
}

#[test]
fn rerun_on_unchanged_spec_is_identical() {
    let mut raw = simple_raw();
    raw.flats.push(RawFlat { name: b"FLOOR1".to_vec(), mat: b"brick1".to_vec() });
    let a = process_textures(&raw, &b"mats".to_vec(), &b"fd".to_vec(), &b"pd".to_vec())
        .ok()
        .expect("first run succeeds");
    let b = process_textures(&raw, &b"mats".to_vec(), &b"fd".to_vec(), &b"pd".to_vec())
        .ok()
        .expect("second run succeeds");
    assert_eq!(a.pnames, b.pnames);
    assert_eq!(a.texture1, b.texture1);
    assert_eq!(a.manifest_tail, b.manifest_tail);
    assert_eq!(a.flat_links.len(), b.flat_links.len());
    for (x, y) in a.flat_links.iter().zip(b.flat_links.iter()) {
        assert_eq!(x.source, y.source);
        assert_eq!(x.dest, y.dest);
    }
    assert_eq!(a.patch_links.len(), b.patch_links.len());
    for (x, y) in a.patch_links.iter().zip(b.patch_links.iter()) {
        assert_eq!(x.source, y.source);
        assert_eq!(x.dest, y.dest);
    }
}

#[test]
fn manifest_lists_flats_then_patches() {
    let mut raw = simple_raw();
    raw.flats.push(RawFlat { name: b"FLOOR1".to_vec(), mat: b"brick1".to_vec() });
    let out = process_textures(&raw, &b"m".to_vec(), &b"f".to_vec(), &b"p".to_vec())
        .ok()
        .expect("resolution succeeds");
    assert_eq!(out.manifest_tail, b"[flats]\nFLOOR1\n[patches]\nBRICK1A\n".to_vec());
}

#[test]
fn link_jobs_join_directories_and_names() {
    let mut raw = simple_raw();
    raw.flats.push(RawFlat { name: b"FLOOR1".to_vec(), mat: b"brick1".to_vec() });
    let out =
        process_textures(&raw, &b"materials".to_vec(), &b"flatdir".to_vec(), &b"patchdir".to_vec())
            .ok()
            .expect("resolution succeeds");
    assert_eq!(out.flat_links.len(), 1);
    assert_eq!(out.flat_links[0].source, b"materials/brick1.png".to_vec());
    assert_eq!(out.flat_links[0].dest, b"flatdir/FLOOR1.png".to_vec());
    assert_eq!(out.patch_links.len(), 1);
    assert_eq!(out.patch_links[0].source, b"materials/brick1.png".to_vec());
    assert_eq!(out.patch_links[0].dest, b"patchdir/BRICK1A.png".to_vec());
}

#[test]
fn truncated_name_collision_is_surfaced() {
    let mut raw = simple_raw();
    // identical after upper-casing and cutting to eight bytes
    raw.patches.push(RawPatch {
        name: b"longname1".to_vec(),
        mat: b"brick1".to_vec(),
        transforms: vec![],
    });
    raw.patches.push(RawPatch {
        name: b"LONGNAME2".to_vec(),
        mat: b"brick1".to_vec(),
        transforms: vec![],
    });
    let err = process_textures(&raw, &b"m".to_vec(), &b"f".to_vec(), &b"p".to_vec())
        .err()
        .expect("collision must fail");
    match err {
        ProcessError::Collision(n) => assert_eq!(n, b"LONGNAME2".to_vec()),
        _ => panic!("expected a collision"),
    }
}

#[test]
fn oversized_texture_is_a_capacity_error() {
    let mut raw = simple_raw();
    let mut placements = Vec::new();
    for _ in 0..0x10000 {
        placements.push(RawTexPatch { patch: b"BRICK1A".to_vec(), x: 0, y: 0 });
    }
    raw.textures[0].patches = placements;
    let err = process_textures(&raw, &b"m".to_vec(), &b"f".to_vec(), &b"p".to_vec())
        .err()
        .expect("capacity must fail");
    assert!(matches!(err, ProcessError::Capacity));
}

#[test]
fn assign_index_overwrites_and_reads_back() {
    let mut p = Patch {
        name: b"BRICK1A".to_vec(),
        mat: 0,
        transforms: vec![],
        index: 0,
    };
    p.assign_index(7);
    assert_eq!(p.index(), 7);
}

#[test]
fn empty_spec_yields_empty_lumps() {
    let raw = RawMatinfo { mats: vec![], flats: vec![], patches: vec![], textures: vec![] };
    let out = process_textures(&raw, &b"m".to_vec(), &b"f".to_vec(), &b"p".to_vec())
        .ok()
        .expect("empty spec succeeds");
    assert_eq!(out.pnames, vec![0u8, 0, 0, 0]);
    assert_eq!(out.texture1, vec![0u8, 0, 0, 0]);
    assert_eq!(out.manifest_tail, b"[flats]\n[patches]\n".to_vec());
    assert!(out.flat_links.is_empty());
    assert!(out.patch_links.is_empty());
}
