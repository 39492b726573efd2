use klamath_util::dmxgus::{
    dmxgus_rows, group_len, patch_size, patchset, resolve_stats, DmxgusError, InstrumentStats,
    PatchMap,
};

fn config() -> (Vec<(u16, Vec<u8>)>, Vec<(Vec<u8>, usize)>, Vec<u16>, Vec<Vec<Vec<u8>>>) {
    let instr_patches = vec![
        (0u16, b"acpiano".to_vec()),
        (1u16, b"britepno".to_vec()),
        (2u16, b"honky".to_vec()),
    ];
    let patch_file_sizes = vec![
        (b"acpiano".to_vec(), 1000usize),
        (b"britepno".to_vec(), 800usize),
        (b"honky".to_vec(), 400usize),
    ];
    let instrument_stats = vec![50u16, 30, 10];
    let similar_groups =
        vec![vec![b"acpiano".to_vec(), b"britepno".to_vec(), b"honky".to_vec()]];
    (instr_patches, patch_file_sizes, instrument_stats, similar_groups)
}

#[test]
fn resolve_stats_binds_sizes_scores_and_groups() {
    let (p, s, sc, g) = config();
    let stats = resolve_stats(&p, &s, &sc, &g).ok().expect("config resolves");
    assert_eq!(stats.instruments.len(), 3);
    assert_eq!(stats.instruments[0].midi_id, 0);
    assert_eq!(stats.instruments[0].patch_name, b"acpiano".to_vec());
    assert_eq!(stats.instruments[0].patch_file_size, 1000);
    assert_eq!(stats.instruments[0].usage_score, 50);
    assert_eq!(stats.instruments[2].patch_file_size, 400);
    assert_eq!(stats.instruments[2].usage_score, 10);
    assert_eq!(stats.instrument_groups.len(), 1);
    assert_eq!(group_len(&stats.instrument_groups[0].members), 3);
    assert_eq!(stats.instrument_groups[0].leader(), 0);
}

#[test]
fn resolve_stats_missing_size() {
    let (p, mut s, sc, g) = config();
    s.remove(1);
    match resolve_stats(&p, &s, &sc, &g) {
        Err(DmxgusError::MissingPatchSize(n)) => assert_eq!(n, b"britepno".to_vec()),
        _ => panic!("expected a missing patch size"),
    }
}

#[test]
fn resolve_stats_score_out_of_range() {
    let (mut p, mut s, sc, g) = config();
    p.push((9u16, b"organ".to_vec()));
    s.push((b"organ".to_vec(), 50usize));
    match resolve_stats(&p, &s, &sc, &g) {
        Err(DmxgusError::ScoreOutOfRange(id)) => assert_eq!(id, 9),
        _ => panic!("expected a score out of range"),
    }
}

#[test]
fn resolve_stats_missing_group_member() {
    let (p, s, sc, mut g) = config();
    g[0].push(b"theremin".to_vec());
    match resolve_stats(&p, &s, &sc, &g) {
        Err(DmxgusError::MissingGroupMember(n)) => assert_eq!(n, b"theremin".to_vec()),
        _ => panic!("expected a missing group member"),
    }
}

#[test]
fn lookup_finds_first_matching_id() {
    let (p, s, sc, g) = config();
    let stats = resolve_stats(&p, &s, &sc, &g).ok().unwrap();
    assert_eq!(stats.lookup(2), Some(2));
    assert_eq!(stats.lookup(7), None);
}

#[test]
fn patch_map_set_overwrites_and_get_finds() {
    let mut m = PatchMap::new();
    assert_eq!(m.get(5), None);
    m.set(5, 0);
    m.set(6, 0);
    assert_eq!(m.get(5), Some(0));
    m.set(5, 5);
    assert_eq!(m.get(5), Some(5));
    assert_eq!(m.get(6), Some(0));
    assert_eq!(m.entries.len(), 2);
}

#[test]
fn patch_size_counts_identity_entries() {
    let (p, s, sc, g) = config();
    let stats = resolve_stats(&p, &s, &sc, &g).ok().unwrap();
    let mut m = PatchMap::new();
    m.set(0, 0); // own patch: counts 1000
    m.set(1, 0); // replaced: free
    m.set(2, 2); // own patch: counts 400
    assert_eq!(patch_size(&m, &stats), 1400);
}

#[test]
fn patchset_minimal_when_budget_is_tight() {
    let (p, s, sc, g) = config();
    let stats = resolve_stats(&p, &s, &sc, &g).ok().unwrap();
    // budget after the reserved 32776 bytes: 1100 — the leader's 1000 fit,
    // nothing else does
    let m = patchset(32776 + 1100, &stats);
    assert_eq!(m.get(0), Some(0));
    assert_eq!(m.get(1), Some(0));
    assert_eq!(m.get(2), Some(0));
}

#[test]
fn patchset_restores_patches_in_priority_order() {
    let (p, s, sc, g) = config();
    let stats = resolve_stats(&p, &s, &sc, &g).ok().unwrap();
    // room for the leader's 1000 and one 800 patch, not the 400 after it
    let m = patchset(32776 + 1900, &stats);
    assert_eq!(m.get(0), Some(0));
    assert_eq!(m.get(1), Some(1));
    assert_eq!(m.get(2), Some(0));
}

#[test]
fn rows_follow_group_order_with_all_four_sets() {
    let (p, s, sc, g) = config();
    let stats = resolve_stats(&p, &s, &sc, &g).ok().unwrap();
    let sets = vec![
        patchset(32776 + 1100, &stats),
        patchset(32776 + 1900, &stats),
        patchset(32776 + 10000, &stats),
        patchset(32776 + 10000, &stats),
    ];
    let rows = dmxgus_rows(&stats, &sets).ok().expect("all ids bound");
    assert_eq!(rows.len(), 3);
    assert_eq!(rows[0].midi_id, 0);
    assert_eq!(rows[0].mapped, vec![0, 0, 0, 0]);
    assert_eq!(rows[0].patch_name, b"acpiano".to_vec());
    assert_eq!(rows[1].midi_id, 1);
    assert_eq!(rows[1].mapped, vec![0, 1, 1, 1]);
    assert_eq!(rows[2].midi_id, 2);
    assert_eq!(rows[2].mapped, vec![0, 0, 2, 2]);
    assert_eq!(rows[2].patch_name, b"honky".to_vec());
}

#[test]
fn rows_fail_on_an_unbound_id() {
    let (p, s, sc, g) = config();
    let stats = resolve_stats(&p, &s, &sc, &g).ok().unwrap();
    // an empty patch set binds nothing
    let sets = vec![PatchMap::new()];
    match dmxgus_rows(&stats, &sets) {
        Err(DmxgusError::UnknownId(id)) => assert_eq!(id, 0),
        _ => panic!("expected an unknown id"),
    }
}

#[test]
fn patchset_restores_everything_with_room() {
    let (p, s, sc, g) = config();
    let stats = resolve_stats(&p, &s, &sc, &g).ok().unwrap();
    let m = patchset(32776 + 10000, &stats);
    assert_eq!(m.get(0), Some(0));
    assert_eq!(m.get(1), Some(1));
    assert_eq!(m.get(2), Some(2));
}
