//! The GUS patch-set selection: instruments with usage scores and patch
//! file sizes, similarity groups, and the greedy optimizer that picks which
//! instruments keep their own patch under a memory budget. The caller
//! parses the config, normalizes the scores and orders the instruments by
//! priority; the resolution and the greedy pass are here.

use vstd::prelude::*;

use crate::bytes::bytes_eq;

verus! {

/// A group's member ids, held in an outside inline vector
/// (`tinyvec::TinyVec`, heap-spilling past eight entries) that Verus cannot
/// see into; `members_of` names its contents and the wrappers below state
/// what each call does to them.
#[verifier::external_body]
pub struct MemberList {
    inner: tinyvec::TinyVec<[u16; 8]>,
}

/// What a member list holds, in order.
pub uninterp spec fn members_of(v: MemberList) -> Seq<u16>;

/// Relies on tinyvec::TinyVec::new: a fresh vector is empty.
#[verifier::external_body]
pub fn group_new() -> (v: MemberList)
    ensures
        members_of(v) == Seq::<u16>::empty(),
{
    MemberList { inner: tinyvec::TinyVec::new() }
}

/// Relies on tinyvec::TinyVec::push: appends one element at the end,
/// spilling to the heap when the inline capacity is exceeded.
#[verifier::external_body]
pub fn group_push(v: &mut MemberList, id: u16)
    ensures
        members_of(*final(v)) == members_of(*old(v)).push(id),
{
    v.inner.push(id);
}

/// Relies on tinyvec::TinyVec::len.
#[verifier::external_body]
pub fn group_len(v: &MemberList) -> (n: usize)
    ensures
        n == members_of(*v).len(),
{
    v.inner.len()
}

/// Relies on tinyvec's Index impl, which returns the element at the given
/// position and panics only out of bounds.
#[verifier::external_body]
pub fn group_get(v: &MemberList, i: usize) -> (r: u16)
    requires
        i < members_of(*v).len(),
    ensures
        r == members_of(*v)[i as int],
{
    v.inner[i]
}

/// One GUS instrument: its MIDI id, patch name, patch file size and
/// normalized usage score.
pub struct Instrument {
    pub midi_id: u16,
    pub patch_name: Vec<u8>,
    pub patch_file_size: usize,
    pub usage_score: u16,
}

/// A group of interchangeable instruments, by MIDI id; the first member
/// leads the group.
pub struct InstrumentGroup {
    pub members: MemberList,
}

impl InstrumentGroup {
    /// The group's leader: its first member.
    pub fn leader(&self) -> (r: u16)
        requires
            members_of(self.members).len() > 0,
        ensures
            r == members_of(self.members)[0],
    {
        group_get(&self.members, 0)
    }
}

/// The instruments and their similarity groups.
pub struct InstrumentStats {
    pub instruments: Vec<Instrument>,
    pub instrument_groups: Vec<InstrumentGroup>,
}

/// The position of the first instrument with the given MIDI id, looking
/// from position `i` on.
pub open spec fn spec_lookup_from(instruments: Seq<Instrument>, id: u16, i: int) -> Option<int>
    decreases instruments.len() - i,
{
    if i < 0 || i >= instruments.len() {
        None
    } else if instruments[i].midi_id == id {
        Some(i)
    } else {
        spec_lookup_from(instruments, id, i + 1)
    }
}

/// The position of the first instrument with the given MIDI id.
pub open spec fn spec_lookup(instruments: Seq<Instrument>, id: u16) -> Option<int> {
    spec_lookup_from(instruments, id, 0)
}

/// Every id among `members` names an instrument.
pub open spec fn group_covered(instruments: Seq<Instrument>, members: Seq<u16>) -> bool {
    forall|j: int| 0 <= j < members.len() ==> spec_lookup(instruments, #[trigger] members[j]) is Some
}

impl InstrumentStats {
    /// Every group has a leader.
    pub open spec fn wf(self) -> bool {
        forall|g: int|
            0 <= g < self.instrument_groups@.len() ==> members_of(
                (#[trigger] self.instrument_groups@[g]).members,
            ).len() > 0
    }

    /// Every group member names an instrument the stats hold.
    pub open spec fn members_covered(self) -> bool {
        forall|g: int|
            0 <= g < self.instrument_groups@.len() ==> group_covered(
                self.instruments@,
                members_of((#[trigger] self.instrument_groups@[g]).members),
            )
    }

    /// Finds the first instrument with the given MIDI id.
    pub fn lookup(&self, id: u16) -> (r: Option<usize>)
        ensures
            match r {
                Some(i) => i < self.instruments@.len() && spec_lookup(self.instruments@, id)
                    == Some(i as int),
                None => spec_lookup(self.instruments@, id) is None,
            },
    {
        let mut i: usize = 0;
        while i < self.instruments.len()
            invariant
                i <= self.instruments@.len(),
                spec_lookup(self.instruments@, id) == spec_lookup_from(
                    self.instruments@,
                    id,
                    i as int,
                ),
            decreases self.instruments@.len() - i,
        {
            if self.instruments[i].midi_id == id {
                return Some(i);
            }
            i = i + 1;
        }
        None
    }
}

/// The value under the first entry with key `k`, looking from position `i`
/// on.
pub open spec fn assoc_get_from(entries: Seq<(u16, u16)>, k: u16, i: int) -> Option<u16>
    decreases entries.len() - i,
{
    if i < 0 || i >= entries.len() {
        None
    } else if entries[i].0 == k {
        Some(entries[i].1)
    } else {
        assoc_get_from(entries, k, i + 1)
    }
}

/// The value under the first entry with key `k`.
pub open spec fn assoc_get(entries: Seq<(u16, u16)>, k: u16) -> Option<u16> {
    assoc_get_from(entries, k, 0)
}

/// The entries after binding `k` to `v`: the first entry with key `k` is
/// replaced, or a new entry is appended; search starts at position `i`.
pub open spec fn assoc_set_from(entries: Seq<(u16, u16)>, k: u16, v: u16, i: int) -> Seq<
    (u16, u16),
>
    decreases entries.len() - i,
{
    if i < 0 || i >= entries.len() {
        entries.push((k, v))
    } else if entries[i].0 == k {
        entries.update(i, (k, v))
    } else {
        assoc_set_from(entries, k, v, i + 1)
    }
}

/// The entries after binding `k` to `v`.
pub open spec fn assoc_set(entries: Seq<(u16, u16)>, k: u16, v: u16) -> Seq<(u16, u16)> {
    assoc_set_from(entries, k, v, 0)
}

/// A patch replacement map: each instrument's MIDI id bound to the id whose
/// patch it plays, with one entry per bound id.
pub struct PatchMap {
    pub entries: Vec<(u16, u16)>,
}

impl PatchMap {
    /// An empty map.
    pub fn new() -> (r: PatchMap)
        ensures
            r.entries@ == Seq::<(u16, u16)>::empty(),
    {
        PatchMap { entries: Vec::new() }
    }

    /// The id bound to `k`, if any.
    pub fn get(&self, k: u16) -> (r: Option<u16>)
        ensures
            r == assoc_get(self.entries@, k),
    {
        let mut i: usize = 0;
        while i < self.entries.len()
            invariant
                i <= self.entries@.len(),
                assoc_get(self.entries@, k) == assoc_get_from(self.entries@, k, i as int),
            decreases self.entries@.len() - i,
        {
            let e = self.entries[i];
            if e.0 == k {
                return Some(e.1);
            }
            i = i + 1;
        }
        None
    }

    /// Binds `k` to `v`, replacing an existing binding.
    pub fn set(&mut self, k: u16, v: u16)
        ensures
            final(self).entries@ == assoc_set(old(self).entries@, k, v),
    {
        let mut i: usize = 0;
        while i < self.entries.len()
            invariant
                i <= self.entries@.len(),
                self.entries@ == old(self).entries@,
                assoc_set(old(self).entries@, k, v) == assoc_set_from(
                    old(self).entries@,
                    k,
                    v,
                    i as int,
                ),
            decreases self.entries@.len() - i,
        {
            if self.entries[i].0 == k {
                self.entries.set(i, (k, v));
                return ;
            }
            i = i + 1;
        }
        self.entries.push((k, v));
    }
}

/// The combined size of the patches that map to themselves, summed over the
/// entries from position `i` on; an id nobody declares contributes nothing.
pub open spec fn patch_size_from(entries: Seq<(u16, u16)>, instruments: Seq<Instrument>, i: int) -> int
    decreases entries.len() - i,
{
    if i < 0 || i >= entries.len() {
        0
    } else {
        (if entries[i].0 == entries[i].1 {
            match spec_lookup(instruments, entries[i].0) {
                Some(j) => instruments[j].patch_file_size as int,
                None => 0,
            }
        } else {
            0
        }) + patch_size_from(entries, instruments, i + 1)
    }
}

/// The combined size of the patches that map to themselves.
pub open spec fn spec_patch_size(entries: Seq<(u16, u16)>, instruments: Seq<Instrument>) -> int {
    patch_size_from(entries, instruments, 0)
}

/// Remaining patch sizes never subtract.
proof fn lemma_patch_size_nonneg(entries: Seq<(u16, u16)>, instruments: Seq<Instrument>, i: int)
    ensures
        patch_size_from(entries, instruments, i) >= 0,
    decreases entries.len() - i,
{
    if 0 <= i && i < entries.len() {
        lemma_patch_size_nonneg(entries, instruments, i + 1);
    }
}

/// Sums the sizes of the identity-mapped patches of a map.
pub fn patch_size(map: &PatchMap, stats: &InstrumentStats) -> (r: usize)
    requires
        spec_patch_size(map.entries@, stats.instruments@) <= usize::MAX,
    ensures
        r == spec_patch_size(map.entries@, stats.instruments@),
{
    let mut acc: usize = 0;
    let mut i: usize = 0;
    while i < map.entries.len()
        invariant
            i <= map.entries@.len(),
            acc + patch_size_from(map.entries@, stats.instruments@, i as int) == spec_patch_size(
                map.entries@,
                stats.instruments@,
            ),
            spec_patch_size(map.entries@, stats.instruments@) <= usize::MAX,
        decreases map.entries@.len() - i,
    {
        proof {
            lemma_patch_size_nonneg(map.entries@, stats.instruments@, i as int);
            lemma_patch_size_nonneg(map.entries@, stats.instruments@, i + 1);
        }
        let e = map.entries[i];
        if e.0 == e.1 {
            match stats.lookup(e.0) {
                Some(j) => {
                    acc = acc + stats.instruments[j].patch_file_size;
                },
                None => {},
            }
        }
        i = i + 1;
    }
    acc
}

/// The map entries after binding the first `j` members of a group to its
/// leader, the group's first member.
pub open spec fn group_fold(entries: Seq<(u16, u16)>, members: Seq<u16>, j: int) -> Seq<(u16, u16)>
    decreases j,
{
    if j <= 0 {
        entries
    } else {
        assoc_set(group_fold(entries, members, j - 1), members[j - 1], members[0])
    }
}

/// The map entries after binding the members of the first `g` groups, each
/// to its own group's leader; a later group overrides an earlier one.
pub open spec fn groups_fold(groups: Seq<InstrumentGroup>, g: int) -> Seq<(u16, u16)>
    decreases g,
{
    if g <= 0 {
        Seq::empty()
    } else {
        group_fold(
            groups_fold(groups, g - 1),
            members_of(groups[g - 1].members),
            members_of(groups[g - 1].members).len() as int,
        )
    }
}

/// The minimal patch map: every grouped instrument bound to its group's
/// leader.
pub open spec fn initial_entries(stats: InstrumentStats) -> Seq<(u16, u16)> {
    groups_fold(stats.instrument_groups@, stats.instrument_groups@.len() as int)
}

/// The greedy pass from instrument `i` on: an instrument whose patch is
/// currently replaced gets its own patch back when its file still fits the
/// remaining budget; an instrument the map does not know is left alone.
/// Returns the final entries and the final combined size.
pub open spec fn greedy_from(
    entries: Seq<(u16, u16)>,
    cur: int,
    instruments: Seq<Instrument>,
    i: int,
    budget: int,
) -> (Seq<(u16, u16)>, int)
    decreases instruments.len() - i,
{
    if i < 0 || i >= instruments.len() {
        (entries, cur)
    } else {
        let ins = instruments[i];
        let bound = assoc_get(entries, ins.midi_id);
        if bound is Some && bound != Some(ins.midi_id) && ins.patch_file_size + cur < budget {
            greedy_from(
                assoc_set(entries, ins.midi_id, ins.midi_id),
                cur + ins.patch_file_size,
                instruments,
                i + 1,
                budget,
            )
        } else {
            greedy_from(entries, cur, instruments, i + 1, budget)
        }
    }
}

/// Computes the patch set for the given memory size: starts from the
/// minimal map (everything bound to its group leader), then walks the
/// instruments in the given order — decreasing priority — restoring each
/// instrument's own patch while the budget allows. The GUS reserves 32776
/// bytes, and the minimal set must fit the remainder.
pub fn patchset(size: usize, stats: &InstrumentStats) -> (r: PatchMap)
    requires
        stats.wf(),
        size >= 32776,
        spec_patch_size(initial_entries(*stats), stats.instruments@) < size - 32776,
    ensures
        r.entries@ == greedy_from(
            initial_entries(*stats),
            spec_patch_size(initial_entries(*stats), stats.instruments@),
            stats.instruments@,
            0,
            size - 32776,
        ).0,
{
    let budget: usize = size - 32776;
    let mut map = PatchMap::new();
    let mut g: usize = 0;
    while g < stats.instrument_groups.len()
        invariant
            stats.wf(),
            g <= stats.instrument_groups@.len(),
            map.entries@ == groups_fold(stats.instrument_groups@, g as int),
        decreases stats.instrument_groups@.len() - g,
    {
        let grp = &stats.instrument_groups[g];
        let leader = grp.leader();
        let n = group_len(&grp.members);
        let mut j: usize = 0;
        while j < n
            invariant
                g < stats.instrument_groups@.len(),
                *grp == stats.instrument_groups@[g as int],
                members_of(grp.members).len() > 0,
                n == members_of(grp.members).len(),
                leader == members_of(grp.members)[0],
                j <= n,
                map.entries@ == group_fold(
                    groups_fold(stats.instrument_groups@, g as int),
                    members_of(grp.members),
                    j as int,
                ),
            decreases n - j,
        {
            let m = group_get(&grp.members, j);
            map.set(m, leader);
            j = j + 1;
        }
        g = g + 1;
    }
    assert(map.entries@ == initial_entries(*stats));

    proof {
        lemma_patch_size_nonneg(map.entries@, stats.instruments@, 0);
    }
    let mut current: usize = patch_size(&map, stats);
    let ghost init_entries = map.entries@;
    let ghost init_size = current as int;
    let mut i: usize = 0;
    while i < stats.instruments.len()
        invariant
            i <= stats.instruments@.len(),
            budget <= size,
            current < budget,
            greedy_from(
                map.entries@,
                current as int,
                stats.instruments@,
                i as int,
                budget as int,
            ) == greedy_from(init_entries, init_size, stats.instruments@, 0, budget as int),
        decreases stats.instruments@.len() - i,
    {
        let ins = &stats.instruments[i];
        match map.get(ins.midi_id) {
            Some(t) => {
                if t != ins.midi_id && ins.patch_file_size < budget - current {
                    map.set(ins.midi_id, ins.midi_id);
                    current = current + ins.patch_file_size;
                }
            },
            None => {},
        }
        i = i + 1;
    }
    map
}

/// Why the GUS config could not be resolved, or a table line not built.
pub enum DmxgusError {
    /// An instrument's patch has no recorded file size.
    MissingPatchSize(Vec<u8>),
    /// An instrument's MIDI id lies beyond the usage-score table.
    ScoreOutOfRange(u16),
    /// A similarity group names a patch no instrument uses.
    MissingGroupMember(Vec<u8>),
    /// A grouped MIDI id has no instrument or no binding in a patch set.
    UnknownId(u16),
}

/// One line of the printed GUS table: an instrument's MIDI id, the id whose
/// patch it plays in each computed set, and its patch name.
pub struct DmxgusRow {
    pub midi_id: u16,
    pub mapped: Vec<u16>,
    pub patch_name: Vec<u8>,
}

/// The mathematical content of a table line.
pub open spec fn row_view(r: DmxgusRow) -> (u16, Seq<u16>, Seq<u8>) {
    (r.midi_id, r.mapped@, r.patch_name@)
}

/// The entry lists of a sequence of patch sets.
pub open spec fn set_views(sets: Seq<PatchMap>) -> Seq<Seq<(u16, u16)>> {
    sets.map_values(|m: PatchMap| m.entries@)
}

/// What each patch set binds `id` to; an unbound id is shown as zero, but
/// the table is only built when every id is bound.
pub open spec fn mapped_ids(sets: Seq<Seq<(u16, u16)>>, id: u16) -> Seq<u16> {
    sets.map_values(
        |e: Seq<(u16, u16)>|
            match assoc_get(e, id) {
                Some(v) => v,
                None => 0u16,
            },
    )
}

/// The table line owed to a grouped MIDI id.
pub open spec fn spec_row(
    instruments: Seq<Instrument>,
    sets: Seq<Seq<(u16, u16)>>,
    id: u16,
) -> (u16, Seq<u16>, Seq<u8>) {
    (
        id,
        mapped_ids(sets, id),
        match spec_lookup(instruments, id) {
            Some(i) => instruments[i].patch_name@,
            None => Seq::empty(),
        },
    )
}

/// The lines owed to the first `j` members of one group.
pub open spec fn member_rows(
    instruments: Seq<Instrument>,
    sets: Seq<Seq<(u16, u16)>>,
    members: Seq<u16>,
    j: int,
) -> Seq<(u16, Seq<u16>, Seq<u8>)>
    decreases j,
{
    if j <= 0 {
        Seq::empty()
    } else {
        member_rows(instruments, sets, members, j - 1).push(
            spec_row(instruments, sets, members[j - 1]),
        )
    }
}

/// The lines owed to the first `g` groups, group by group, members in
/// order.
pub open spec fn groups_rows(
    instruments: Seq<Instrument>,
    sets: Seq<Seq<(u16, u16)>>,
    groups: Seq<InstrumentGroup>,
    g: int,
) -> Seq<(u16, Seq<u16>, Seq<u8>)>
    decreases g,
{
    if g <= 0 {
        Seq::empty()
    } else {
        groups_rows(instruments, sets, groups, g - 1) + member_rows(
            instruments,
            sets,
            members_of(groups[g - 1].members),
            members_of(groups[g - 1].members).len() as int,
        )
    }
}

/// Every set binds `id`.
pub open spec fn sets_bind(sets: Seq<Seq<(u16, u16)>>, id: u16) -> bool {
    forall|k: int| 0 <= k < sets.len() ==> assoc_get(#[trigger] sets[k], id) is Some
}

/// Every member of the group is declared and bound in every set.
pub open spec fn group_rows_ok(
    instruments: Seq<Instrument>,
    sets: Seq<Seq<(u16, u16)>>,
    members: Seq<u16>,
) -> bool {
    forall|j: int|
        0 <= j < members.len() ==> spec_lookup(instruments, #[trigger] members[j]) is Some
            && sets_bind(sets, members[j])
}

/// Every grouped id is declared and bound in every set.
pub open spec fn all_rows_ok(
    instruments: Seq<Instrument>,
    sets: Seq<Seq<(u16, u16)>>,
    groups: Seq<InstrumentGroup>,
) -> bool {
    forall|g: int|
        0 <= g < groups.len() ==> group_rows_ok(
            instruments,
            sets,
            members_of((#[trigger] groups[g]).members),
        )
}

/// Builds the printed table: one line per grouped instrument, groups in
/// order and members in order, each line carrying the id's binding in every
/// given patch set and the instrument's patch name. Fails with the
/// offending id when a grouped id has no instrument or some set does not
/// bind it.
pub fn dmxgus_rows(stats: &InstrumentStats, sets: &Vec<PatchMap>) -> (r: Result<
    Vec<DmxgusRow>,
    DmxgusError,
>)
    ensures
        match r {
            Ok(rows) => {
                &&& rows@.map_values(|row: DmxgusRow| row_view(row)) == groups_rows(
                    stats.instruments@,
                    set_views(sets@),
                    stats.instrument_groups@,
                    stats.instrument_groups@.len() as int,
                )
                &&& all_rows_ok(stats.instruments@, set_views(sets@), stats.instrument_groups@)
            },
            Err(DmxgusError::UnknownId(id)) => {
                &&& !(spec_lookup(stats.instruments@, id) is Some && sets_bind(
                    set_views(sets@),
                    id,
                ))
                &&& exists|g: int, j: int|
                    #![trigger members_of(stats.instrument_groups@[g].members)[j]]
                    0 <= g < stats.instrument_groups@.len() && 0 <= j < members_of(
                        stats.instrument_groups@[g].members,
                    ).len() && members_of(stats.instrument_groups@[g].members)[j] == id
            },
            _ => false,
        },
        (r is Ok) <==> all_rows_ok(stats.instruments@, set_views(sets@), stats.instrument_groups@),
{
    let ghost svs = set_views(sets@);
    let mut rows: Vec<DmxgusRow> = Vec::new();
    let mut g: usize = 0;
    while g < stats.instrument_groups.len()
        invariant
            svs == set_views(sets@),
            g <= stats.instrument_groups@.len(),
            rows@.map_values(|row: DmxgusRow| row_view(row)) == groups_rows(
                stats.instruments@,
                svs,
                stats.instrument_groups@,
                g as int,
            ),
            forall|k: int|
                0 <= k < g ==> group_rows_ok(
                    stats.instruments@,
                    svs,
                    members_of((#[trigger] stats.instrument_groups@[k]).members),
                ),
        decreases stats.instrument_groups@.len() - g,
    {
        let grp = &stats.instrument_groups[g];
        let n = group_len(&grp.members);
        let mut j: usize = 0;
        while j < n
            invariant
                svs == set_views(sets@),
                g < stats.instrument_groups@.len(),
                *grp == stats.instrument_groups@[g as int],
                n == members_of(grp.members).len(),
                j <= n,
                rows@.map_values(|row: DmxgusRow| row_view(row)) == groups_rows(
                    stats.instruments@,
                    svs,
                    stats.instrument_groups@,
                    g as int,
                ) + member_rows(stats.instruments@, svs, members_of(grp.members), j as int),
                forall|l: int|
                    0 <= l < j ==> spec_lookup(
                        stats.instruments@,
                        #[trigger] members_of(grp.members)[l],
                    ) is Some && sets_bind(svs, members_of(grp.members)[l]),
            decreases n - j,
        {
            let id = group_get(&grp.members, j);
            proof {
                assert(members_of(stats.instrument_groups@[g as int].members)[j as int] == id);
            }
            let ins_index = match stats.lookup(id) {
                Some(i) => i,
                None => {
                    return Err(DmxgusError::UnknownId(id));
                },
            };
            let mut mapped: Vec<u16> = Vec::new();
            let mut k: usize = 0;
            while k < sets.len()
                invariant
                    svs == set_views(sets@),
                    g < stats.instrument_groups@.len(),
                    *grp == stats.instrument_groups@[g as int],
                    j < members_of(grp.members).len(),
                    members_of(grp.members)[j as int] == id,
                    k <= sets@.len(),
                    mapped@.len() == k,
                    forall|kk: int|
                        0 <= kk < k ==> assoc_get(svs[kk], id) == Some(#[trigger] mapped@[kk]),
                decreases sets@.len() - k,
            {
                match sets[k].get(id) {
                    Some(v) => {
                        mapped.push(v);
                    },
                    None => {
                        proof {
                            assert(svs[k as int] == sets@[k as int].entries@);
                            assert(!sets_bind(svs, id));
                            assert(members_of(stats.instrument_groups@[g as int].members)[
                                j as int
                            ] == id);
                        }
                        return Err(DmxgusError::UnknownId(id));
                    },
                }
                k = k + 1;
            }
            let ghost mvals = mapped@;
            proof {
                assert forall|kk: int|
                    0 <= kk < svs.len() implies assoc_get(#[trigger] svs[kk], id) is Some by {
                    assert(assoc_get(svs[kk], id) == Some(mvals[kk]));
                }
                assert(sets_bind(svs, id));
                assert(mvals =~= mapped_ids(svs, id));
            }
            let row = DmxgusRow {
                midi_id: id,
                mapped,
                patch_name: crate::bytes::clone_bytes(&stats.instruments[ins_index].patch_name),
            };
            let ghost before = rows@.map_values(|row: DmxgusRow| row_view(row));
            proof {
                assert(row_view(row) == spec_row(stats.instruments@, svs, id));
            }
            rows.push(row);
            proof {
                let f = |row: DmxgusRow| row_view(row);
                assert(rows@.map_values(f) =~= before.push(spec_row(stats.instruments@, svs, id)));
                assert(member_rows(stats.instruments@, svs, members_of(grp.members), j + 1)
                    == member_rows(stats.instruments@, svs, members_of(grp.members), j as int).push(
                    spec_row(stats.instruments@, svs, id),
                ));
                assert(groups_rows(stats.instruments@, svs, stats.instrument_groups@, g as int)
                    + member_rows(stats.instruments@, svs, members_of(grp.members), j + 1)
                    =~= before.push(spec_row(stats.instruments@, svs, id)));
            }
            j = j + 1;
        }
        g = g + 1;
    }
    Ok(rows)
}

/// The file size recorded for a patch name, looking from position `i` on.
pub open spec fn size_of_name_from(sizes: Seq<(Vec<u8>, usize)>, name: Seq<u8>, i: int) -> Option<
    usize,
>
    decreases sizes.len() - i,
{
    if i < 0 || i >= sizes.len() {
        None
    } else if sizes[i].0@ == name {
        Some(sizes[i].1)
    } else {
        size_of_name_from(sizes, name, i + 1)
    }
}

/// The file size recorded for a patch name.
pub open spec fn size_of_name(sizes: Seq<(Vec<u8>, usize)>, name: Seq<u8>) -> Option<usize> {
    size_of_name_from(sizes, name, 0)
}

/// The MIDI id of the first instrument declared with a patch name, looking
/// from position `i` on.
pub open spec fn id_of_name_from(patches: Seq<(u16, Vec<u8>)>, name: Seq<u8>, i: int) -> Option<
    u16,
>
    decreases patches.len() - i,
{
    if i < 0 || i >= patches.len() {
        None
    } else if patches[i].1@ == name {
        Some(patches[i].0)
    } else {
        id_of_name_from(patches, name, i + 1)
    }
}

/// The MIDI id of the first instrument declared with a patch name.
pub open spec fn id_of_name(patches: Seq<(u16, Vec<u8>)>, name: Seq<u8>) -> Option<u16> {
    id_of_name_from(patches, name, 0)
}

/// Finds the recorded file size of a patch name.
fn find_size(sizes: &Vec<(Vec<u8>, usize)>, name: &Vec<u8>) -> (r: Option<usize>)
    ensures
        r == size_of_name(sizes@, name@),
{
    let mut i: usize = 0;
    while i < sizes.len()
        invariant
            i <= sizes@.len(),
            size_of_name(sizes@, name@) == size_of_name_from(sizes@, name@, i as int),
        decreases sizes@.len() - i,
    {
        if bytes_eq(&sizes[i].0, name) {
            return Some(sizes[i].1);
        }
        i = i + 1;
    }
    None
}

/// Finds the MIDI id of the first instrument declared with a patch name.
fn find_id(patches: &Vec<(u16, Vec<u8>)>, name: &Vec<u8>) -> (r: Option<u16>)
    ensures
        r == id_of_name(patches@, name@),
{
    let mut i: usize = 0;
    while i < patches.len()
        invariant
            i <= patches@.len(),
            id_of_name(patches@, name@) == id_of_name_from(patches@, name@, i as int),
        decreases patches@.len() - i,
    {
        if bytes_eq(&patches[i].1, name) {
            return Some(patches[i].0);
        }
        i = i + 1;
    }
    None
}

/// Instrument `i` of the stats carries declaration `i`: its id, its name,
/// the file size recorded for the name, and the usage score under its id.
pub open spec fn instrument_resolved_at(
    ins: Instrument,
    patches: Seq<(u16, Vec<u8>)>,
    sizes: Seq<(Vec<u8>, usize)>,
    scores: Seq<u16>,
    i: int,
) -> bool {
    &&& ins.midi_id == patches[i].0
    &&& ins.patch_name@ == patches[i].1@
    &&& Some(ins.patch_file_size) == size_of_name(sizes, patches[i].1@)
    &&& patches[i].0 < scores.len()
    &&& ins.usage_score == scores[patches[i].0 as int]
}

/// The group's members are the MIDI ids of the named instruments, in
/// order.
pub open spec fn group_resolved(
    members: Seq<u16>,
    names: Seq<Vec<u8>>,
    patches: Seq<(u16, Vec<u8>)>,
) -> bool {
    &&& members.len() == names.len()
    &&& forall|j: int|
        0 <= j < names.len() ==> Some(#[trigger] members[j]) == id_of_name(patches, names[j]@)
}

/// Every declared instrument has a recorded file size and an in-range
/// usage score.
pub open spec fn instruments_resolvable(
    patches: Seq<(u16, Vec<u8>)>,
    sizes: Seq<(Vec<u8>, usize)>,
    scores: Seq<u16>,
) -> bool {
    forall|i: int|
        0 <= i < patches.len() ==> size_of_name(sizes, (#[trigger] patches[i]).1@) is Some
            && patches[i].0 < scores.len()
}

/// Every name in a group belongs to a declared instrument.
pub open spec fn group_names_resolvable(
    patches: Seq<(u16, Vec<u8>)>,
    names: Seq<Vec<u8>>,
) -> bool {
    forall|j: int| 0 <= j < names.len() ==> id_of_name(patches, (#[trigger] names[j])@) is Some
}

/// Every group resolves.
pub open spec fn groups_resolvable(
    patches: Seq<(u16, Vec<u8>)>,
    groups: Seq<Vec<Vec<u8>>>,
) -> bool {
    forall|g: int|
        0 <= g < groups.len() ==> group_names_resolvable(patches, (#[trigger] groups[g])@)
}

/// Resolves the parsed GUS config into instrument stats: binds every
/// declared instrument to its patch file size and usage score, and every
/// similarity group to its members' MIDI ids. Succeeds exactly when every
/// name and id resolves; fails with the offending name or id otherwise.
/// The instruments keep declaration order; the caller orders them by
/// priority before computing patch sets.
pub fn resolve_stats(
    instr_patches: &Vec<(u16, Vec<u8>)>,
    patch_file_sizes: &Vec<(Vec<u8>, usize)>,
    instrument_stats: &Vec<u16>,
    similar_groups: &Vec<Vec<Vec<u8>>>,
) -> (r: Result<InstrumentStats, DmxgusError>)
    ensures
        match r {
            Ok(stats) => {
                &&& stats.instruments@.len() == instr_patches@.len()
                &&& forall|i: int|
                    0 <= i < instr_patches@.len() ==> instrument_resolved_at(
                        #[trigger] stats.instruments@[i],
                        instr_patches@,
                        patch_file_sizes@,
                        instrument_stats@,
                        i,
                    )
                &&& stats.instrument_groups@.len() == similar_groups@.len()
                &&& forall|g: int|
                    0 <= g < similar_groups@.len() ==> group_resolved(
                        members_of((#[trigger] stats.instrument_groups@[g]).members),
                        similar_groups@[g]@,
                        instr_patches@,
                    )
            },
            Err(DmxgusError::MissingPatchSize(n)) => {
                &&& size_of_name(patch_file_sizes@, n@) is None
                &&& exists|i: int|
                    0 <= i < instr_patches@.len() && (#[trigger] instr_patches@[i]).1@ == n@
            },
            Err(DmxgusError::ScoreOutOfRange(id)) => {
                &&& id >= instrument_stats@.len()
                &&& exists|i: int|
                    0 <= i < instr_patches@.len() && (#[trigger] instr_patches@[i]).0 == id
            },
            Err(DmxgusError::MissingGroupMember(n)) => {
                &&& id_of_name(instr_patches@, n@) is None
                &&& exists|g: int, j: int|
                    0 <= g < similar_groups@.len() && 0 <= j < similar_groups@[g]@.len()
                        && (#[trigger] similar_groups@[g]@[j])@ == n@
            },
            Err(DmxgusError::UnknownId(_)) => false,
        },
        (r is Ok) <==> (instruments_resolvable(instr_patches@, patch_file_sizes@, instrument_stats@)
            && groups_resolvable(instr_patches@, similar_groups@)),
{
    let mut instruments: Vec<Instrument> = Vec::new();
    let mut i: usize = 0;
    while i < instr_patches.len()
        invariant
            i <= instr_patches@.len(),
            instruments@.len() == i,
            forall|k: int|
                0 <= k < i ==> instrument_resolved_at(
                    #[trigger] instruments@[k],
                    instr_patches@,
                    patch_file_sizes@,
                    instrument_stats@,
                    k,
                ),
            forall|k: int|
                0 <= k < i ==> size_of_name(
                    patch_file_sizes@,
                    (#[trigger] instr_patches@[k]).1@,
                ) is Some && instr_patches@[k].0 < instrument_stats@.len(),
        decreases instr_patches@.len() - i,
    {
        let id = instr_patches[i].0;
        let size = match find_size(patch_file_sizes, &instr_patches[i].1) {
            Some(s) => s,
            None => {
                return Err(DmxgusError::MissingPatchSize(crate::bytes::clone_bytes(
                    &instr_patches[i].1,
                )));
            },
        };
        if !((id as usize) < instrument_stats.len()) {
            return Err(DmxgusError::ScoreOutOfRange(id));
        }
        let score = instrument_stats[id as usize];
        instruments.push(
            Instrument {
                midi_id: id,
                patch_name: crate::bytes::clone_bytes(&instr_patches[i].1),
                patch_file_size: size,
                usage_score: score,
            },
        );
        i = i + 1;
    }

    let mut groups: Vec<InstrumentGroup> = Vec::new();
    let mut g: usize = 0;
    while g < similar_groups.len()
        invariant
            g <= similar_groups@.len(),
            groups@.len() == g,
            forall|k: int|
                0 <= k < g ==> group_resolved(
                    members_of((#[trigger] groups@[k]).members),
                    similar_groups@[k]@,
                    instr_patches@,
                ),
            forall|k: int|
                0 <= k < g ==> group_names_resolvable(
                    instr_patches@,
                    (#[trigger] similar_groups@[k])@,
                ),
        decreases similar_groups@.len() - g,
    {
        let names = &similar_groups[g];
        let mut members = group_new();
        let mut j: usize = 0;
        while j < names.len()
            invariant
                g < similar_groups@.len(),
                *names == similar_groups@[g as int],
                j <= names@.len(),
                members_of(members).len() == j,
                forall|l: int|
                    0 <= l < j ==> Some(#[trigger] members_of(members)[l]) == id_of_name(
                        instr_patches@,
                        names@[l]@,
                    ),
            decreases names@.len() - j,
        {
            match find_id(instr_patches, &names[j]) {
                Some(id) => {
                    group_push(&mut members, id);
                },
                None => {
                    return Err(DmxgusError::MissingGroupMember(crate::bytes::clone_bytes(
                        &names[j],
                    )));
                },
            }
            j = j + 1;
        }
        proof {
            let ms = members_of(members);
            assert forall|l: int|
                0 <= l < names@.len() implies id_of_name(
                instr_patches@,
                (#[trigger] names@[l])@,
            ) is Some by {
                assert(Some(ms[l]) == id_of_name(instr_patches@, names@[l]@));
            }
        }
        groups.push(InstrumentGroup { members });
        g = g + 1;
    }
    Ok(InstrumentStats { instruments, instrument_groups: groups })
}

} // verus!
