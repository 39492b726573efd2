//! Relational properties of the resolved graph and the two lumps, proved
//! once and for all: the patch-name table lists every patch at its assigned
//! index, texture sub-records store exactly the assigned indices, the offset
//! table is consistent with the record lengths, and re-running the pipeline
//! on an unchanged description yields identical outputs.

use vstd::prelude::*;

use crate::bytes::{le16, le32, name8};
use crate::textures::lumps::{
    lemma_tex_patch_records_len, lemma_tex_record_len, lemma_total_len_mono, offset_table,
    offset_value, pnames_lump, pnames_records, records_concat, tex_patch_record,
    tex_patch_records, tex_record, tex_record_len, texture1_lump, total_len,
};
use crate::textures::pipeline::{
    distinct_name8s, flat_links_ok, flat_names, graph_patch_names, graph_tex_records, LinkJob,
    manifest_tail, patch_links_ok,
};
use crate::textures::resolve::{
    flat_resolved_at, is_first_match, mat_names, mat_resolved_at, patch_names, patch_resolved_at,
    resolves, texture_resolved_at,
};
use crate::textures::types::{Matinfo, Patch, RawMatinfo, TexPatch, Texture};

verus! {

/// Patch-name records take eight bytes each.
pub proof fn lemma_pnames_records_len(patches: Seq<Patch>)
    ensures
        pnames_records(patches).len() == 8 * patches.len(),
    decreases patches.len(),
{
    if patches.len() > 0 {
        lemma_pnames_records_len(patches.drop_last());
    }
}

/// Record `k` of the patch-name records is the eight-byte name of patch `k`.
pub proof fn lemma_pnames_record_at(patches: Seq<Patch>, k: int)
    requires
        0 <= k < patches.len(),
    ensures
        pnames_records(patches).subrange(8 * k, 8 * k + 8) == name8(patches[k].name@),
    decreases patches.len(),
{
    lemma_pnames_records_len(patches);
    lemma_pnames_records_len(patches.drop_last());
    if k == patches.len() - 1 {
        assert(pnames_records(patches).subrange(8 * k, 8 * k + 8) =~= name8(
            patches.last().name@,
        ));
    } else {
        lemma_pnames_record_at(patches.drop_last(), k);
        assert(pnames_records(patches).subrange(8 * k, 8 * k + 8) =~= pnames_records(
            patches.drop_last(),
        ).subrange(8 * k, 8 * k + 8));
    }
}

/// In a resolved graph without truncated-name collisions, looking a patch's
/// eight-byte name up in the PNAMES lump finds exactly the patch's assigned
/// index: the record at byte offset `4 + 8k` is patch `k`'s name, patch `k`'s
/// assigned index is `k`, and no other record holds the same name.
pub proof fn lemma_pnames_index(g: Matinfo, k: int)
    requires
        g.wf(),
        distinct_name8s(graph_patch_names(g)),
        0 <= k < g.patches@.len(),
    ensures
        pnames_lump(g.patches@).subrange(4 + 8 * k, 4 + 8 * k + 8) == name8(g.patches@[k].name@),
        g.patches@[k].index == k,
        forall|j: int|
            0 <= j < g.patches@.len() && name8(g.patches@[j].name@) == name8(g.patches@[k].name@)
                ==> j == k,
{
    lemma_pnames_record_at(g.patches@, k);
    lemma_pnames_records_len(g.patches@);
    assert(pnames_lump(g.patches@).subrange(4 + 8 * k, 4 + 8 * k + 8) =~= pnames_records(
        g.patches@,
    ).subrange(8 * k, 8 * k + 8));
    assert forall|j: int|
        0 <= j < g.patches@.len() && name8(g.patches@[j].name@) == name8(
            g.patches@[k].name@,
        ) implies j == k by {
        assert(graph_patch_names(g)[j] == g.patches@[j].name@);
        assert(graph_patch_names(g)[k] == g.patches@[k].name@);
    }
}

/// Sub-records of a texture take ten bytes each, and sub-record `j` encodes
/// placement `j`.
pub proof fn lemma_tex_patch_record_at(tps: Seq<TexPatch>, patches: Seq<Patch>, j: int)
    requires
        0 <= j < tps.len(),
    ensures
        tex_patch_records(tps, patches).subrange(10 * j, 10 * j + 10) == tex_patch_record(
            tps[j],
            patches,
        ),
    decreases tps.len(),
{
    lemma_tex_patch_records_len(tps, patches);
    lemma_tex_patch_records_len(tps.drop_last(), patches);
    if j == tps.len() - 1 {
        assert(tex_patch_records(tps, patches).subrange(10 * j, 10 * j + 10) =~= tex_patch_record(
            tps.last(),
            patches,
        ));
    } else {
        lemma_tex_patch_record_at(tps.drop_last(), patches, j);
        assert(tex_patch_records(tps, patches).subrange(10 * j, 10 * j + 10)
            =~= tex_patch_records(tps.drop_last(), patches).subrange(10 * j, 10 * j + 10));
    }
}

/// Every sub-record of a texture record stores the assigned index of the
/// patch it references: sub-record `j` sits at byte offset `22 + 10j`, its
/// index field holds the referenced patch's assigned index, and in a
/// well-formed graph that index is the patch's position in the table.
pub proof fn lemma_texture1_sub_record_index(g: Matinfo, i: int, j: int)
    requires
        g.wf(),
        0 <= i < g.textures@.len(),
        0 <= j < g.textures@[i].patches@.len(),
    ensures
        tex_record(g.textures@[i], g.patches@).subrange(22 + 10 * j, 32 + 10 * j)
            == tex_patch_record(g.textures@[i].patches@[j], g.patches@),
        tex_patch_record(g.textures@[i].patches@[j], g.patches@).subrange(4, 6) == le16(
            g.patches@[g.textures@[i].patches@[j].patch as int].index,
        ),
        g.patches@[g.textures@[i].patches@[j].patch as int].index == g.textures@[i].patches@[
            j
        ].patch,
{
    let t = g.textures@[i];
    let tp = t.patches@[j];
    lemma_tex_patch_record_at(t.patches@, g.patches@, j);
    lemma_tex_patch_records_len(t.patches@, g.patches@);
    assert(tex_record(t, g.patches@).subrange(22 + 10 * j, 32 + 10 * j) =~= tex_patch_records(
        t.patches@,
        g.patches@,
    ).subrange(10 * j, 10 * j + 10));
    assert(tex_patch_record(tp, g.patches@).subrange(4, 6) =~= le16(
        g.patches@[tp.patch as int].index,
    ));
}

/// The offset table of the texture lump is consistent: the first offset is
/// the header length, and consecutive offsets differ by exactly the encoded
/// length of the record between them.
pub proof fn lemma_offset_table_correct(recs: Seq<Seq<u8>>)
    ensures
        offset_value(recs, 0) == 4 + 4 * recs.len(),
        forall|i: int|
            0 <= i < recs.len() ==> offset_value(recs, i + 1) - offset_value(recs, i)
                == recs[i].len(),
{
    assert forall|i: int|
        0 <= i < recs.len() implies offset_value(recs, i + 1) - offset_value(recs, i) == recs[
        i
    ].len() by {
        assert(total_len(recs, i + 1) == total_len(recs, i) + recs[i].len());
    }
}

/// The offset table takes four bytes per entry.
pub proof fn lemma_offset_table_len(recs: Seq<Seq<u8>>, i: int)
    requires
        0 <= i,
    ensures
        offset_table(recs, i).len() == 4 * i,
    decreases i,
{
    if i > 0 {
        lemma_offset_table_len(recs, i - 1);
    }
}

/// Entry `i` of the offset table holds offset value `i`.
pub proof fn lemma_offset_table_at(recs: Seq<Seq<u8>>, m: int, i: int)
    requires
        0 <= i < m,
    ensures
        offset_table(recs, m).subrange(4 * i, 4 * i + 4) == le32(offset_value(recs, i) as u32),
    decreases m,
{
    lemma_offset_table_len(recs, m);
    lemma_offset_table_len(recs, m - 1);
    if i == m - 1 {
        assert(offset_table(recs, m).subrange(4 * i, 4 * i + 4) =~= le32(
            offset_value(recs, i) as u32,
        ));
    } else {
        lemma_offset_table_at(recs, m - 1, i);
        assert(offset_table(recs, m).subrange(4 * i, 4 * i + 4) =~= offset_table(
            recs,
            m - 1,
        ).subrange(4 * i, 4 * i + 4));
    }
}

/// In the finished texture lump the four bytes at `4 + 4i` are the absolute
/// offset of record `i`.
pub proof fn lemma_texture1_offset_entry(recs: Seq<Seq<u8>>, i: int)
    requires
        0 <= i < recs.len(),
    ensures
        texture1_lump(recs).subrange(4 + 4 * i, 8 + 4 * i) == le32(offset_value(recs, i) as u32),
{
    lemma_offset_table_at(recs, recs.len() as int, i);
    lemma_offset_table_len(recs, recs.len() as int);
    assert(texture1_lump(recs).subrange(4 + 4 * i, 8 + 4 * i) =~= offset_table(
        recs,
        recs.len() as int,
    ).subrange(4 * i, 4 * i + 4));
}

/// Applied to a resolved graph: the first offset is the header length and
/// each offset step is the encoded length of the texture between.
pub proof fn lemma_texture1_offsets(g: Matinfo)
    ensures
        offset_value(graph_tex_records(g), 0) == 4 + 4 * g.textures@.len(),
        forall|i: int|
            0 <= i < g.textures@.len() ==> offset_value(graph_tex_records(g), i + 1)
                - offset_value(graph_tex_records(g), i) == tex_record_len(g.textures@[i]),
{
    let recs = graph_tex_records(g);
    lemma_offset_table_correct(recs);
    assert forall|i: int|
        0 <= i < g.textures@.len() implies offset_value(recs, i + 1) - offset_value(recs, i)
        == tex_record_len(g.textures@[i]) by {
        lemma_tex_record_len(g.textures@[i], g.patches@);
        assert(recs[i] == tex_record(g.textures@[i], g.patches@));
    }
}

/// The concatenated records place record `i` between its length-prefix
/// sums.
pub proof fn lemma_records_concat_len(recs: Seq<Seq<u8>>, m: int)
    requires
        0 <= m <= recs.len(),
    ensures
        records_concat(recs, m).len() == total_len(recs, m),
    decreases m,
{
    if m > 0 {
        lemma_records_concat_len(recs, m - 1);
    }
}

/// Record `i` of the concatenation sits between the sums of the lengths
/// before and up to it.
pub proof fn lemma_records_concat_at(recs: Seq<Seq<u8>>, m: int, i: int)
    requires
        0 <= i < m <= recs.len(),
    ensures
        records_concat(recs, m).subrange(total_len(recs, i), total_len(recs, i + 1)) == recs[i],
    decreases m,
{
    lemma_records_concat_len(recs, m);
    lemma_records_concat_len(recs, m - 1);
    lemma_total_len_mono(recs, i + 1, m);
    lemma_total_len_mono(recs, 0, i);
    if i == m - 1 {
        assert(records_concat(recs, m).subrange(total_len(recs, i), total_len(recs, i + 1))
            =~= recs[i]);
    } else {
        lemma_records_concat_at(recs, m - 1, i);
        lemma_total_len_mono(recs, i + 1, m - 1);
        assert(records_concat(recs, m).subrange(total_len(recs, i), total_len(recs, i + 1))
            =~= records_concat(recs, m - 1).subrange(total_len(recs, i), total_len(recs, i + 1)));
    }
}

/// In the finished texture lump, record `i` occupies exactly the bytes from
/// its table offset up to the next record's offset.
pub proof fn lemma_texture1_record_at(recs: Seq<Seq<u8>>, i: int)
    requires
        0 <= i < recs.len(),
    ensures
        texture1_lump(recs).subrange(offset_value(recs, i), offset_value(recs, i + 1)) == recs[i],
{
    let n = recs.len() as int;
    lemma_offset_table_len(recs, n);
    lemma_records_concat_at(recs, n, i);
    lemma_records_concat_len(recs, n);
    lemma_total_len_mono(recs, 0, i);
    lemma_total_len_mono(recs, i + 1, n);
    assert(texture1_lump(recs).subrange(offset_value(recs, i), offset_value(recs, i + 1))
        =~= records_concat(recs, n).subrange(total_len(recs, i), total_len(recs, i + 1)));
}

/// A first match is unique.
pub proof fn lemma_first_match_unique(names: Seq<Seq<u8>>, t: Seq<u8>, k1: int, k2: int)
    requires
        is_first_match(names, t, k1),
        is_first_match(names, t, k2),
    ensures
        k1 == k2,
{
    if k1 < k2 {
        assert(names[k1] == t);
    } else if k2 < k1 {
        assert(names[k2] == t);
    }
}

/// Two resolutions of one description agree on the patch-name records.
proof fn lemma_pnames_congruence(p1: Seq<Patch>, p2: Seq<Patch>)
    requires
        p1.len() == p2.len(),
        forall|i: int| 0 <= i < p1.len() ==> (#[trigger] p1[i]).name@ == p2[i].name@,
    ensures
        pnames_records(p1) == pnames_records(p2),
    decreases p1.len(),
{
    if p1.len() > 0 {
        lemma_pnames_congruence(p1.drop_last(), p2.drop_last());
        assert(p1.last().name@ == p2.last().name@);
    }
}

/// Two resolutions of one description agree on each texture's sub-records.
proof fn lemma_tex_patch_records_congruence(
    tp1: Seq<TexPatch>,
    ps1: Seq<Patch>,
    tp2: Seq<TexPatch>,
    ps2: Seq<Patch>,
)
    requires
        tp1.len() == tp2.len(),
        forall|j: int|
            0 <= j < tp1.len() ==> {
                let a = #[trigger] tp1[j];
                let b = tp2[j];
                a.x == b.x && a.y == b.y && a.patch == b.patch && 0 <= a.patch < ps1.len()
                    && a.patch < ps2.len() && ps1[a.patch as int].index == ps2[
                    a.patch as int
                ].index
            },
    ensures
        tex_patch_records(tp1, ps1) == tex_patch_records(tp2, ps2),
    decreases tp1.len(),
{
    if tp1.len() > 0 {
        lemma_tex_patch_records_congruence(tp1.drop_last(), ps1, tp2.drop_last(), ps2);
        assert(tex_patch_record(tp1.last(), ps1) == tex_patch_record(tp2.last(), ps2));
    }
}

/// Resolving one description twice binds every reference identically.
pub proof fn lemma_resolve_deterministic(raw: RawMatinfo, g1: Matinfo, g2: Matinfo)
    requires
        resolves(raw, g1),
        resolves(raw, g2),
    ensures
        g1.flats@.len() == g2.flats@.len(),
        forall|i: int|
            0 <= i < g1.flats@.len() ==> (#[trigger] g1.flats@[i]).mat == g2.flats@[i].mat
                && g1.flats@[i].name@ == g2.flats@[i].name@,
        g1.patches@.len() == g2.patches@.len(),
        forall|i: int|
            0 <= i < g1.patches@.len() ==> (#[trigger] g1.patches@[i]).mat == g2.patches@[i].mat
                && g1.patches@[i].name@ == g2.patches@[i].name@ && g1.patches@[i].index
                == g2.patches@[i].index,
        g1.mats@.len() == g2.mats@.len(),
        forall|i: int|
            0 <= i < g1.mats@.len() ==> (#[trigger] g1.mats@[i]).name@ == g2.mats@[i].name@
                && g1.mats@[i].file@ == g2.mats@[i].file@,
        g1.textures@.len() == g2.textures@.len(),
        forall|i: int|
            0 <= i < g1.textures@.len() ==> {
                let a = #[trigger] g1.textures@[i];
                let b = g2.textures@[i];
                &&& a.name@ == b.name@
                &&& a.width == b.width
                &&& a.height == b.height
                &&& a.hscale == b.hscale
                &&& a.vscale == b.vscale
                &&& a.patches@.len() == b.patches@.len()
                &&& forall|j: int|
                    0 <= j < a.patches@.len() ==> {
                        let ta = #[trigger] a.patches@[j];
                        let tb = b.patches@[j];
                        ta.x == tb.x && ta.y == tb.y && ta.patch == tb.patch
                    }
            },
{
    assert forall|i: int|
        0 <= i < g1.flats@.len() implies (#[trigger] g1.flats@[i]).mat == g2.flats@[i].mat
        && g1.flats@[i].name@ == g2.flats@[i].name@ by {
        assert(flat_resolved_at(raw, g1, i));
        assert(flat_resolved_at(raw, g2, i));
        lemma_first_match_unique(
            mat_names(raw),
            raw.flats@[i].mat@,
            g1.flats@[i].mat as int,
            g2.flats@[i].mat as int,
        );
    }
    assert forall|i: int|
        0 <= i < g1.patches@.len() implies (#[trigger] g1.patches@[i]).mat == g2.patches@[i].mat
        && g1.patches@[i].name@ == g2.patches@[i].name@ && g1.patches@[i].index == g2.patches@[
        i
    ].index by {
        assert(patch_resolved_at(raw, g1, i));
        assert(patch_resolved_at(raw, g2, i));
        lemma_first_match_unique(
            mat_names(raw),
            raw.patches@[i].mat@,
            g1.patches@[i].mat as int,
            g2.patches@[i].mat as int,
        );
    }
    assert forall|i: int|
        0 <= i < g1.mats@.len() implies (#[trigger] g1.mats@[i]).name@ == g2.mats@[i].name@
        && g1.mats@[i].file@ == g2.mats@[i].file@ by {
        assert(mat_resolved_at(raw, g1, i));
        assert(mat_resolved_at(raw, g2, i));
    }
    assert forall|i: int|
        0 <= i < g1.textures@.len() implies {
        let a = #[trigger] g1.textures@[i];
        let b = g2.textures@[i];
        &&& a.name@ == b.name@
        &&& a.width == b.width
        &&& a.height == b.height
        &&& a.hscale == b.hscale
        &&& a.vscale == b.vscale
        &&& a.patches@.len() == b.patches@.len()
        &&& forall|j: int|
            0 <= j < a.patches@.len() ==> {
                let ta = #[trigger] a.patches@[j];
                let tb = b.patches@[j];
                ta.x == tb.x && ta.y == tb.y && ta.patch == tb.patch
            }
    } by {
        assert(texture_resolved_at(raw, g1, i));
        assert(texture_resolved_at(raw, g2, i));
        let a = g1.textures@[i];
        let b = g2.textures@[i];
        assert forall|j: int|
            0 <= j < a.patches@.len() implies {
            let ta = #[trigger] a.patches@[j];
            let tb = b.patches@[j];
            ta.x == tb.x && ta.y == tb.y && ta.patch == tb.patch
        } by {
            lemma_first_match_unique(
                patch_names(raw),
                raw.textures@[i].patches@[j].patch@,
                a.patches@[j].patch as int,
                b.patches@[j].patch as int,
            );
        }
    }
}

/// Re-running the pipeline on an unchanged description yields identical
/// lumps, an identical manifest listing and identical link targets; with the
/// pipeline's own contract, which makes success depend on the description
/// alone, a second run also succeeds exactly when the first did.
pub proof fn lemma_rerun_identical(
    raw: RawMatinfo,
    g1: Matinfo,
    g2: Matinfo,
    jobs1: Seq<LinkJob>,
    jobs2: Seq<LinkJob>,
    matdir: Seq<u8>,
    flatdir: Seq<u8>,
)
    requires
        resolves(raw, g1),
        resolves(raw, g2),
        g1.wf(),
        g2.wf(),
        flat_links_ok(jobs1, g1, matdir, flatdir),
        flat_links_ok(jobs2, g2, matdir, flatdir),
    ensures
        pnames_lump(g1.patches@) == pnames_lump(g2.patches@),
        texture1_lump(graph_tex_records(g1)) == texture1_lump(graph_tex_records(g2)),
        manifest_tail(g1) == manifest_tail(g2),
        jobs1.len() == jobs2.len(),
        forall|i: int|
            0 <= i < jobs1.len() ==> (#[trigger] jobs1[i]).source@ == jobs2[i].source@
                && jobs1[i].dest@ == jobs2[i].dest@,
{
    lemma_resolve_deterministic(raw, g1, g2);
    lemma_pnames_congruence(g1.patches@, g2.patches@);
    assert forall|i: int|
        0 <= i < g1.textures@.len() implies #[trigger] graph_tex_records(g1)[i]
        == graph_tex_records(g2)[i] by {
        let a = g1.textures@[i];
        let b = g2.textures@[i];
        lemma_tex_patch_records_congruence(a.patches@, g1.patches@, b.patches@, g2.patches@);
        assert(tex_record(a, g1.patches@) == tex_record(b, g2.patches@));
    }
    assert(graph_tex_records(g1) =~= graph_tex_records(g2));
    assert(flat_names(g1) =~= flat_names(g2)) by {
        assert forall|i: int| 0 <= i < g1.flats@.len() implies flat_names(g1)[i] == flat_names(
            g2,
        )[i] by {
            assert(flat_names(g1)[i] == g1.flats@[i].name@);
            assert(flat_names(g2)[i] == g2.flats@[i].name@);
        }
    }
    assert(graph_patch_names(g1) =~= graph_patch_names(g2)) by {
        assert forall|i: int|
            0 <= i < g1.patches@.len() implies graph_patch_names(g1)[i] == graph_patch_names(
            g2,
        )[i] by {
            assert(graph_patch_names(g1)[i] == g1.patches@[i].name@);
            assert(graph_patch_names(g2)[i] == g2.patches@[i].name@);
        }
    }
    assert forall|i: int|
        0 <= i < jobs1.len() implies (#[trigger] jobs1[i]).source@ == jobs2[i].source@ && jobs1[
        i
    ].dest@ == jobs2[i].dest@ by {}
}

/// The patch link targets are likewise identical across re-runs.
pub proof fn lemma_rerun_patch_links_identical(
    raw: RawMatinfo,
    g1: Matinfo,
    g2: Matinfo,
    jobs1: Seq<LinkJob>,
    jobs2: Seq<LinkJob>,
    matdir: Seq<u8>,
    patchdir: Seq<u8>,
)
    requires
        resolves(raw, g1),
        resolves(raw, g2),
        g1.wf(),
        g2.wf(),
        patch_links_ok(jobs1, g1, matdir, patchdir),
        patch_links_ok(jobs2, g2, matdir, patchdir),
    ensures
        jobs1.len() == jobs2.len(),
        forall|i: int|
            0 <= i < jobs1.len() ==> (#[trigger] jobs1[i]).source@ == jobs2[i].source@
                && jobs1[i].dest@ == jobs2[i].dest@,
{
    lemma_resolve_deterministic(raw, g1, g2);
    assert forall|i: int|
        0 <= i < jobs1.len() implies (#[trigger] jobs1[i]).source@ == jobs2[i].source@ && jobs1[
        i
    ].dest@ == jobs2[i].dest@ by {
        assert(g1.patches@[i].mat == g2.patches@[i].mat);
        assert(g1.patches@[i].mat < g1.mats@.len());
        assert(g1.mats@[g1.patches@[i].mat as int].file@ == g2.mats@[g2.patches@[
            i
        ].mat as int].file@);
        assert(g1.patches@[i].name@ == g2.patches@[i].name@);
    }
}

} // verus!
