//! The whole texture pipeline as one pure pass: capacity checks, graph
//! resolution, truncated-name collision detection, lump encoding, manifest
//! listing and hard-link planning. The caller performs the surrounding I/O
//! and writes nothing unless the pass succeeds.

use vstd::prelude::*;

use crate::bytes::{bytes_eq, name8, push_all};
use crate::textures::lumps::{
    lemma_tex_record_len, lemma_total_len_mono, offset_value, pnames_lump, pnames_records,
    tex_record, texture1_lump, total_len, Pnames, Texture1,
};
use crate::textures::resolve::{
    contains_name, flat_resolved_at, mat_names, patch_names, patch_resolved_at, raw_resolvable,
    resolves, texture_resolved_at, ResolutionError,
};
use crate::textures::types::{Flat, Matinfo, Patch, RawMatinfo, RawTexture, Texture};

verus! {

/// Why the pipeline refused a description.
pub enum ProcessError {
    /// A name reference had no declaration.
    Resolution(ResolutionError),
    /// A hard limit of the binary formats was exceeded: more than 65536
    /// distinct patches, more than 65535 placements in one texture, or a
    /// texture lump too large for its 32-bit offsets.
    Capacity,
    /// Two declared names became identical once upper-cased and cut to the
    /// eight bytes the lumps store; the offending later name is reported.
    Collision(Vec<u8>),
}

/// A planned hard link from a material's source file to a named output.
pub struct LinkJob {
    pub source: Vec<u8>,
    pub dest: Vec<u8>,
}

/// A directory entry path: the directory, a separator, the file name.
pub open spec fn path_join(dir: Seq<u8>, name: Seq<u8>) -> Seq<u8> {
    dir + seq![47u8] + name
}

/// An image file name for an entity.
pub open spec fn png_name(name: Seq<u8>) -> Seq<u8> {
    name + seq![46u8, 112u8, 110u8, 103u8]
}

/// Builds `dir/name` as bytes.
fn join_path(dir: &Vec<u8>, name: &Vec<u8>) -> (r: Vec<u8>)
    ensures
        r@ == path_join(dir@, name@),
{
    let mut r: Vec<u8> = Vec::new();
    push_all(&mut r, dir);
    r.push(47);
    push_all(&mut r, name);
    assert(r@ =~= path_join(dir@, name@));
    r
}

/// Builds `dir/name.png` as bytes.
fn join_png_path(dir: &Vec<u8>, name: &Vec<u8>) -> (r: Vec<u8>)
    ensures
        r@ == path_join(dir@, png_name(name@)),
{
    let mut r: Vec<u8> = Vec::new();
    push_all(&mut r, dir);
    r.push(47);
    push_all(&mut r, name);
    r.push(46);
    r.push(112);
    r.push(110);
    r.push(103);
    assert(r@ =~= path_join(dir@, png_name(name@)));
    r
}

/// The eight-byte lump record of a name.
fn name8_of(name: &Vec<u8>) -> (r: Vec<u8>)
    ensures
        r@ == name8(name@),
{
    let mut r: Vec<u8> = Vec::new();
    crate::bytes::push_name8(&mut r, name);
    r
}

/// No two of the names coincide after upper-casing and cutting to eight
/// bytes.
pub open spec fn distinct_name8s(names: Seq<Seq<u8>>) -> bool {
    forall|i: int, j: int| 0 <= i < j < names.len() ==> name8(names[i]) != name8(names[j])
}

/// The names of the graph's flats, in order.
pub open spec fn flat_names(g: Matinfo) -> Seq<Seq<u8>> {
    g.flats@.map_values(|f: Flat| f.name@)
}

/// The names of the graph's patches, in order.
pub open spec fn graph_patch_names(g: Matinfo) -> Seq<Seq<u8>> {
    g.patches@.map_values(|p: Patch| p.name@)
}

/// Looks for two patches whose eight-byte records coincide; reports the
/// positions of the first such pair found.
pub fn patch_name_collision(patches: &Vec<Patch>) -> (r: Option<(usize, usize)>)
    ensures
        match r {
            Some(p) => p.0 < p.1 < patches@.len() && name8(patches@[p.0 as int].name@) == name8(
                patches@[p.1 as int].name@,
            ),
            None => distinct_name8s(patches@.map_values(|p: Patch| p.name@)),
        },
{
    let ghost names = patches@.map_values(|p: Patch| p.name@);
    let mut i: usize = 0;
    while i < patches.len()
        invariant
            i <= patches@.len(),
            names == patches@.map_values(|p: Patch| p.name@),
            forall|a: int, b: int| 0 <= a < b < patches@.len() && a < i ==> name8(names[a])
                != name8(names[b]),
        decreases patches@.len() - i,
    {
        let ni = name8_of(&patches[i].name);
        let mut j: usize = i + 1;
        while j < patches.len()
            invariant
                i < j,
                j <= patches@.len(),
                i < patches@.len(),
                names == patches@.map_values(|p: Patch| p.name@),
                ni@ == name8(names[i as int]),
                forall|b: int| i < b < j ==> name8(names[i as int]) != name8(names[b]),
            decreases patches@.len() - j,
        {
            let nj = name8_of(&patches[j].name);
            if bytes_eq(&ni, &nj) {
                return Some((i, j));
            }
            j = j + 1;
        }
        i = i + 1;
    }
    None
}

/// Looks for two flats whose eight-byte records coincide; reports the
/// positions of the first such pair found.
pub fn flat_name_collision(flats: &Vec<Flat>) -> (r: Option<(usize, usize)>)
    ensures
        match r {
            Some(p) => p.0 < p.1 < flats@.len() && name8(flats@[p.0 as int].name@) == name8(
                flats@[p.1 as int].name@,
            ),
            None => distinct_name8s(flats@.map_values(|f: Flat| f.name@)),
        },
{
    let ghost names = flats@.map_values(|f: Flat| f.name@);
    let mut i: usize = 0;
    while i < flats.len()
        invariant
            i <= flats@.len(),
            names == flats@.map_values(|f: Flat| f.name@),
            forall|a: int, b: int| 0 <= a < b < flats@.len() && a < i ==> name8(names[a])
                != name8(names[b]),
        decreases flats@.len() - i,
    {
        let ni = name8_of(&flats[i].name);
        let mut j: usize = i + 1;
        while j < flats.len()
            invariant
                i < j,
                j <= flats@.len(),
                i < flats@.len(),
                names == flats@.map_values(|f: Flat| f.name@),
                ni@ == name8(names[i as int]),
                forall|b: int| i < b < j ==> name8(names[i as int]) != name8(names[b]),
            decreases flats@.len() - j,
        {
            let nj = name8_of(&flats[j].name);
            if bytes_eq(&ni, &nj) {
                return Some((i, j));
            }
            j = j + 1;
        }
        i = i + 1;
    }
    None
}

/// Encodes the PNAMES lump of a resolved patch table.
pub fn build_pnames(patches: &Vec<Patch>) -> (out: Vec<u8>)
    requires
        patches@.len() <= 0x10000,
    ensures
        out@ == pnames_lump(patches@),
{
    let mut table = Pnames::new();
    let mut k: usize = 0;
    while k < patches.len()
        invariant
            k <= patches@.len(),
            patches@.len() <= 0x10000,
            table@ == pnames_records(patches@.take(k as int)),
            table@.len() == 8 * k,
        decreases patches@.len() - k,
    {
        let i = table.add_name(&patches[k].name);
        assert(i == k);
        assert(patches@.take(k + 1).drop_last() =~= patches@.take(k as int));
        assert(table@ =~= pnames_records(patches@.take(k + 1)));
        k = k + 1;
    }
    assert(patches@.take(patches@.len() as int) =~= patches@);
    let out = table.write();
    assert((8 * patches@.len()) / 8 == patches@.len());
    out
}

/// The composite-texture table records of a resolved graph, in declared
/// order.
pub open spec fn graph_tex_records(g: Matinfo) -> Seq<Seq<u8>> {
    g.textures@.map_values(|t: Texture| tex_record(t, g.patches@))
}

/// Encodes the TEXTURE1 lump of a resolved graph.
pub fn build_texture1(g: &Matinfo) -> (out: Vec<u8>)
    requires
        g.wf(),
        forall|i: int|
            0 <= i < g.textures@.len() ==> (#[trigger] g.textures@[i]).patches@.len() <= 0xFFFF,
        offset_value(graph_tex_records(*g), g.textures@.len() as int) <= 0xFFFFFFFF,
    ensures
        out@ == texture1_lump(graph_tex_records(*g)),
{
    let ghost recs = graph_tex_records(*g);
    let mut t1 = Texture1::new();
    assert(t1@ =~= recs.take(0));
    let mut i: usize = 0;
    while i < g.textures.len()
        invariant
            g.wf(),
            forall|k: int|
                0 <= k < g.textures@.len() ==> (#[trigger] g.textures@[k]).patches@.len()
                    <= 0xFFFF,
            recs == graph_tex_records(*g),
            i <= g.textures@.len(),
            t1@ == recs.take(i as int),
        decreases g.textures@.len() - i,
    {
        t1.push_texture(&g.textures[i], &g.patches);
        assert(t1@ =~= recs.take(i + 1));
        i = i + 1;
    }
    assert(recs.take(recs.len() as int) =~= recs);
    proof {
        lemma_total_len_mono(recs, 0, recs.len() as int);
    }
    t1.write()
}

/// The `[flats]` section header line.
pub open spec fn flats_header() -> Seq<u8> {
    seq![91u8, 102u8, 108u8, 97u8, 116u8, 115u8, 93u8, 10u8]
}

/// The `[patches]` section header line.
pub open spec fn patches_header() -> Seq<u8> {
    seq![91u8, 112u8, 97u8, 116u8, 99u8, 104u8, 101u8, 115u8, 93u8, 10u8]
}

/// One name per line.
pub open spec fn names_block(names: Seq<Seq<u8>>) -> Seq<u8>
    decreases names.len(),
{
    if names.len() == 0 {
        Seq::empty()
    } else {
        names_block(names.drop_last()) + names.last() + seq![10u8]
    }
}

/// What the pipeline appends to the copied manifest stream: a `[flats]`
/// listing and a `[patches]` listing, both in resolution order.
pub open spec fn manifest_tail(g: Matinfo) -> Seq<u8> {
    flats_header() + names_block(flat_names(g)) + patches_header() + names_block(
        graph_patch_names(g),
    )
}

/// Builds the manifest listing appended after the copied stream.
pub fn build_manifest_tail(g: &Matinfo) -> (out: Vec<u8>)
    ensures
        out@ == manifest_tail(*g),
{
    let mut out: Vec<u8> = Vec::new();
    out.push(91);
    out.push(102);
    out.push(108);
    out.push(97);
    out.push(116);
    out.push(115);
    out.push(93);
    out.push(10);
    assert(out@ =~= flats_header());
    let ghost fnames = flat_names(*g);
    let mut i: usize = 0;
    while i < g.flats.len()
        invariant
            fnames == flat_names(*g),
            i <= g.flats@.len(),
            out@ == flats_header() + names_block(fnames.take(i as int)),
        decreases g.flats@.len() - i,
    {
        push_all(&mut out, &g.flats[i].name);
        out.push(10);
        assert(fnames.take(i + 1).drop_last() =~= fnames.take(i as int));
        assert(out@ =~= flats_header() + names_block(fnames.take(i + 1)));
        i = i + 1;
    }
    assert(fnames.take(fnames.len() as int) =~= fnames);
    out.push(91);
    out.push(112);
    out.push(97);
    out.push(116);
    out.push(99);
    out.push(104);
    out.push(101);
    out.push(115);
    out.push(93);
    out.push(10);
    let ghost mid = flats_header() + names_block(fnames) + patches_header();
    assert(out@ =~= mid);
    let ghost pnames_seq = graph_patch_names(*g);
    let mut i: usize = 0;
    while i < g.patches.len()
        invariant
            fnames == flat_names(*g),
            pnames_seq == graph_patch_names(*g),
            mid == flats_header() + names_block(fnames) + patches_header(),
            i <= g.patches@.len(),
            out@ == mid + names_block(pnames_seq.take(i as int)),
        decreases g.patches@.len() - i,
    {
        push_all(&mut out, &g.patches[i].name);
        out.push(10);
        assert(pnames_seq.take(i + 1).drop_last() =~= pnames_seq.take(i as int));
        assert(out@ =~= mid + names_block(pnames_seq.take(i + 1)));
        i = i + 1;
    }
    assert(pnames_seq.take(pnames_seq.len() as int) =~= pnames_seq);
    out
}

/// The flat hard-link plan is exactly one job per flat: the material's
/// source file linked to `flatdir/<name>.png`.
pub open spec fn flat_links_ok(jobs: Seq<LinkJob>, g: Matinfo, matdir: Seq<u8>, flatdir: Seq<u8>) -> bool {
    &&& jobs.len() == g.flats@.len()
    &&& forall|i: int|
        0 <= i < jobs.len() ==> {
            let j = #[trigger] jobs[i];
            &&& j.source@ == path_join(matdir, g.mats@[g.flats@[i].mat as int].file@)
            &&& j.dest@ == path_join(flatdir, png_name(g.flats@[i].name@))
        }
}

/// The patch hard-link plan is exactly one job per patch: the material's
/// source file linked to `patchdir/<name>.png`.
pub open spec fn patch_links_ok(jobs: Seq<LinkJob>, g: Matinfo, matdir: Seq<u8>, patchdir: Seq<u8>) -> bool {
    &&& jobs.len() == g.patches@.len()
    &&& forall|i: int|
        0 <= i < jobs.len() ==> {
            let j = #[trigger] jobs[i];
            &&& j.source@ == path_join(matdir, g.mats@[g.patches@[i].mat as int].file@)
            &&& j.dest@ == path_join(patchdir, png_name(g.patches@[i].name@))
        }
}

/// Plans the hard links for the graph's flats. Every patch and flat is
/// materialized under its own name, even when several share one material.
pub fn build_flat_links(g: &Matinfo, matdir: &Vec<u8>, flatdir: &Vec<u8>) -> (jobs: Vec<LinkJob>)
    requires
        g.wf(),
    ensures
        flat_links_ok(jobs@, *g, matdir@, flatdir@),
{
    let mut jobs: Vec<LinkJob> = Vec::new();
    let mut i: usize = 0;
    while i < g.flats.len()
        invariant
            g.wf(),
            i <= g.flats@.len(),
            jobs@.len() == i,
            forall|k: int|
                0 <= k < i ==> {
                    let j = #[trigger] jobs@[k];
                    &&& j.source@ == path_join(matdir@, g.mats@[g.flats@[k].mat as int].file@)
                    &&& j.dest@ == path_join(flatdir@, png_name(g.flats@[k].name@))
                },
        decreases g.flats@.len() - i,
    {
        let f = &g.flats[i];
        let source = join_path(matdir, &g.mats[f.mat].file);
        let dest = join_png_path(flatdir, &f.name);
        jobs.push(LinkJob { source, dest });
        i = i + 1;
    }
    jobs
}

/// Plans the hard links for the graph's patches.
pub fn build_patch_links(g: &Matinfo, matdir: &Vec<u8>, patchdir: &Vec<u8>) -> (jobs: Vec<
    LinkJob,
>)
    requires
        g.wf(),
    ensures
        patch_links_ok(jobs@, *g, matdir@, patchdir@),
{
    let mut jobs: Vec<LinkJob> = Vec::new();
    let mut i: usize = 0;
    while i < g.patches.len()
        invariant
            g.wf(),
            i <= g.patches@.len(),
            jobs@.len() == i,
            forall|k: int|
                0 <= k < i ==> {
                    let j = #[trigger] jobs@[k];
                    &&& j.source@ == path_join(matdir@, g.mats@[g.patches@[k].mat as int].file@)
                    &&& j.dest@ == path_join(patchdir@, png_name(g.patches@[k].name@))
                },
        decreases g.patches@.len() - i,
    {
        let p = &g.patches[i];
        let source = join_path(matdir, &g.mats[p.mat].file);
        let dest = join_png_path(patchdir, &p.name);
        jobs.push(LinkJob { source, dest });
        i = i + 1;
    }
    jobs
}

/// The encoded length of the first `i` declared textures, before
/// resolution: a 22-byte prefix plus ten bytes per placement each.
pub open spec fn raw_tex1_sum(textures: Seq<RawTexture>, i: int) -> int
    decreases i,
{
    if i <= 0 {
        0
    } else {
        raw_tex1_sum(textures, i - 1) + 22 + 10 * textures[i - 1].patches@.len() as int
    }
}

/// The hard limits of the binary formats: at most 65536 distinct patches, at
/// most 65535 placements per texture, and a texture lump small enough for
/// its 32-bit absolute offsets.
pub open spec fn capacity_ok(raw: RawMatinfo) -> bool {
    &&& raw.patches@.len() <= 0x10000
    &&& forall|i: int|
        0 <= i < raw.textures@.len() ==> (#[trigger] raw.textures@[i]).patches@.len() <= 0xFFFF
    &&& 4 + 4 * raw.textures@.len() as int + raw_tex1_sum(
        raw.textures@,
        raw.textures@.len() as int,
    ) <= 0xFFFFFFFF
}

/// Declared texture lengths sum monotonically.
proof fn lemma_raw_sum_mono(textures: Seq<RawTexture>, i: int, j: int)
    requires
        0 <= i <= j,
    ensures
        raw_tex1_sum(textures, i) <= raw_tex1_sum(textures, j),
    decreases j,
{
    if i < j {
        lemma_raw_sum_mono(textures, i, j - 1);
    }
}

/// On a resolved graph the encoded record lengths match the declared
/// counts.
proof fn lemma_records_sum(raw: RawMatinfo, g: Matinfo, i: int)
    requires
        resolves(raw, g),
        0 <= i <= g.textures@.len(),
    ensures
        total_len(graph_tex_records(g), i) == raw_tex1_sum(
            raw.textures@,
            i,
        ),
    decreases i,
{
    if i > 0 {
        lemma_records_sum(raw, g, i - 1);
        assert(texture_resolved_at(raw, g, i - 1));
        lemma_tex_record_len(g.textures@[i - 1], g.patches@);
    }
}

/// Tests the raw description against the binary formats' hard limits.
pub fn check_capacity(raw: &RawMatinfo) -> (r: bool)
    ensures
        r == capacity_ok(*raw),
{
    if raw.patches.len() > 0x10000 {
        return false;
    }
    let mut total: u64 = 4;
    let mut i: usize = 0;
    while i < raw.textures.len()
        invariant
            raw.patches@.len() <= 0x10000,
            i <= raw.textures@.len(),
            total == 4 + 4 * i + raw_tex1_sum(raw.textures@, i as int),
            total <= 0xFFFFFFFF,
            forall|k: int|
                0 <= k < i ==> (#[trigger] raw.textures@[k]).patches@.len() <= 0xFFFF,
        decreases raw.textures@.len() - i,
    {
        let np = raw.textures[i].patches.len();
        if np > 0xFFFF {
            return false;
        }
        total = total + 26 + 10 * (np as u64);
        if total > 0xFFFFFFFF {
            proof {
                lemma_raw_sum_mono(raw.textures@, i + 1, raw.textures@.len() as int);
            }
            return false;
        }
        i = i + 1;
    }
    true
}

/// The names of the declared flats, in order.
pub open spec fn raw_flat_names(raw: RawMatinfo) -> Seq<Seq<u8>> {
    raw.flats@.map_values(|f: crate::textures::types::RawFlat| f.name@)
}

/// Everything the pipeline produces on success. The caller copies the input
/// manifest stream, appends `manifest_tail`, writes the two lumps and
/// performs the planned links.
pub struct TextureOutput {
    pub graph: Matinfo,
    pub pnames: Vec<u8>,
    pub texture1: Vec<u8>,
    pub manifest_tail: Vec<u8>,
    pub flat_links: Vec<LinkJob>,
    pub patch_links: Vec<LinkJob>,
}

/// Runs the whole pure pass over a raw description: capacity checks, graph
/// resolution, truncated-name collision detection, then both lump encoders,
/// the manifest listing and the hard-link plans. Succeeds exactly when the
/// description is within the formats' limits, every name reference
/// resolves, and no two flat or patch names collide once cut to eight
/// bytes; nothing is produced otherwise.
pub fn process_textures(
    raw: &RawMatinfo,
    matdir: &Vec<u8>,
    flatfolder: &Vec<u8>,
    patchfolder: &Vec<u8>,
) -> (r: Result<TextureOutput, ProcessError>)
    ensures
        match r {
            Ok(out) => {
                &&& capacity_ok(*raw)
                &&& raw_resolvable(*raw)
                &&& out.graph.wf()
                &&& resolves(*raw, out.graph)
                &&& distinct_name8s(graph_patch_names(out.graph))
                &&& distinct_name8s(flat_names(out.graph))
                &&& out.pnames@ == pnames_lump(out.graph.patches@)
                &&& out.texture1@ == texture1_lump(graph_tex_records(out.graph))
                &&& out.manifest_tail@ == manifest_tail(out.graph)
                &&& flat_links_ok(out.flat_links@, out.graph, matdir@, flatfolder@)
                &&& patch_links_ok(out.patch_links@, out.graph, matdir@, patchfolder@)
            },
            Err(ProcessError::Capacity) => !capacity_ok(*raw),
            Err(ProcessError::Resolution(e)) => {
                &&& capacity_ok(*raw)
                &&& !raw_resolvable(*raw)
                &&& match e {
                    ResolutionError::MissingMaterial(n) => !contains_name(
                        mat_names(*raw),
                        n@,
                    ),
                    ResolutionError::MissingPatch(n) => !contains_name(
                        patch_names(*raw),
                        n@,
                    ),
                }
            },
            Err(ProcessError::Collision(n)) => {
                &&& capacity_ok(*raw)
                &&& raw_resolvable(*raw)
                &&& !(distinct_name8s(patch_names(*raw))
                    && distinct_name8s(raw_flat_names(*raw)))
            },
        },
        (r is Ok) <==> (capacity_ok(*raw) && raw_resolvable(*raw) && distinct_name8s(
            patch_names(*raw),
        ) && distinct_name8s(raw_flat_names(*raw))),
{
    if !check_capacity(raw) {
        return Err(ProcessError::Capacity);
    }
    let g = match Matinfo::resolve(raw) {
        Ok(g) => g,
        Err(e) => {
            return Err(ProcessError::Resolution(e));
        },
    };
    proof {
        assert forall|i: int| 0 <= i < g.patches@.len() implies graph_patch_names(g)[i]
            == patch_names(*raw)[i] by {
            assert(patch_resolved_at(*raw, g, i));
        }
        assert(graph_patch_names(g) =~= patch_names(*raw));
        assert forall|i: int| 0 <= i < g.flats@.len() implies flat_names(g)[i] == raw_flat_names(
            *raw,
        )[i] by {
            assert(flat_resolved_at(*raw, g, i));
        }
        assert(flat_names(g) =~= raw_flat_names(*raw));
    }
    if let Some(pair) = patch_name_collision(&g.patches) {
        proof {
            let names = patch_names(*raw);
            assert(names[pair.0 as int] == g.patches@[pair.0 as int].name@);
            assert(names[pair.1 as int] == g.patches@[pair.1 as int].name@);
            assert(!distinct_name8s(names));
        }
        let n = crate::bytes::clone_bytes(&g.patches[pair.1].name);
        return Err(ProcessError::Collision(n));
    }
    if let Some(pair) = flat_name_collision(&g.flats) {
        proof {
            let names = raw_flat_names(*raw);
            assert(names[pair.0 as int] == g.flats@[pair.0 as int].name@);
            assert(names[pair.1 as int] == g.flats@[pair.1 as int].name@);
            assert(!distinct_name8s(names));
        }
        let n = crate::bytes::clone_bytes(&g.flats[pair.1].name);
        return Err(ProcessError::Collision(n));
    }
    let pnames = build_pnames(&g.patches);
    proof {
        lemma_records_sum(*raw, g, g.textures@.len() as int);
        assert(graph_tex_records(g).len() == raw.textures@.len());
        assert forall|i: int| 0 <= i < g.textures@.len() implies (#[trigger] g.textures@[
            i
        ]).patches@.len() <= 0xFFFF by {
            assert(texture_resolved_at(*raw, g, i));
            assert(raw.textures@[i].patches@.len() <= 0xFFFF);
        }
    }
    let texture1 = build_texture1(&g);
    let manifest_tail = build_manifest_tail(&g);
    let flat_links = build_flat_links(&g, matdir, flatfolder);
    let patch_links = build_patch_links(&g, matdir, patchfolder);
    Ok(TextureOutput { graph: g, pnames, texture1, manifest_tail, flat_links, patch_links })
}

} // verus!
