//! The two binary lump encoders: the patch-name table and the
//! composite-texture table. Byte layouts are stated as spec functions and
//! each encoder returns exactly those bytes.

use vstd::prelude::*;

use crate::bytes::{le16, le16i, le32, name8, push_all, push_le16, push_le16i, push_le32, push_name8};
use crate::textures::types::{Patch, TexPatch, Texture};

verus! {

/// The patch-name records: eight bytes for each patch, in index order.
pub open spec fn pnames_records(patches: Seq<Patch>) -> Seq<u8>
    decreases patches.len(),
{
    if patches.len() == 0 {
        Seq::empty()
    } else {
        pnames_records(patches.drop_last()) + name8(patches.last().name@)
    }
}

/// The whole patch-name lump: four-byte little-endian count, then the
/// eight-byte records.
pub open spec fn pnames_lump(patches: Seq<Patch>) -> Seq<u8> {
    le32(patches.len() as u32) + pnames_records(patches)
}

/// The patch-name record table, still unframed.
pub struct Pnames {
    names: Vec<u8>,
}

impl View for Pnames {
    type V = Seq<u8>;

    closed spec fn view(&self) -> Seq<u8> {
        self.names@
    }
}

impl Pnames {
    /// An empty table.
    pub fn new() -> (r: Pnames)
        ensures
            r@ == Seq::<u8>::empty(),
    {
        Pnames { names: Vec::new() }
    }

    /// Appends one name as an eight-byte record and returns the position of
    /// the record, counted in whole records already present.
    pub fn add_name(&mut self, name: &Vec<u8>) -> (i: usize)
        ensures
            final(self)@ == old(self)@ + name8(name@),
            i == old(self)@.len() / 8,
    {
        push_name8(&mut self.names, name);
        (self.names.len() / 8) - 1
    }

    /// Frames the table as the PNAMES lump: the record count, then the
    /// records.
    pub fn write(self) -> (out: Vec<u8>)
        requires
            self@.len() / 8 <= 0xFFFFFFFF,
        ensures
            out@ == le32((self@.len() / 8) as u32) + self@,
    {
        let count: u32 = (self.names.len() / 8) as u32;
        let mut out: Vec<u8> = Vec::new();
        push_le32(&mut out, count);
        push_all(&mut out, &self.names);
        out
    }
}

/// The horizontal scale byte of a texture: eight (factor one) unless a scale
/// was declared.
pub open spec fn hscale_byte(t: Texture) -> u8 {
    match t.hscale {
        Some(s) => s,
        None => 8,
    }
}

/// The vertical scale byte of a texture: eight (factor one) unless a scale
/// was declared.
pub open spec fn vscale_byte(t: Texture) -> u8 {
    match t.vscale {
        Some(s) => s,
        None => 8,
    }
}

/// One ten-byte patch placement sub-record: x, y, the referenced patch's
/// assigned index, and four reserved zero bytes.
pub open spec fn tex_patch_record(tp: TexPatch, patches: Seq<Patch>) -> Seq<u8> {
    le16i(tp.x) + le16i(tp.y) + le16(patches[tp.patch as int].index) + seq![0u8, 0u8, 0u8, 0u8]
}

/// The concatenated patch placement sub-records of a texture, in declared
/// order.
pub open spec fn tex_patch_records(tps: Seq<TexPatch>, patches: Seq<Patch>) -> Seq<u8>
    decreases tps.len(),
{
    if tps.len() == 0 {
        Seq::empty()
    } else {
        tex_patch_records(tps.drop_last(), patches) + tex_patch_record(tps.last(), patches)
    }
}

/// One whole texture record: name, zero flags, scale bytes, width, height,
/// four reserved zero bytes, patch count, then the sub-records.
pub open spec fn tex_record(t: Texture, patches: Seq<Patch>) -> Seq<u8> {
    name8(t.name@) + seq![0u8, 0u8] + seq![hscale_byte(t), vscale_byte(t)] + le16(t.width) + le16(
        t.height,
    ) + seq![0u8, 0u8, 0u8, 0u8] + le16(t.patches@.len() as u16) + tex_patch_records(
        t.patches@,
        patches,
    )
}

/// The byte length of a texture record: a 22-byte fixed prefix plus ten
/// bytes per patch placement.
pub open spec fn tex_record_len(t: Texture) -> int {
    22 + 10 * t.patches@.len() as int
}

/// The sub-records of a texture take ten bytes each.
pub proof fn lemma_tex_patch_records_len(tps: Seq<TexPatch>, patches: Seq<Patch>)
    ensures
        tex_patch_records(tps, patches).len() == 10 * tps.len(),
    decreases tps.len(),
{
    if tps.len() > 0 {
        lemma_tex_patch_records_len(tps.drop_last(), patches);
    }
}

/// A texture record's length is its fixed prefix plus ten bytes per
/// placement.
pub proof fn lemma_tex_record_len(t: Texture, patches: Seq<Patch>)
    ensures
        tex_record(t, patches).len() == tex_record_len(t),
{
    lemma_tex_patch_records_len(t.patches@, patches);
}

/// Appends one patch placement sub-record: x, y, the patch's assigned index
/// and four reserved zero bytes.
pub fn apply_patch(bytes: &mut Vec<u8>, patch: &Patch, x: i16, y: i16)
    ensures
        final(bytes)@ == old(bytes)@ + le16i(x) + le16i(y) + le16(patch.index) + seq![
            0u8,
            0u8,
            0u8,
            0u8,
        ],
{
    push_le16i(bytes, x);
    push_le16i(bytes, y);
    push_le16(bytes, patch.index);
    bytes.push(0);
    bytes.push(0);
    bytes.push(0);
    bytes.push(0);
    assert(bytes@ =~= old(bytes)@ + le16i(x) + le16i(y) + le16(patch.index) + seq![
        0u8,
        0u8,
        0u8,
        0u8,
    ]);
}

/// The sum of the lengths of the first `i` records.
pub open spec fn total_len(recs: Seq<Seq<u8>>, i: int) -> int
    decreases i,
{
    if i <= 0 {
        0
    } else {
        total_len(recs, i - 1) + recs[i - 1].len()
    }
}

/// The absolute byte offset of record `i` in the finished lump: the header
/// (count plus one offset per record) and every preceding record.
pub open spec fn offset_value(recs: Seq<Seq<u8>>, i: int) -> int {
    4 + 4 * recs.len() + total_len(recs, i)
}

/// The first `i` entries of the offset table, four bytes each.
pub open spec fn offset_table(recs: Seq<Seq<u8>>, i: int) -> Seq<u8>
    decreases i,
{
    if i <= 0 {
        Seq::empty()
    } else {
        offset_table(recs, i - 1) + le32(offset_value(recs, i - 1) as u32)
    }
}

/// The first `i` records, concatenated.
pub open spec fn records_concat(recs: Seq<Seq<u8>>, i: int) -> Seq<u8>
    decreases i,
{
    if i <= 0 {
        Seq::empty()
    } else {
        records_concat(recs, i - 1) + recs[i - 1]
    }
}

/// The whole composite-texture lump: count, absolute offset table, then the
/// concatenated records.
pub open spec fn texture1_lump(recs: Seq<Seq<u8>>) -> Seq<u8> {
    le32(recs.len() as u32) + offset_table(recs, recs.len() as int) + records_concat(
        recs,
        recs.len() as int,
    )
}

/// Record length sums grow monotonically and are never negative.
pub proof fn lemma_total_len_mono(recs: Seq<Seq<u8>>, i: int, j: int)
    requires
        0 <= i <= j,
    ensures
        total_len(recs, i) <= total_len(recs, j),
    decreases j,
{
    if i < j {
        lemma_total_len_mono(recs, i, j - 1);
    }
}

/// The composite-texture table under construction: one encoded record per
/// texture, in declared order.
pub struct Texture1 {
    textures: Vec<Vec<u8>>,
}

impl View for Texture1 {
    type V = Seq<Seq<u8>>;

    closed spec fn view(&self) -> Seq<Seq<u8>> {
        self.textures@.map_values(|t: Vec<u8>| t@)
    }
}

impl Texture1 {
    /// An empty table.
    pub fn new() -> (r: Texture1)
        ensures
            r@ == Seq::<Seq<u8>>::empty(),
    {
        let r = Texture1 { textures: Vec::new() };
        assert(r@ =~= Seq::<Seq<u8>>::empty());
        r
    }

    /// Encodes one texture against the resolved patch table and appends its
    /// record. Patch references must be in range; the binary format caps a
    /// record at 65535 placements.
    pub fn push_texture(&mut self, texture: &Texture, patches: &Vec<Patch>)
        requires
            texture.patches@.len() <= 0xFFFF,
            forall|j: int|
                0 <= j < texture.patches@.len() ==> (#[trigger] texture.patches@[j]).patch
                    < patches@.len(),
        ensures
            final(self)@ == old(self)@.push(tex_record(*texture, patches@)),
    {
        let mut bytes: Vec<u8> = Vec::new();
        push_name8(&mut bytes, &texture.name);
        bytes.push(0);
        bytes.push(0);
        let hscale: u8 = match texture.hscale {
            Some(s) => s,
            None => 8,
        };
        let vscale: u8 = match texture.vscale {
            Some(s) => s,
            None => 8,
        };
        bytes.push(hscale);
        bytes.push(vscale);
        push_le16(&mut bytes, texture.width);
        push_le16(&mut bytes, texture.height);
        bytes.push(0);
        bytes.push(0);
        bytes.push(0);
        bytes.push(0);
        push_le16(&mut bytes, texture.patches.len() as u16);
        let ghost prefix = bytes@;
        assert(prefix =~= name8(texture.name@) + seq![0u8, 0u8] + seq![
            hscale_byte(*texture),
            vscale_byte(*texture),
        ] + le16(texture.width) + le16(texture.height) + seq![0u8, 0u8, 0u8, 0u8] + le16(
            texture.patches@.len() as u16,
        ));
        let mut j: usize = 0;
        while j < texture.patches.len()
            invariant
                j <= texture.patches@.len(),
                forall|l: int|
                    0 <= l < texture.patches@.len() ==> (#[trigger] texture.patches@[l]).patch
                        < patches@.len(),
                bytes@ == prefix + tex_patch_records(texture.patches@.take(j as int), patches@),
            decreases texture.patches@.len() - j,
        {
            let tp = &texture.patches[j];
            apply_patch(&mut bytes, &patches[tp.patch], tp.x, tp.y);
            assert(texture.patches@.take(j + 1).drop_last() =~= texture.patches@.take(j as int));
            assert(texture.patches@.take(j + 1).last() == texture.patches@[j as int]);
            assert(bytes@ =~= prefix + tex_patch_records(
                texture.patches@.take(j + 1),
                patches@,
            ));
            j = j + 1;
        }
        assert(texture.patches@.take(texture.patches@.len() as int) =~= texture.patches@);
        assert(bytes@ =~= tex_record(*texture, patches@));
        self.textures.push(bytes);
        assert(self@ =~= old(self)@.push(tex_record(*texture, patches@)));
    }

    /// Frames the finished table as the TEXTURE1 lump: the record count, one
    /// absolute offset per record, then the records. The whole lump must fit
    /// the format's 32-bit offsets.
    pub fn write(self) -> (out: Vec<u8>)
        requires
            self@.len() <= 0xFFFFFFFF,
            offset_value(self@, self@.len() as int) <= 0xFFFFFFFF,
        ensures
            out@ == texture1_lump(self@),
    {
        let ghost recs = self@;
        let n: usize = self.textures.len();
        let mut out: Vec<u8> = Vec::new();
        push_le32(&mut out, n as u32);

        let mut cur: u64 = 4 + 4 * (n as u64);
        let mut i: usize = 0;
        while i < n
            invariant
                recs == self@,
                n == self.textures@.len(),
                n <= 0xFFFFFFFF,
                offset_value(recs, recs.len() as int) <= 0xFFFFFFFF,
                i <= n,
                cur == offset_value(recs, i as int),
                out@ == le32(n as u32) + offset_table(recs, i as int),
            decreases n - i,
        {
            proof {
                lemma_total_len_mono(recs, i as int, recs.len() as int);
                lemma_total_len_mono(recs, 0, i as int);
            }
            push_le32(&mut out, cur as u32);
            proof {
                lemma_total_len_mono(recs, i + 1, recs.len() as int);
                lemma_total_len_mono(recs, 0, i + 1);
            }
            cur = cur + (self.textures[i].len() as u64);
            i = i + 1;
            assert(out@ =~= le32(n as u32) + offset_table(recs, i as int));
        }

        let mut i: usize = 0;
        while i < n
            invariant
                recs == self@,
                n == self.textures@.len(),
                i <= n,
                out@ == le32(n as u32) + offset_table(recs, n as int) + records_concat(
                    recs,
                    i as int,
                ),
            decreases n - i,
        {
            push_all(&mut out, &self.textures[i]);
            i = i + 1;
            assert(out@ =~= le32(n as u32) + offset_table(recs, n as int) + records_concat(
                recs,
                i as int,
            ));
        }
        out
    }
}

} // verus!
