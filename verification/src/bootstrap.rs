//! The minimal bootstrap archive: a bare IWAD holding a palette, an empty
//! composite-texture lump and a one-entry patch-name lump, enough for the
//! packaging tool to accept as its base. The caller reads the palette bytes
//! and writes the archive out.

use vstd::prelude::*;

use crate::bytes::{le32, push_all, push_le32};

verus! {

/// The empty TEXTURE1 lump: a zero record count.
pub open spec fn empty_texture1() -> Seq<u8> {
    seq![0u8, 0u8, 0u8, 0u8]
}

/// The one-entry PNAMES lump: a count of one and a single null name.
pub open spec fn null_pnames() -> Seq<u8> {
    seq![1u8, 0u8, 0u8, 0u8, 0u8, 0u8, 0u8, 0u8, 0u8, 0u8, 0u8, 0u8]
}

/// The directory entry of one lump: its absolute position, its length, and
/// its name padded to eight bytes.
pub open spec fn waddir_entry(pos: u32, len: u32, name: Seq<u8>) -> Seq<u8> {
    le32(pos) + le32(len) + name
}

/// The whole bootstrap archive: the IWAD header (magic, lump count,
/// directory position), the three lumps back to back, then the directory.
pub open spec fn bootstrap_wad_spec(playpal: Seq<u8>) -> Seq<u8> {
    seq![73u8, 87u8, 65u8, 68u8] + le32(3) + le32((28 + playpal.len()) as u32) + playpal
        + empty_texture1() + null_pnames() + waddir_entry(
        12,
        playpal.len() as u32,
        seq![80u8, 76u8, 65u8, 89u8, 80u8, 65u8, 76u8, 0u8],
    ) + waddir_entry(
        (12 + playpal.len()) as u32,
        4,
        seq![84u8, 69u8, 88u8, 84u8, 85u8, 82u8, 69u8, 49u8],
    ) + waddir_entry(
        (16 + playpal.len()) as u32,
        12,
        seq![80u8, 78u8, 65u8, 77u8, 69u8, 83u8, 0u8, 0u8],
    )
}

/// Encodes the bootstrap archive around the given palette bytes. The
/// archive's directory uses 32-bit positions, which bounds the palette.
#[verifier::rlimit(60)]
pub fn bootstrap_wad(playpal: &Vec<u8>) -> (out: Vec<u8>)
    requires
        playpal@.len() + 28 <= 0xFFFFFFFF,
    ensures
        out@ == bootstrap_wad_spec(playpal@),
{
    let mut out: Vec<u8> = Vec::new();
    out.push(73);
    out.push(87);
    out.push(65);
    out.push(68);
    push_le32(&mut out, 3);
    push_le32(&mut out, (28 + playpal.len()) as u32);
    push_all(&mut out, playpal);
    out.push(0);
    out.push(0);
    out.push(0);
    out.push(0);
    out.push(1);
    out.push(0);
    out.push(0);
    out.push(0);
    out.push(0);
    out.push(0);
    out.push(0);
    out.push(0);
    out.push(0);
    out.push(0);
    out.push(0);
    out.push(0);
    push_le32(&mut out, 12);
    push_le32(&mut out, playpal.len() as u32);
    out.push(80);
    out.push(76);
    out.push(65);
    out.push(89);
    out.push(80);
    out.push(65);
    out.push(76);
    out.push(0);
    push_le32(&mut out, (12 + playpal.len()) as u32);
    push_le32(&mut out, 4);
    out.push(84);
    out.push(69);
    out.push(88);
    out.push(84);
    out.push(85);
    out.push(82);
    out.push(69);
    out.push(49);
    push_le32(&mut out, (16 + playpal.len()) as u32);
    push_le32(&mut out, 12);
    out.push(80);
    out.push(78);
    out.push(65);
    out.push(77);
    out.push(69);
    out.push(83);
    out.push(0);
    out.push(0);
    assert(out@ =~= bootstrap_wad_spec(playpal@));
    out
}

} // verus!
