//! Entity types of the texture graph: raw name-keyed records as they arrive
//! from the spec source, and the resolved graph in which every name reference
//! has been bound to an index and every patch carries its assigned table
//! index.
//!
//! Names and file paths are held as byte strings: the binary lumps, the
//! manifest listing and the link paths all consume raw bytes.

use vstd::prelude::*;

verus! {

/// One physical source asset: an image file plus licensing and provenance
/// metadata.
pub struct Material {
    pub name: Vec<u8>,
    pub file: Vec<u8>,
    pub spdx: Vec<u8>,
    pub source: Vec<u8>,
}

/// A transform tag attached to a patch declaration.
pub struct Transform(pub Vec<u8>);

/// A floor/ceiling texture entry; `mat` indexes the graph's material table.
pub struct Flat {
    pub name: Vec<u8>,
    pub mat: usize,
}

/// A sub-image usable inside composite textures; `mat` indexes the graph's
/// material table and `index` is the patch's position in the patch-name
/// table, assigned when the graph is resolved.
pub struct Patch {
    pub name: Vec<u8>,
    pub mat: usize,
    pub transforms: Vec<Transform>,
    pub index: u16,
}

impl Patch {

    /// Overwrites the assigned index. The patch-name table holds at most
    /// 65536 entries, so larger positions are not representable.
    pub fn assign_index(&mut self, i: usize)
        requires
            i < 0x10000,
        ensures
            final(self).name == old(self).name,
            final(self).mat == old(self).mat,
            final(self).transforms == old(self).transforms,
            final(self).index == i,
    {
        self.index = i as u16;
    }

    /// Reads the assigned index.
    pub fn index(&self) -> (i: u16)
        ensures
            i == self.index,
    {
        self.index
    }
}

/// A reference from a composite texture to a patch, with its placement
/// offsets; `patch` indexes the graph's patch table.
pub struct TexPatch {
    pub patch: usize,
    pub x: i16,
    pub y: i16,
}

/// A composite wall texture. The scale factors are held as the encoded
/// bytes (factor times eight); `None` means no scale was declared.
pub struct Texture {
    pub name: Vec<u8>,
    pub width: u16,
    pub height: u16,
    pub patches: Vec<TexPatch>,
    pub hscale: Option<u8>,
    pub vscale: Option<u8>,
}

/// A material record as declared in the spec source.
pub struct RawMaterial {
    pub name: Vec<u8>,
    pub file: Vec<u8>,
    pub spdx: Vec<u8>,
    pub source: Vec<u8>,
}

/// A flat record as declared: its material is still a name.
pub struct RawFlat {
    pub name: Vec<u8>,
    pub mat: Vec<u8>,
}

/// A patch record as declared: its material is still a name.
pub struct RawPatch {
    pub name: Vec<u8>,
    pub mat: Vec<u8>,
    pub transforms: Vec<Transform>,
}

/// A patch reference inside a declared texture: still a name.
pub struct RawTexPatch {
    pub patch: Vec<u8>,
    pub x: i16,
    pub y: i16,
}

/// A texture record as declared. The optional scale pair holds the encoded
/// bytes (factor times eight).
pub struct RawTexture {
    pub name: Vec<u8>,
    pub width: u16,
    pub height: u16,
    pub scale: Option<(u8, u8)>,
    pub patches: Vec<RawTexPatch>,
}

/// The whole declarative description, in declaration order: materials,
/// flats, patches and textures, not yet cross-validated.
pub struct RawMatinfo {
    pub mats: Vec<RawMaterial>,
    pub flats: Vec<RawFlat>,
    pub patches: Vec<RawPatch>,
    pub textures: Vec<RawTexture>,
}

/// The resolved entity graph: every name reference bound, every patch
/// carrying its dense table index.
pub struct Matinfo {
    pub mats: Vec<Material>,
    pub flats: Vec<Flat>,
    pub patches: Vec<Patch>,
    pub textures: Vec<Texture>,
}

impl Matinfo {
    /// Well-formedness of a resolved graph: all references are in range and
    /// patch indices are dense, in resolution order.
    pub open spec fn wf(self) -> bool {
        &&& self.patches@.len() <= 0x10000
        &&& forall|i: int|
            0 <= i < self.flats@.len() ==> (#[trigger] self.flats@[i]).mat < self.mats@.len()
        &&& forall|i: int|
            0 <= i < self.patches@.len() ==> (#[trigger] self.patches@[i]).mat
                < self.mats@.len()
        &&& forall|i: int|
            0 <= i < self.patches@.len() ==> (#[trigger] self.patches@[i]).index == i
        &&& forall|i: int, j: int|
            0 <= i < self.textures@.len() && 0 <= j < self.textures@[i].patches@.len()
                ==> (#[trigger] self.textures@[i].patches@[j]).patch < self.patches@.len()
    }
}

} // verus!
