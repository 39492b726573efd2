//! The graph resolver: turns raw name-keyed records into a validated entity
//! graph in which every name reference is bound to a table index, and every
//! patch carries its dense table index, assigned in declaration order during
//! resolution itself.

use vstd::prelude::*;

use crate::textures::types::{
    Flat, Material, Matinfo, Patch, RawMaterial, RawMatinfo, RawPatch, TexPatch, Texture,
    Transform,
};
use crate::bytes::{bytes_eq, clone_bytes};

verus! {

/// A name reference with no matching declaration. Resolution fails
/// atomically: no graph is produced.
pub enum ResolutionError {
    MissingMaterial(Vec<u8>),
    MissingPatch(Vec<u8>),
}

/// The declared material names, in declaration order.
pub open spec fn mat_names(raw: RawMatinfo) -> Seq<Seq<u8>> {
    raw.mats@.map_values(|m: RawMaterial| m.name@)
}

/// The declared patch names, in declaration order.
pub open spec fn patch_names(raw: RawMatinfo) -> Seq<Seq<u8>> {
    raw.patches@.map_values(|p: RawPatch| p.name@)
}

/// Whether `t` occurs among `names`.
pub open spec fn contains_name(names: Seq<Seq<u8>>, t: Seq<u8>) -> bool {
    exists|i: int| 0 <= i < names.len() && names[i] == t
}

/// Whether `k` is the position of the first occurrence of `t` in `names`.
pub open spec fn is_first_match(names: Seq<Seq<u8>>, t: Seq<u8>, k: int) -> bool {
    &&& 0 <= k < names.len()
    &&& names[k] == t
    &&& forall|j: int| 0 <= j < k ==> names[j] != t
}

/// The views of a transform list.
pub open spec fn transforms_view(v: Seq<Transform>) -> Seq<Seq<u8>> {
    v.map_values(|t: Transform| t.0@)
}

/// The scale byte pair a declared texture asks for, if any.
pub open spec fn spec_hscale(scale: Option<(u8, u8)>) -> Option<u8> {
    match scale {
        Some(s) => Some(s.0),
        None => None,
    }
}

/// The scale byte pair a declared texture asks for, if any.
pub open spec fn spec_vscale(scale: Option<(u8, u8)>) -> Option<u8> {
    match scale {
        Some(s) => Some(s.1),
        None => None,
    }
}

/// Every flat's material reference has a declaration.
pub open spec fn flats_resolve(raw: RawMatinfo) -> bool {
    forall|i: int|
        0 <= i < raw.flats@.len() ==> contains_name(
            mat_names(raw),
            (#[trigger] raw.flats@[i]).mat@,
        )
}

/// Every patch's material reference has a declaration.
pub open spec fn patches_resolve(raw: RawMatinfo) -> bool {
    forall|i: int|
        0 <= i < raw.patches@.len() ==> contains_name(
            mat_names(raw),
            (#[trigger] raw.patches@[i]).mat@,
        )
}

/// Every texture's patch reference has a declaration.
pub open spec fn textures_resolve(raw: RawMatinfo) -> bool {
    forall|i: int, j: int|
        0 <= i < raw.textures@.len() && 0 <= j < raw.textures@[i].patches@.len()
            ==> contains_name(
            patch_names(raw),
            (#[trigger] raw.textures@[i].patches@[j]).patch@,
        )
}

/// Every name reference in the raw description has a declaration.
pub open spec fn raw_resolvable(raw: RawMatinfo) -> bool {
    flats_resolve(raw) && patches_resolve(raw) && textures_resolve(raw)
}

/// Material `i` of the graph carries material `i` of the description.
pub open spec fn mat_resolved_at(raw: RawMatinfo, g: Matinfo, i: int) -> bool {
    &&& g.mats@[i].name@ == raw.mats@[i].name@
    &&& g.mats@[i].file@ == raw.mats@[i].file@
    &&& g.mats@[i].spdx@ == raw.mats@[i].spdx@
    &&& g.mats@[i].source@ == raw.mats@[i].source@
}

/// Flat `i` of the graph binds flat `i` of the description to the first
/// material of that name.
pub open spec fn flat_resolved_at(raw: RawMatinfo, g: Matinfo, i: int) -> bool {
    &&& g.flats@[i].name@ == raw.flats@[i].name@
    &&& is_first_match(mat_names(raw), raw.flats@[i].mat@, g.flats@[i].mat as int)
}

/// Patch `i` of the graph binds patch `i` of the description to the first
/// material of that name and carries table index `i`.
pub open spec fn patch_resolved_at(raw: RawMatinfo, g: Matinfo, i: int) -> bool {
    &&& g.patches@[i].name@ == raw.patches@[i].name@
    &&& transforms_view(g.patches@[i].transforms@) == transforms_view(
        raw.patches@[i].transforms@,
    )
    &&& is_first_match(mat_names(raw), raw.patches@[i].mat@, g.patches@[i].mat as int)
    &&& g.patches@[i].index == i
}

/// Texture `i` of the graph carries texture `i` of the description, with
/// every patch reference bound to the first patch of that name.
pub open spec fn texture_resolved_at(raw: RawMatinfo, g: Matinfo, i: int) -> bool {
    &&& g.textures@[i].name@ == raw.textures@[i].name@
    &&& g.textures@[i].width == raw.textures@[i].width
    &&& g.textures@[i].height == raw.textures@[i].height
    &&& g.textures@[i].hscale == spec_hscale(raw.textures@[i].scale)
    &&& g.textures@[i].vscale == spec_vscale(raw.textures@[i].scale)
    &&& g.textures@[i].patches@.len() == raw.textures@[i].patches@.len()
    &&& forall|j: int|
        0 <= j < raw.textures@[i].patches@.len() ==> {
            let tp = #[trigger] g.textures@[i].patches@[j];
            let rp = raw.textures@[i].patches@[j];
            tp.x == rp.x && tp.y == rp.y && is_first_match(patch_names(raw), rp.patch@, tp.patch as int)
        }
}

/// The graph is exactly the resolved image of the description: same entities
/// in declaration order, every reference bound to the first declaration of
/// its name, patch indices dense.
pub open spec fn resolves(raw: RawMatinfo, g: Matinfo) -> bool {
    &&& g.mats@.len() == raw.mats@.len()
    &&& forall|i: int| 0 <= i < raw.mats@.len() ==> #[trigger] mat_resolved_at(raw, g, i)
    &&& g.flats@.len() == raw.flats@.len()
    &&& forall|i: int| 0 <= i < raw.flats@.len() ==> #[trigger] flat_resolved_at(raw, g, i)
    &&& g.patches@.len() == raw.patches@.len()
    &&& forall|i: int| 0 <= i < raw.patches@.len() ==> #[trigger] patch_resolved_at(raw, g, i)
    &&& g.textures@.len() == raw.textures@.len()
    &&& forall|i: int| 0 <= i < raw.textures@.len() ==> #[trigger] texture_resolved_at(raw, g, i)
}

/// Copies a transform list.
fn clone_transforms(v: &Vec<Transform>) -> (r: Vec<Transform>)
    ensures
        transforms_view(r@) == transforms_view(v@),
{
    let mut r: Vec<Transform> = Vec::new();
    let mut i: usize = 0;
    while i < v.len()
        invariant
            i <= v@.len(),
            r@.len() == i,
            forall|j: int| 0 <= j < i ==> (#[trigger] r@[j]).0@ == v@[j].0@,
        decreases v@.len() - i,
    {
        r.push(Transform(clone_bytes(&v[i].0)));
        i = i + 1;
    }
    assert(transforms_view(r@) =~= transforms_view(v@));
    r
}

/// Position of the first material of the given name, if any.
fn find_material(mats: &Vec<RawMaterial>, name: &Vec<u8>) -> (r: Option<usize>)
    ensures
        match r {
            Some(k) => is_first_match(mats@.map_values(|m: RawMaterial| m.name@), name@, k as int),
            None => !contains_name(mats@.map_values(|m: RawMaterial| m.name@), name@),
        },
{
    let ghost names = mats@.map_values(|m: RawMaterial| m.name@);
    let mut i: usize = 0;
    while i < mats.len()
        invariant
            i <= mats@.len(),
            names == mats@.map_values(|m: RawMaterial| m.name@),
            forall|j: int| 0 <= j < i ==> names[j] != name@,
        decreases mats@.len() - i,
    {
        if bytes_eq(&mats[i].name, name) {
            return Some(i);
        }
        i = i + 1;
    }
    None
}

/// Position of the first patch declaration of the given name, if any.
fn find_patch(patches: &Vec<RawPatch>, name: &Vec<u8>) -> (r: Option<usize>)
    ensures
        match r {
            Some(k) => is_first_match(patches@.map_values(|p: RawPatch| p.name@), name@, k as int),
            None => !contains_name(patches@.map_values(|p: RawPatch| p.name@), name@),
        },
{
    let ghost names = patches@.map_values(|p: RawPatch| p.name@);
    let mut i: usize = 0;
    while i < patches.len()
        invariant
            i <= patches@.len(),
            names == patches@.map_values(|p: RawPatch| p.name@),
            forall|j: int| 0 <= j < i ==> names[j] != name@,
        decreases patches@.len() - i,
    {
        if bytes_eq(&patches[i].name, name) {
            return Some(i);
        }
        i = i + 1;
    }
    None
}

impl Matinfo {
    /// Resolves a raw description into a validated graph. Succeeds exactly
    /// when every name reference has a declaration; fails with the offending
    /// name otherwise, producing no graph. Patch table indices are assigned
    /// here, densely and in declaration order, so no patch is ever observable
    /// without a valid index.
    pub fn resolve(raw: &RawMatinfo) -> (r: Result<Matinfo, ResolutionError>)
        requires
            raw.patches@.len() <= 0x10000,
        ensures
            match r {
                Ok(g) => g.wf() && resolves(*raw, g) && raw_resolvable(*raw),
                Err(ResolutionError::MissingMaterial(n)) => {
                    &&& !contains_name(mat_names(*raw), n@)
                    &&& (exists|i: int|
                        0 <= i < raw.flats@.len() && (#[trigger] raw.flats@[i]).mat@ == n@)
                        || (exists|i: int|
                        0 <= i < raw.patches@.len() && (#[trigger] raw.patches@[i]).mat@ == n@)
                },
                Err(ResolutionError::MissingPatch(n)) => {
                    &&& flats_resolve(*raw)
                    &&& patches_resolve(*raw)
                    &&& !contains_name(patch_names(*raw), n@)
                    &&& exists|i: int, j: int|
                        0 <= i < raw.textures@.len() && 0 <= j < raw.textures@[i].patches@.len()
                            && (#[trigger] raw.textures@[i].patches@[j]).patch@ == n@
                },
            },
            (r is Ok) <==> raw_resolvable(*raw),
    {
        let mut mats: Vec<Material> = Vec::new();
        let mut i: usize = 0;
        while i < raw.mats.len()
            invariant
                i <= raw.mats@.len(),
                mats@.len() == i,
                forall|k: int|
                    0 <= k < i ==> {
                        &&& (#[trigger] mats@[k]).name@ == raw.mats@[k].name@
                        &&& mats@[k].file@ == raw.mats@[k].file@
                        &&& mats@[k].spdx@ == raw.mats@[k].spdx@
                        &&& mats@[k].source@ == raw.mats@[k].source@
                    },
            decreases raw.mats@.len() - i,
        {
            let m = &raw.mats[i];
            mats.push(
                Material {
                    name: clone_bytes(&m.name),
                    file: clone_bytes(&m.file),
                    spdx: clone_bytes(&m.spdx),
                    source: clone_bytes(&m.source),
                },
            );
            i = i + 1;
        }

        let mut flats: Vec<Flat> = Vec::new();
        let mut i: usize = 0;
        while i < raw.flats.len()
            invariant
                i <= raw.flats@.len(),
                flats@.len() == i,
                forall|k: int|
                    0 <= k < i ==> {
                        &&& (#[trigger] flats@[k]).name@ == raw.flats@[k].name@
                        &&& is_first_match(
                            mat_names(*raw),
                            raw.flats@[k].mat@,
                            flats@[k].mat as int,
                        )
                    },
                forall|k: int|
                    0 <= k < i ==> contains_name(mat_names(*raw), (#[trigger] raw.flats@[k]).mat@),
            decreases raw.flats@.len() - i,
        {
            let f = &raw.flats[i];
            match find_material(&raw.mats, &f.mat) {
                Some(m) => {
                    flats.push(Flat { name: clone_bytes(&f.name), mat: m });
                },
                None => {
                    return Err(ResolutionError::MissingMaterial(clone_bytes(&f.mat)));
                },
            }
            i = i + 1;
        }

        let mut patches: Vec<Patch> = Vec::new();
        let mut i: usize = 0;
        while i < raw.patches.len()
            invariant
                i <= raw.patches@.len(),
                raw.patches@.len() <= 0x10000,
                patches@.len() == i,
                forall|k: int|
                    0 <= k < i ==> {
                        &&& (#[trigger] patches@[k]).name@ == raw.patches@[k].name@
                        &&& transforms_view(patches@[k].transforms@) == transforms_view(
                            raw.patches@[k].transforms@,
                        )
                        &&& is_first_match(
                            mat_names(*raw),
                            raw.patches@[k].mat@,
                            patches@[k].mat as int,
                        )
                        &&& patches@[k].index == k
                    },
                forall|k: int|
                    0 <= k < i ==> contains_name(
                        mat_names(*raw),
                        (#[trigger] raw.patches@[k]).mat@,
                    ),
            decreases raw.patches@.len() - i,
        {
            let p = &raw.patches[i];
            match find_material(&raw.mats, &p.mat) {
                Some(m) => {
                    patches.push(
                        Patch {
                            name: clone_bytes(&p.name),
                            mat: m,
                            transforms: clone_transforms(&p.transforms),
                            index: i as u16,
                        },
                    );
                },
                None => {
                    return Err(ResolutionError::MissingMaterial(clone_bytes(&p.mat)));
                },
            }
            i = i + 1;
        }

        let mut textures: Vec<Texture> = Vec::new();
        let mut i: usize = 0;
        while i < raw.textures.len()
            invariant
                i <= raw.textures@.len(),
                textures@.len() == i,
                flats_resolve(*raw),
                patches_resolve(*raw),
                forall|k: int|
                    0 <= k < i ==> {
                        &&& (#[trigger] textures@[k]).name@ == raw.textures@[k].name@
                        &&& textures@[k].width == raw.textures@[k].width
                        &&& textures@[k].height == raw.textures@[k].height
                        &&& textures@[k].hscale == spec_hscale(raw.textures@[k].scale)
                        &&& textures@[k].vscale == spec_vscale(raw.textures@[k].scale)
                        &&& textures@[k].patches@.len() == raw.textures@[k].patches@.len()
                        &&& forall|j: int|
                            0 <= j < raw.textures@[k].patches@.len() ==> {
                                let tp = #[trigger] textures@[k].patches@[j];
                                let rp = raw.textures@[k].patches@[j];
                                &&& tp.x == rp.x
                                &&& tp.y == rp.y
                                &&& is_first_match(patch_names(*raw), rp.patch@, tp.patch as int)
                            }
                    },
                forall|k: int, j: int|
                    0 <= k < i && 0 <= j < raw.textures@[k].patches@.len() ==> contains_name(
                        patch_names(*raw),
                        (#[trigger] raw.textures@[k].patches@[j]).patch@,
                    ),
            decreases raw.textures@.len() - i,
        {
            let t = &raw.textures[i];
            let mut tps: Vec<TexPatch> = Vec::new();
            let mut j: usize = 0;
            while j < t.patches.len()
                invariant
                    flats_resolve(*raw),
                    patches_resolve(*raw),
                    i < raw.textures@.len(),
                    *t == raw.textures@[i as int],
                    j <= t.patches@.len(),
                    tps@.len() == j,
                    forall|l: int|
                        0 <= l < j ==> {
                            let tp = #[trigger] tps@[l];
                            let rp = t.patches@[l];
                            &&& tp.x == rp.x
                            &&& tp.y == rp.y
                            &&& is_first_match(patch_names(*raw), rp.patch@, tp.patch as int)
                        },
                    forall|l: int|
                        0 <= l < j ==> contains_name(
                            patch_names(*raw),
                            (#[trigger] t.patches@[l]).patch@,
                        ),
                decreases t.patches@.len() - j,
            {
                let rp = &t.patches[j];
                match find_patch(&raw.patches, &rp.patch) {
                    Some(p) => {
                        tps.push(TexPatch { patch: p, x: rp.x, y: rp.y });
                    },
                    None => {
                        return Err(ResolutionError::MissingPatch(clone_bytes(&rp.patch)));
                    },
                }
                j = j + 1;
            }
            let (hscale, vscale): (Option<u8>, Option<u8>) = match t.scale {
                Some((h, v)) => (Some(h), Some(v)),
                None => (None, None),
            };
            textures.push(
                Texture {
                    name: clone_bytes(&t.name),
                    width: t.width,
                    height: t.height,
                    patches: tps,
                    hscale,
                    vscale,
                },
            );
            i = i + 1;
        }

        let g = Matinfo { mats, flats, patches, textures };
        assert(g.wf()) by {
            assert(forall|k: int|
                0 <= k < g.patches@.len() ==> is_first_match(
                    mat_names(*raw),
                    raw.patches@[k].mat@,
                    (#[trigger] g.patches@[k]).mat as int,
                ));
            assert(mat_names(*raw).len() == g.mats@.len());
        }
        Ok(g)
    }
}

} // verus!
