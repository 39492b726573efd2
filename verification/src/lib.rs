//! Build-time asset tooling for a classic level-editing pipeline: it resolves
//! a name-indexed description of materials, flats, patches and composite
//! textures into a validated graph and encodes the binary lumps (PNAMES,
//! TEXTURE1) that the packaging step consumes, together with a handful of
//! smaller byte producers (bootstrap archive, GENMIDI records, colormap
//! search, GUS patch-set selection).

pub mod bootstrap;
pub mod bytes;
pub mod colormap;
pub mod dmxgus;
pub mod genmidi;
pub mod textures;
