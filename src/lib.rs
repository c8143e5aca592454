//! A fixed 10×10×10 lattice of voxels whose visibility follows a noise field
//! sampled at each voxel's scaled position plus a user-set offset. The flags are
//! recomputed, all at once, only in a cycle where the offset has changed.

pub mod lattice;
pub mod laws;
pub mod offset;
pub mod scene;
