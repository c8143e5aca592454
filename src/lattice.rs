use vstd::prelude::*;

use crate::offset::Offset;

verus! {

/// Lowest lattice coordinate on each axis; the axis runs up to `AXIS_MIN + AXIS_LEN`, exclusive.
pub const AXIS_MIN: i64 = -5;

/// Number of cells along each axis.
pub const AXIS_LEN: i64 = 10;

/// Number of voxels in the lattice.
pub const VOXEL_COUNT: usize = 1000;

/// Fixed-point units of sampling space per lattice cell: a cell is a tenth of a
/// noise unit, and a noise unit is `OFFSET_UNITS` (1000) fixed-point units.
pub const CELL_UNITS: i64 = 100;

/// The integer coordinate of a lattice cell; its world position is the same triple.
#[derive(Clone, Copy, Debug, PartialEq, Eq, Structural)]
pub struct LatticePos {
    pub x: i64,
    pub y: i64,
    pub z: i64,
}

/// A point of noise space, in thousandths of a noise unit.
#[derive(Clone, Copy, Debug, PartialEq, Eq, Structural)]
pub struct SampleCoord {
    pub x: i64,
    pub y: i64,
    pub z: i64,
}

/// One cell of the lattice: a fixed position and a visibility flag.
#[derive(Clone, Copy, Debug, PartialEq, Eq, Structural)]
pub struct Voxel {
    pub pos: LatticePos,
    pub visible: bool,
}

pub open spec fn axis_in_range(v: int) -> bool {
    AXIS_MIN <= v < AXIS_MIN + AXIS_LEN
}

pub open spec fn in_lattice(p: LatticePos) -> bool {
    &&& axis_in_range(p.x as int)
    &&& axis_in_range(p.y as int)
    &&& axis_in_range(p.z as int)
}

/// The position of the voxel stored at flat index `i`: x varies slowest, z fastest.
pub open spec fn pos_of_index(i: int) -> LatticePos {
    LatticePos {
        x: (i / 100 + AXIS_MIN) as i64,
        y: ((i / 10) % 10 + AXIS_MIN) as i64,
        z: (i % 10 + AXIS_MIN) as i64,
    }
}

/// The flat index of the voxel at position `p`.
pub open spec fn index_of_pos(p: LatticePos) -> int {
    (p.x - AXIS_MIN) * 100 + (p.y - AXIS_MIN) * 10 + (p.z - AXIS_MIN)
}

/// Where the voxel at `p` samples the noise field under offset `o`:
/// its position divided by ten, plus the offset.
pub open spec fn coord_of(p: LatticePos, o: Offset) -> SampleCoord {
    SampleCoord {
        x: (p.x * CELL_UNITS + o.x) as i64,
        y: (p.y * CELL_UNITS + o.y) as i64,
        z: (p.z * CELL_UNITS + o.z) as i64,
    }
}

/// The voxels hold the lattice positions in index order.
pub open spec fn lattice_layout(s: Seq<Voxel>) -> bool {
    &&& s.len() == VOXEL_COUNT
    &&& forall|i: int| 0 <= i < s.len() ==> (#[trigger] s[i]).pos == pos_of_index(i)
}

/// Every voxel's flag is an answer of `sampler` at the voxel's coordinate under `o`.
pub open spec fn refreshed_by<F: Fn(SampleCoord) -> bool>(s: Seq<Voxel>, o: Offset, sampler: F) -> bool {
    forall|i: int|
        0 <= i < s.len() ==> call_ensures(sampler, (coord_of(s[i].pos, o),), (#[trigger] s[i]).visible)
}

pub proof fn lemma_pos_of_index_in_lattice(i: int)
    requires
        0 <= i < VOXEL_COUNT,
    ensures
        in_lattice(pos_of_index(i)),
        index_of_pos(pos_of_index(i)) == i,
{
}

pub proof fn lemma_index_of_pos(p: LatticePos)
    requires
        in_lattice(p),
    ensures
        0 <= index_of_pos(p) < VOXEL_COUNT,
        pos_of_index(index_of_pos(p)) == p,
{
}

/// Computes where the voxel at `p` samples the noise field under offset `o`.
pub fn sample_coord(p: LatticePos, o: Offset) -> (c: SampleCoord)
    requires
        in_lattice(p),
        o.in_range(),
    ensures
        c == coord_of(p, o),
        c.x == p.x * 100 + o.x,
        c.y == p.y * 100 + o.y,
        c.z == p.z * 100 + o.z,
{
    SampleCoord {
        x: p.x * CELL_UNITS + o.x,
        y: p.y * CELL_UNITS + o.y,
        z: p.z * CELL_UNITS + o.z,
    }
}

/// The position of the voxel stored at index `i`.
pub fn position_at(i: usize) -> (p: LatticePos)
    requires
        i < VOXEL_COUNT,
    ensures
        p == pos_of_index(i as int),
        in_lattice(p),
{
    proof {
        lemma_pos_of_index_in_lattice(i as int);
    }
    let i = i as i64;
    LatticePos { x: i / 100 + AXIS_MIN, y: (i / 10) % 10 + AXIS_MIN, z: i % 10 + AXIS_MIN }
}

/// The whole lattice, one voxel per cell, created once.
pub struct VoxelGrid {
    voxels: Vec<Voxel>,
}

impl View for VoxelGrid {
    type V = Seq<Voxel>;

    closed spec fn view(&self) -> Seq<Voxel> {
        self.voxels@
    }
}

impl VoxelGrid {
    pub open spec fn wf(&self) -> bool {
        lattice_layout(self@)
    }

    /// Builds the lattice: one voxel for each cell, every flag set to visible.
    pub fn new() -> (g: VoxelGrid)
        ensures
            g.wf(),
            forall|i: int| 0 <= i < g@.len() ==> (#[trigger] g@[i]).visible,
    {
        let mut voxels: Vec<Voxel> = Vec::with_capacity(VOXEL_COUNT);
        let mut i: usize = 0;
        while i < VOXEL_COUNT
            invariant
                i <= VOXEL_COUNT,
                voxels@.len() == i,
                forall|j: int| 0 <= j < i ==> (#[trigger] voxels@[j]).pos == pos_of_index(j),
                forall|j: int| 0 <= j < i ==> (#[trigger] voxels@[j]).visible,
            decreases VOXEL_COUNT - i,
        {
            let p = position_at(i);
            voxels.push(Voxel { pos: p, visible: true });
            i += 1;
        }
        VoxelGrid { voxels }
    }

    /// Number of voxels.
    pub fn len(&self) -> (n: usize)
        ensures
            n == self@.len(),
    {
        self.voxels.len()
    }

    /// The voxel stored at index `i`.
    pub fn voxel(&self, i: usize) -> (v: Voxel)
        requires
            i < self@.len(),
        ensures
            v == self@[i as int],
    {
        self.voxels[i]
    }

    /// The visibility flag of the voxel at `p`, or `None` when `p` lies outside the lattice.
    pub fn visible_at(&self, p: LatticePos) -> (r: Option<bool>)
        requires
            self.wf(),
        ensures
            in_lattice(p) ==> self@[index_of_pos(p)].pos == p && r == Some(self@[index_of_pos(p)].visible),
            !in_lattice(p) ==> r == None::<bool>,
    {
        if p.x < AXIS_MIN || p.x >= AXIS_MIN + AXIS_LEN || p.y < AXIS_MIN || p.y >= AXIS_MIN + AXIS_LEN
            || p.z < AXIS_MIN || p.z >= AXIS_MIN + AXIS_LEN {
            return None;
        }
        proof {
            lemma_index_of_pos(p);
        }
        let idx = ((p.x - AXIS_MIN) * 100 + (p.y - AXIS_MIN) * 10 + (p.z - AXIS_MIN)) as usize;
        Some(self.voxels[idx].visible)
    }

    /// Recomputes every voxel's flag from `sampler` at the voxel's coordinate under `o`.
    /// Returns the number of samples taken, one per voxel.
    pub fn refresh<F: Fn(SampleCoord) -> bool>(&mut self, o: Offset, sampler: &F) -> (evaluations: usize)
        requires
            old(self).wf(),
            o.in_range(),
            forall|c: SampleCoord| call_requires(*sampler, (c,)),
        ensures
            final(self).wf(),
            forall|i: int| 0 <= i < final(self)@.len() ==> (#[trigger] final(self)@[i]).pos == old(self)@[i].pos,
            refreshed_by(final(self)@, o, *sampler),
            evaluations == VOXEL_COUNT,
    {
        let mut i: usize = 0;
        while i < self.voxels.len()
            invariant
                lattice_layout(self.voxels@),
                i <= self.voxels@.len(),
                o.in_range(),
                forall|c: SampleCoord| call_requires(*sampler, (c,)),
                forall|j: int|
                    0 <= j < i ==> call_ensures(*sampler, (coord_of(self.voxels@[j].pos, o),), (#[trigger] self.voxels@[j]).visible),
            decreases self.voxels@.len() - i,
        {
            let p = self.voxels[i].pos;
            proof {
                lemma_pos_of_index_in_lattice(i as int);
            }
            let visible = sampler(sample_coord(p, o));
            self.voxels.set(i, Voxel { pos: p, visible });
            i += 1;
        }
        i
    }
}

} // verus!
