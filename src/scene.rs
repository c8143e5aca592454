use vstd::prelude::*;

use crate::lattice::{refreshed_by, SampleCoord, VoxelGrid, VOXEL_COUNT};
use crate::offset::{Offset, OffsetState};

verus! {

/// Everything one evaluation cycle reads and writes: the lattice and the offset.
pub struct VoxelScene {
    pub grid: VoxelGrid,
    pub offset: OffsetState,
}

impl VoxelScene {
    pub open spec fn wf(&self) -> bool {
        &&& self.grid.wf()
        &&& self.offset.wf()
    }

    /// The lattice at startup, with a zero offset that the first cycle consumes.
    pub fn new() -> (s: VoxelScene)
        ensures
            s.wf(),
            s.offset.is_changed(),
            s.offset.value() == (Offset { x: 0, y: 0, z: 0 }),
    {
        VoxelScene { grid: VoxelGrid::new(), offset: OffsetState::new() }
    }

    /// One evaluation cycle. When the offset differs from the one the last cycle
    /// consumed, every voxel's flag is recomputed from `sampler` and the offset is
    /// recorded as consumed; otherwise nothing is sampled and nothing changes.
    /// Returns the number of samples taken.
    pub fn cycle<F: Fn(SampleCoord) -> bool>(&mut self, sampler: &F) -> (evaluations: usize)
        requires
            old(self).wf(),
            forall|c: SampleCoord| call_requires(*sampler, (c,)),
        ensures
            final(self).wf(),
            final(self).offset.value() == old(self).offset.value(),
            !final(self).offset.is_changed(),
            forall|i: int|
                0 <= i < final(self).grid@.len() ==> (#[trigger] final(self).grid@[i]).pos == old(self).grid@[i].pos,
            old(self).offset.is_changed() ==> refreshed_by(final(self).grid@, old(self).offset.value(), *sampler),
            old(self).offset.is_changed() ==> evaluations == VOXEL_COUNT,
            !old(self).offset.is_changed() ==> final(self).grid@ == old(self).grid@,
            !old(self).offset.is_changed() ==> final(self).offset == old(self).offset,
            !old(self).offset.is_changed() ==> evaluations == 0,
    {
        if self.offset.changed() {
            let o = self.offset.get();
            let n = self.grid.refresh(o, sampler);
            self.offset.mark_seen();
            n
        } else {
            0
        }
    }
}

} // verus!
