use vstd::prelude::*;

use crate::lattice::{
    in_lattice, index_of_pos, lemma_index_of_pos, lemma_pos_of_index_in_lattice, pos_of_index,
    refreshed_by, SampleCoord, VoxelGrid, VOXEL_COUNT,
};
use crate::offset::{Offset, OffsetState};
use crate::scene::VoxelScene;

verus! {

/// The lattice holds exactly `VOXEL_COUNT` voxels, no two at the same position,
/// and every cell of the lattice is held by one of them.
pub proof fn lemma_lattice_positions_unique(g: VoxelGrid)
    requires
        g.wf(),
    ensures
        g@.len() == VOXEL_COUNT,
        forall|i: int, j: int|
            0 <= i < g@.len() && 0 <= j < g@.len() && i != j ==> (#[trigger] g@[i]).pos != (#[trigger] g@[j]).pos,
        forall|p| in_lattice(p) ==> (#[trigger] g@[index_of_pos(p)]).pos == p,
{
    assert forall|i: int, j: int|
        0 <= i < g@.len() && 0 <= j < g@.len() && i != j implies (#[trigger] g@[i]).pos != (#[trigger] g@[j]).pos by {
        lemma_pos_of_index_in_lattice(i);
        lemma_pos_of_index_in_lattice(j);
    }
    assert forall|p| in_lattice(p) implies (#[trigger] g@[index_of_pos(p)]).pos == p by {
        lemma_index_of_pos(p);
    }
}

/// Positions never move: any two well-formed scenes, whatever offsets they hold and
/// however many cycles lie between them, place the same position at every index.
pub proof fn lemma_positions_fixed(a: VoxelScene, b: VoxelScene)
    requires
        a.wf(),
        b.wf(),
    ensures
        a.grid@.len() == b.grid@.len(),
        forall|i: int| 0 <= i < a.grid@.len() ==> (#[trigger] a.grid@[i]).pos == b.grid@[i].pos,
{
    assert forall|i: int| 0 <= i < a.grid@.len() implies (#[trigger] a.grid@[i]).pos == b.grid@[i].pos by {
        assert(a.grid@[i].pos == pos_of_index(i));
        assert(b.grid@[i].pos == pos_of_index(i));
    }
}

/// With a sampler that gives one answer per coordinate, two lattices refreshed
/// under the same offset hold the same flags: visibility is reproducible.
pub proof fn lemma_refresh_reproducible<F: Fn(SampleCoord) -> bool>(a: VoxelGrid, b: VoxelGrid, o: Offset, sampler: F)
    requires
        a.wf(),
        b.wf(),
        refreshed_by(a@, o, sampler),
        refreshed_by(b@, o, sampler),
        forall|c: SampleCoord, r1: bool, r2: bool|
            call_ensures(sampler, (c,), r1) && call_ensures(sampler, (c,), r2) ==> r1 == r2,
    ensures
        a@ == b@,
{
    assert forall|i: int| 0 <= i < a@.len() implies #[trigger] a@[i] == b@[i] by {
        assert(a@[i].pos == pos_of_index(i));
        assert(b@[i].pos == pos_of_index(i));
        assert(call_ensures(sampler, (crate::lattice::coord_of(a@[i].pos, o),), a@[i].visible));
        assert(call_ensures(sampler, (crate::lattice::coord_of(b@[i].pos, o),), b@[i].visible));
    }
    assert(a@ =~= b@);
}

/// With a sampler that answers `b` everywhere, a refreshed lattice shows every
/// voxel with flag `b`, whatever the positions and the offset.
pub proof fn lemma_constant_sampler<F: Fn(SampleCoord) -> bool>(g: VoxelGrid, o: Offset, sampler: F, b: bool)
    requires
        refreshed_by(g@, o, sampler),
        forall|c: SampleCoord, r: bool| call_ensures(sampler, (c,), r) ==> r == b,
    ensures
        forall|i: int| 0 <= i < g@.len() ==> (#[trigger] g@[i]).visible == b,
{
}

/// After a cycle has consumed the offset, a write that alters any one component
/// makes the state report a change, so the next cycle recomputes the whole lattice.
pub proof fn lemma_component_write_triggers(s: OffsetState, t: OffsetState)
    requires
        !s.is_changed(),
        t.last_seen() == s.last_seen(),
        t.value().x != s.value().x || t.value().y != s.value().y || t.value().z != s.value().z,
    ensures
        t.is_changed(),
{
}

} // verus!
