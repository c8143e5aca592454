use std::cell::Cell;

use noise::{NoiseFn, Perlin};
use voxel_noise::lattice::{position_at, sample_coord, LatticePos, SampleCoord, VoxelGrid, VOXEL_COUNT};
use voxel_noise::offset::{clamp_offset, Offset, OffsetState};
use voxel_noise::scene::VoxelScene;

const THRESHOLD: f64 = 0.05;

fn to_point(c: SampleCoord) -> [f64; 3] {
    [c.x as f64 / 1000.0, c.y as f64 / 1000.0, c.z as f64 / 1000.0]
}

fn flags(grid: &VoxelGrid) -> Vec<bool> {
    (0..grid.len()).map(|i| grid.voxel(i).visible).collect()
}

fn positions(grid: &VoxelGrid) -> Vec<LatticePos> {
    (0..grid.len()).map(|i| grid.voxel(i).pos).collect()
}

#[test]
fn perlin_visibility_is_reproducible() {
    let run = || {
        let perlin = Perlin::default();
        let mut scene = VoxelScene::new();
        scene.cycle(&|c: SampleCoord| perlin.get(to_point(c)) >= THRESHOLD);
        flags(&scene.grid)
    };
    assert_eq!(run(), run());
}

#[test]
fn grid_has_thousand_unique_voxels() {
    let grid = VoxelGrid::new();
    assert_eq!(grid.len(), 1000);
    assert_eq!(VOXEL_COUNT, 1000);
    let mut seen = std::collections::HashSet::new();
    for p in positions(&grid) {
        assert!(p.x >= -5 && p.x < 5 && p.y >= -5 && p.y < 5 && p.z >= -5 && p.z < 5);
        assert!(seen.insert((p.x, p.y, p.z)));
    }
    assert_eq!(seen.len(), 1000);
    assert_eq!(grid.voxel(0).pos, LatticePos { x: -5, y: -5, z: -5 });
    assert_eq!(grid.voxel(999).pos, LatticePos { x: 4, y: 4, z: 4 });
    assert_eq!(position_at(123), LatticePos { x: -4, y: -3, z: -2 });
}

#[test]
fn positions_survive_offset_changes() {
    let mut scene = VoxelScene::new();
    let before = positions(&scene.grid);
    let sampler = |c: SampleCoord| (c.x + c.y + c.z) % 3 == 0;
    for v in [0i64, 2500, -7000, 10000, 123] {
        scene.offset.set_x(v);
        scene.offset.set_y(-v);
        scene.offset.set_z(v / 2);
        scene.cycle(&sampler);
        assert_eq!(positions(&scene.grid), before);
        assert_eq!(scene.grid.len(), 1000);
    }
}

#[test]
fn unchanged_offset_samples_nothing() {
    let count = Cell::new(0usize);
    let sampler = |c: SampleCoord| {
        count.set(count.get() + 1);
        c.x > 0
    };
    let mut scene = VoxelScene::new();
    assert_eq!(scene.cycle(&sampler), 1000);
    assert_eq!(count.get(), 1000);
    let after_first = flags(&scene.grid);
    assert_eq!(scene.cycle(&sampler), 0);
    assert_eq!(count.get(), 1000);
    // writing the same value again is no change
    scene.offset.set_x(0);
    assert!(!scene.offset.changed());
    assert_eq!(scene.cycle(&sampler), 0);
    assert_eq!(count.get(), 1000);
    assert_eq!(flags(&scene.grid), after_first);
}

#[test]
fn any_component_change_recomputes_all() {
    let count = Cell::new(0usize);
    let sampler = |c: SampleCoord| {
        count.set(count.get() + 1);
        c.z >= 0
    };
    let mut scene = VoxelScene::new();
    scene.cycle(&sampler);
    for axis in 0..3 {
        count.set(0);
        match axis {
            0 => scene.offset.set_x(1),
            1 => scene.offset.set_y(1),
            _ => scene.offset.set_z(1),
        }
        assert!(scene.offset.changed());
        assert_eq!(scene.cycle(&sampler), 1000);
        assert_eq!(count.get(), 1000);
        assert!(!scene.offset.changed());
    }
    // z offset is 1 thousandth: every voxel with z >= 0 samples z >= 1
    for i in 0..1000 {
        let v = scene.grid.voxel(i);
        assert_eq!(v.visible, v.pos.z >= 0);
    }
}

#[test]
fn constant_noise_follows_threshold() {
    for (value, expected) in [(0.05f64, true), (0.9, true), (0.049, false), (-1.0, false)] {
        let mut scene = VoxelScene::new();
        scene.offset.set_x(-3000);
        scene.offset.set_y(4500);
        scene.cycle(&|_c: SampleCoord| value >= THRESHOLD);
        assert!(flags(&scene.grid).iter().all(|&f| f == expected));
    }
}

#[test]
fn slider_writes_are_clamped() {
    let mut s = OffsetState::new();
    s.set_x(25_000);
    s.set_y(-10_001);
    s.set_z(-10_000);
    assert_eq!(s.get(), Offset { x: 10_000, y: -10_000, z: -10_000 });
    s.set_x(i64::MIN);
    s.set_y(i64::MAX);
    s.set_z(9_999);
    assert_eq!(s.get(), Offset { x: -10_000, y: 10_000, z: 9_999 });
    assert_eq!(clamp_offset(0), 0);
    assert_eq!(clamp_offset(-50_000), -10_000);
    assert_eq!(clamp_offset(10_001), 10_000);
}

#[test]
fn origin_samples_origin_and_is_hidden() {
    let origin = LatticePos { x: 0, y: 0, z: 0 };
    assert_eq!(sample_coord(origin, Offset::zero()), SampleCoord { x: 0, y: 0, z: 0 });
    let stub = |c: SampleCoord| -> f64 {
        if c == (SampleCoord { x: 0, y: 0, z: 0 }) { 0.0 } else { 1.0 }
    };
    let mut scene = VoxelScene::new();
    scene.cycle(&|c: SampleCoord| stub(c) >= THRESHOLD);
    assert_eq!(scene.grid.visible_at(origin), Some(false));
    assert_eq!(scene.grid.visible_at(LatticePos { x: 1, y: 0, z: 0 }), Some(true));
}

#[test]
fn sample_coordinates_scale_and_shift() {
    let p = LatticePos { x: -5, y: 3, z: 4 };
    let o = Offset { x: 1000, y: -250, z: 10_000 };
    assert_eq!(sample_coord(p, o), SampleCoord { x: 500, y: 50, z: 10_400 });
}

#[test]
fn visible_at_outside_lattice_is_none() {
    let grid = VoxelGrid::new();
    assert_eq!(grid.visible_at(LatticePos { x: 5, y: 0, z: 0 }), None);
    assert_eq!(grid.visible_at(LatticePos { x: 0, y: -6, z: 0 }), None);
    assert_eq!(grid.visible_at(LatticePos { x: 0, y: 0, z: i64::MAX }), None);
    assert_eq!(grid.visible_at(LatticePos { x: -5, y: -5, z: 4 }), Some(true));
}

#[test]
fn offset_shift_changes_some_flags() {
    let sampler = |c: SampleCoord| c.x >= 0;
    let mut scene = VoxelScene::new();
    scene.cycle(&sampler);
    let before = flags(&scene.grid);
    scene.offset.set_x(1000);
    assert_eq!(scene.cycle(&sampler), 1000);
    let after = flags(&scene.grid);
    let differing = before.iter().zip(after.iter()).filter(|(a, b)| a != b).count();
    assert_eq!(differing, 500);
}

#[test]
fn perlin_offset_shift_changes_some_flags() {
    let perlin = Perlin::default();
    let sampler = |c: SampleCoord| perlin.get(to_point(c)) >= THRESHOLD;
    let mut scene = VoxelScene::new();
    scene.cycle(&sampler);
    let before = flags(&scene.grid);
    scene.offset.set_x(1000);
    scene.cycle(&sampler);
    let after = flags(&scene.grid);
    assert!(before.iter().zip(after.iter()).any(|(a, b)| a != b));
}

#[test]
fn fresh_offset_state_reports_change() {
    let mut s = OffsetState::new();
    assert!(s.changed());
    assert_eq!(s.get(), Offset::zero());
    s.mark_seen();
    assert!(!s.changed());
    s.set_y(-1);
    assert!(s.changed());
}
