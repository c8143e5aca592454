use vstd::prelude::*;

verus! {

/// Offsets are stored in fixed point: this many units make one unit of noise space.
pub const OFFSET_UNITS: i64 = 1000;

/// Largest magnitude an offset component may take (ten units of noise space).
pub const OFFSET_LIMIT: i64 = 10000;

/// A translation of the noise sampling coordinates, in thousandths of a noise unit.
#[derive(Clone, Copy, Debug, PartialEq, Eq, Structural)]
pub struct Offset {
    pub x: i64,
    pub y: i64,
    pub z: i64,
}

/// `v` limited to `[-OFFSET_LIMIT, OFFSET_LIMIT]`.
pub open spec fn clamp_spec(v: int) -> int {
    if v < -OFFSET_LIMIT {
        -OFFSET_LIMIT as int
    } else if v > OFFSET_LIMIT {
        OFFSET_LIMIT as int
    } else {
        v
    }
}

pub open spec fn component_in_range(v: int) -> bool {
    -OFFSET_LIMIT <= v <= OFFSET_LIMIT
}

impl Offset {
    pub open spec fn in_range(&self) -> bool {
        &&& component_in_range(self.x as int)
        &&& component_in_range(self.y as int)
        &&& component_in_range(self.z as int)
    }

    /// The zero offset.
    pub fn zero() -> (r: Offset)
        ensures
            r == (Offset { x: 0, y: 0, z: 0 }),
    {
        Offset { x: 0, y: 0, z: 0 }
    }
}

/// Limits one offset component to `[-OFFSET_LIMIT, OFFSET_LIMIT]`.
pub fn clamp_offset(v: i64) -> (r: i64)
    ensures
        r == clamp_spec(v as int),
        component_in_range(r as int),
{
    if v < -OFFSET_LIMIT {
        -OFFSET_LIMIT
    } else if v > OFFSET_LIMIT {
        OFFSET_LIMIT
    } else {
        v
    }
}

/// The current offset, together with the value that the last evaluation consumed.
pub struct OffsetState {
    current: Offset,
    seen: Option<Offset>,
}

impl OffsetState {
    /// The offset as it stands now.
    pub closed spec fn value(&self) -> Offset {
        self.current
    }

    /// The offset consumed by the last evaluation, if one has happened.
    pub closed spec fn last_seen(&self) -> Option<Offset> {
        self.seen
    }

    /// True exactly when the offset differs from the one the last evaluation consumed.
    pub open spec fn is_changed(&self) -> bool {
        self.last_seen() != Some(self.value())
    }

    pub open spec fn wf(&self) -> bool {
        self.value().in_range()
    }

    /// A zero offset that has not been consumed yet, so the first evaluation runs.
    pub fn new() -> (r: OffsetState)
        ensures
            r.wf(),
            r.value() == (Offset { x: 0, y: 0, z: 0 }),
            r.last_seen() == None::<Offset>,
            r.is_changed(),
    {
        OffsetState { current: Offset::zero(), seen: None }
    }

    /// The offset as it stands now.
    pub fn get(&self) -> (r: Offset)
        ensures
            r == self.value(),
    {
        self.current
    }

    pub fn changed(&self) -> (r: bool)
        ensures
            r == self.is_changed(),
    {
        match self.seen {
            Some(s) => s != self.current,
            None => true,
        }
    }

    /// Records the current offset as consumed.
    pub fn mark_seen(&mut self)
        ensures
            final(self).value() == old(self).value(),
            final(self).last_seen() == Some(old(self).value()),
            !final(self).is_changed(),
    {
        self.seen = Some(self.current);
    }

    /// Writes the x component, clamped to the allowed range.
    pub fn set_x(&mut self, v: i64)
        ensures
            final(self).value() == (Offset { x: clamp_spec(v as int) as i64, ..old(self).value() }),
            final(self).last_seen() == old(self).last_seen(),
            old(self).wf() ==> final(self).wf(),
    {
        self.current.x = clamp_offset(v);
    }

    /// Writes the y component, clamped to the allowed range.
    pub fn set_y(&mut self, v: i64)
        ensures
            final(self).value() == (Offset { y: clamp_spec(v as int) as i64, ..old(self).value() }),
            final(self).last_seen() == old(self).last_seen(),
            old(self).wf() ==> final(self).wf(),
    {
        self.current.y = clamp_offset(v);
    }

    /// Writes the z component, clamped to the allowed range.
    pub fn set_z(&mut self, v: i64)
        ensures
            final(self).value() == (Offset { z: clamp_spec(v as int) as i64, ..old(self).value() }),
            final(self).last_seen() == old(self).last_seen(),
            old(self).wf() ==> final(self).wf(),
    {
        self.current.z = clamp_offset(v);
    }
}

} // verus!
