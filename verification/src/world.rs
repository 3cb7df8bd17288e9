//! Positions in the world and the moving origin of render space.
use crate::fixed::{fx_add, fx_sub, sat};
use crate::rotation::Transform;
use crate::vector::Vec3;
use vstd::prelude::*;

verus! {

/// A position in the world, in millionths of a metre. It is kept apart from
/// the position in render space, which stays near the moving origin.
#[derive(Clone, Copy, Debug, Default, PartialEq, Eq, Structural)]
pub struct GlobalPosition {
    pub x: i64,
    pub y: i64,
    pub z: i64,
}

/// The body at which render space is centred, if there is one.
#[derive(Clone, Copy, Debug, Default, PartialEq, Eq)]
pub struct MovingOrigin(pub Option<usize>);

impl GlobalPosition {
    pub open spec fn spec_sub(self, rhs: GlobalPosition) -> GlobalPosition {
        GlobalPosition {
            x: sat(self.x - rhs.x) as i64,
            y: sat(self.y - rhs.y) as i64,
            z: sat(self.z - rhs.z) as i64,
        }
    }

    pub open spec fn spec_add(self, rhs: GlobalPosition) -> GlobalPosition {
        GlobalPosition {
            x: sat(self.x + rhs.x) as i64,
            y: sat(self.y + rhs.y) as i64,
            z: sat(self.z + rhs.z) as i64,
        }
    }

    /// The position as a vector from the origin of the world.
    pub open spec fn spec_to_vec(self) -> Vec3 {
        Vec3 { x: self.x, y: self.y, z: self.z }
    }

    /// The distance between two positions.
    pub open spec fn spec_dist(self, other: GlobalPosition) -> int {
        self.spec_sub(other).spec_to_vec().spec_length()
    }

    /// The position moved by `step`.
    pub open spec fn spec_moved(self, step: Vec3) -> GlobalPosition {
        GlobalPosition {
            x: sat(self.x + step.x) as i64,
            y: sat(self.y + step.y) as i64,
            z: sat(self.z + step.z) as i64,
        }
    }

    pub fn zero() -> (r: GlobalPosition)
        ensures
            r == (GlobalPosition { x: 0, y: 0, z: 0 }),
    {
        GlobalPosition { x: 0, y: 0, z: 0 }
    }

    pub fn splat(val: i64) -> (r: GlobalPosition)
        ensures
            r == (GlobalPosition { x: val, y: val, z: val }),
    {
        GlobalPosition { x: val, y: val, z: val }
    }

    pub fn sub(self, rhs: GlobalPosition) -> (r: GlobalPosition)
        ensures
            r == self.spec_sub(rhs),
    {
        GlobalPosition { x: fx_sub(self.x, rhs.x), y: fx_sub(self.y, rhs.y), z: fx_sub(self.z, rhs.z) }
    }

    pub fn add(self, rhs: GlobalPosition) -> (r: GlobalPosition)
        ensures
            r == self.spec_add(rhs),
    {
        GlobalPosition { x: fx_add(self.x, rhs.x), y: fx_add(self.y, rhs.y), z: fx_add(self.z, rhs.z) }
    }

    pub fn to_vec(&self) -> (r: Vec3)
        ensures
            r == self.spec_to_vec(),
    {
        Vec3 { x: self.x, y: self.y, z: self.z }
    }

    pub fn dist(&self, other: &GlobalPosition) -> (r: i64)
        ensures
            r == self.spec_dist(*other),
            r >= 0,
    {
        self.sub(*other).to_vec().length()
    }

    /// Moves the position by `step`.
    pub fn moved(&self, step: &Vec3) -> (r: GlobalPosition)
        ensures
            r == self.spec_moved(*step),
    {
        GlobalPosition { x: fx_add(self.x, step.x), y: fx_add(self.y, step.y), z: fx_add(self.z, step.z) }
    }
}

/// Places a body in render space: at its position in the world as seen from
/// the position of the body at the moving origin.
pub fn moving_origin(center: &GlobalPosition, global_position: &GlobalPosition, transform: &mut Transform)
    ensures
        final(transform).translation == global_position.spec_sub(*center).spec_to_vec(),
        final(transform).rotation == old(transform).rotation,
{
    transform.translation = global_position.sub(*center).to_vec();
}

/// Re-centring is exact near the origin: where the difference of the two
/// positions does not saturate, adding the centre to the render position
/// gives the position in the world back.
pub proof fn law_recentring_round_trip(center: GlobalPosition, position: GlobalPosition)
    requires
        i64::MIN <= position.x - center.x <= i64::MAX,
        i64::MIN <= position.y - center.y <= i64::MAX,
        i64::MIN <= position.z - center.z <= i64::MAX,
    ensures
        position.spec_sub(center).spec_add(center) == position,
        center.spec_sub(center) == (GlobalPosition { x: 0, y: 0, z: 0 }),
{
}

} // verus!
