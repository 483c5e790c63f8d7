//! The landing gear legs as the LGCIUs see them: whether each shock absorber
//! is compressed (weight on wheels), and the sensors of gear and doors.
use vstd::prelude::*;

use crate::shared::{GearWheel, LgciuId};

verus! {

/// Sensors of the gear and door positions, one set per LGCIU.
/// Implemented by whatever simulates the hydraulic gear system; each query
/// answers what the matching spec function says of that implementation.
pub trait GearSystemSensors {
    /// Whether the given unit sees the given leg up and locked.
    spec fn wheel_up_and_locked(&self, wheel_id: GearWheel, lgciu_id: LgciuId) -> bool;

    /// Whether the given unit sees the given leg down and locked.
    spec fn wheel_down_and_locked(&self, wheel_id: GearWheel, lgciu_id: LgciuId) -> bool;

    /// Whether the given unit sees the door of the given leg up (closed) and locked.
    spec fn door_up_and_locked(&self, wheel_id: GearWheel, lgciu_id: LgciuId) -> bool;

    /// Whether the given unit sees the door of the given leg down (fully open) and locked.
    spec fn door_down_and_locked(&self, wheel_id: GearWheel, lgciu_id: LgciuId) -> bool;

    fn is_wheel_id_up_and_locked(&self, wheel_id: GearWheel, lgciu_id: LgciuId) -> (r: bool)
        ensures
            r == self.wheel_up_and_locked(wheel_id, lgciu_id),
    ;

    fn is_wheel_id_down_and_locked(&self, wheel_id: GearWheel, lgciu_id: LgciuId) -> (r: bool)
        ensures
            r == self.wheel_down_and_locked(wheel_id, lgciu_id),
    ;

    fn is_door_id_up_and_locked(&self, wheel_id: GearWheel, lgciu_id: LgciuId) -> (r: bool)
        ensures
            r == self.door_up_and_locked(wheel_id, lgciu_id),
    ;

    fn is_door_id_down_and_locked(&self, wheel_id: GearWheel, lgciu_id: LgciuId) -> (r: bool)
        ensures
            r == self.door_down_and_locked(wheel_id, lgciu_id),
    ;
}

/// Represents a landing gear on Airbus aircraft.
/// The gear's position is not part of it: the real aircraft can only check
/// whether the gear is up and locked or down and locked.
/// It holds the state of the weight on wheels sensor of each leg: a leg is
/// compressed when its shock absorber is compressed beyond the threshold that
/// marks weight on wheels.
pub struct LandingGear {
    center_compressed: bool,
    left_compressed: bool,
    right_compressed: bool,
}

impl LandingGear {
    /// Whether the shock absorber of the given leg is compressed.
    pub closed spec fn compressed(self, wheel_id: GearWheel) -> bool {
        match wheel_id {
            GearWheel::NOSE => self.center_compressed,
            GearWheel::LEFT => self.left_compressed,
            GearWheel::RIGHT => self.right_compressed,
        }
    }

    /// A landing gear whose legs are all fully extended (no compression).
    pub fn new() -> (r: Self)
        ensures
            !r.compressed(GearWheel::NOSE),
            !r.compressed(GearWheel::LEFT),
            !r.compressed(GearWheel::RIGHT),
    {
        LandingGear { center_compressed: false, left_compressed: false, right_compressed: false }
    }

    /// Records which shock absorbers are compressed.
    pub fn set_compression(&mut self, center: bool, left: bool, right: bool)
        ensures
            final(self).compressed(GearWheel::NOSE) == center,
            final(self).compressed(GearWheel::LEFT) == left,
            final(self).compressed(GearWheel::RIGHT) == right,
    {
        self.center_compressed = center;
        self.left_compressed = left;
        self.right_compressed = right;
    }

    pub fn is_wheel_id_compressed(&self, wheel_id: GearWheel) -> (r: bool)
        ensures
            r == self.compressed(wheel_id),
    {
        match wheel_id {
            GearWheel::NOSE => self.center_compressed,
            GearWheel::LEFT => self.left_compressed,
            GearWheel::RIGHT => self.right_compressed,
        }
    }
}

} // verus!
