//! What one LGCIU knows of the gear: power, weight on wheels, and the lock
//! sensors of gears and doors; and what it derives from them.
use vstd::prelude::*;

use crate::landing_gear::{GearSystemSensors, LandingGear};
use crate::shared::{GearWheel, LgciuId};

verus! {

/// The four position sensors of one leg, as one LGCIU reads them.
#[derive(PartialEq, Eq, Structural, Clone, Copy, Debug)]
pub struct WheelSensorReadings {
    pub gear_up_and_locked: bool,
    pub gear_down_and_locked: bool,
    pub door_up_and_locked: bool,
    pub door_down_and_locked: bool,
}

/// The position sensors of the three legs, as one LGCIU reads them.
#[derive(PartialEq, Eq, Structural, Clone, Copy, Debug)]
pub struct GearSensorReadings {
    pub nose: WheelSensorReadings,
    pub left: WheelSensorReadings,
    pub right: WheelSensorReadings,
}

/// What the four sensors of one leg answer to one unit.
pub open spec fn wheel_readings_of<S: GearSystemSensors>(
    sensors: S,
    wheel_id: GearWheel,
    lgciu_id: LgciuId,
) -> WheelSensorReadings {
    WheelSensorReadings {
        gear_up_and_locked: sensors.wheel_up_and_locked(wheel_id, lgciu_id),
        gear_down_and_locked: sensors.wheel_down_and_locked(wheel_id, lgciu_id),
        door_up_and_locked: sensors.door_up_and_locked(wheel_id, lgciu_id),
        door_down_and_locked: sensors.door_down_and_locked(wheel_id, lgciu_id),
    }
}

/// What every position sensor that one unit is wired to answers.
pub open spec fn readings_of<S: GearSystemSensors>(sensors: S, lgciu_id: LgciuId) -> GearSensorReadings {
    GearSensorReadings {
        nose: wheel_readings_of(sensors, GearWheel::NOSE, lgciu_id),
        left: wheel_readings_of(sensors, GearWheel::LEFT, lgciu_id),
        right: wheel_readings_of(sensors, GearWheel::RIGHT, lgciu_id),
    }
}

/// Reads the four sensors of one leg for one unit.
fn read_wheel<S: GearSystemSensors>(
    sensors: &S,
    wheel_id: GearWheel,
    lgciu_id: LgciuId,
) -> (r: WheelSensorReadings)
    ensures
        r == wheel_readings_of(*sensors, wheel_id, lgciu_id),
{
    WheelSensorReadings {
        gear_up_and_locked: sensors.is_wheel_id_up_and_locked(wheel_id, lgciu_id),
        gear_down_and_locked: sensors.is_wheel_id_down_and_locked(wheel_id, lgciu_id),
        door_up_and_locked: sensors.is_door_id_up_and_locked(wheel_id, lgciu_id),
        door_down_and_locked: sensors.is_door_id_down_and_locked(wheel_id, lgciu_id),
    }
}

impl GearSensorReadings {
    /// Reads every position sensor that the given unit is wired to.
    pub fn read<S: GearSystemSensors>(sensors: &S, lgciu_id: LgciuId) -> (r: GearSensorReadings)
        ensures
            r == readings_of(*sensors, lgciu_id),
    {
        GearSensorReadings {
            nose: read_wheel(sensors, GearWheel::NOSE, lgciu_id),
            left: read_wheel(sensors, GearWheel::LEFT, lgciu_id),
            right: read_wheel(sensors, GearWheel::RIGHT, lgciu_id),
        }
    }
}

/// The inputs of one LGCIU.
#[derive(PartialEq, Eq, Structural, Clone, Copy, Debug)]
pub struct LgciuSensorInputs {
    pub lgciu_id: LgciuId,
    pub external_power_available: bool,
    pub is_powered: bool,
    pub right_gear_sensor_compressed: bool,
    pub left_gear_sensor_compressed: bool,
    pub nose_gear_sensor_compressed: bool,
    pub right_gear_up_and_locked: bool,
    pub left_gear_up_and_locked: bool,
    pub nose_gear_up_and_locked: bool,
    pub right_gear_down_and_locked: bool,
    pub left_gear_down_and_locked: bool,
    pub nose_gear_down_and_locked: bool,
    pub nose_door_fully_opened: bool,
    pub right_door_fully_opened: bool,
    pub left_door_fully_opened: bool,
    pub nose_door_up_and_locked: bool,
    pub right_door_up_and_locked: bool,
    pub left_door_up_and_locked: bool,
}

impl LgciuSensorInputs {
    /// Inputs before any reading: unpowered, all legs compressed, nothing locked.
    pub open spec fn initial(lgciu_id: LgciuId) -> Self {
        LgciuSensorInputs {
            lgciu_id,
            external_power_available: false,
            is_powered: false,
            right_gear_sensor_compressed: true,
            left_gear_sensor_compressed: true,
            nose_gear_sensor_compressed: true,
            right_gear_up_and_locked: false,
            left_gear_up_and_locked: false,
            nose_gear_up_and_locked: false,
            right_gear_down_and_locked: false,
            left_gear_down_and_locked: false,
            nose_gear_down_and_locked: false,
            nose_door_fully_opened: false,
            right_door_fully_opened: false,
            left_door_fully_opened: false,
            nose_door_up_and_locked: false,
            right_door_up_and_locked: false,
            left_door_up_and_locked: false,
        }
    }

    /// The inputs after a reading of power, weight on wheels and position sensors.
    pub open spec fn updated(
        self,
        landing_gear: LandingGear,
        readings: GearSensorReadings,
        external_power_available: bool,
        is_powered: bool,
    ) -> Self {
        LgciuSensorInputs {
            lgciu_id: self.lgciu_id,
            external_power_available,
            is_powered,
            nose_gear_sensor_compressed: landing_gear.compressed(GearWheel::NOSE),
            left_gear_sensor_compressed: landing_gear.compressed(GearWheel::LEFT),
            right_gear_sensor_compressed: landing_gear.compressed(GearWheel::RIGHT),
            right_gear_up_and_locked: readings.right.gear_up_and_locked,
            left_gear_up_and_locked: readings.left.gear_up_and_locked,
            nose_gear_up_and_locked: readings.nose.gear_up_and_locked,
            right_gear_down_and_locked: readings.right.gear_down_and_locked,
            left_gear_down_and_locked: readings.left.gear_down_and_locked,
            nose_gear_down_and_locked: readings.nose.gear_down_and_locked,
            nose_door_fully_opened: readings.nose.door_down_and_locked,
            right_door_fully_opened: readings.right.door_down_and_locked,
            left_door_fully_opened: readings.left.door_down_and_locked,
            nose_door_up_and_locked: readings.nose.door_up_and_locked,
            right_door_up_and_locked: readings.right.door_up_and_locked,
            left_door_up_and_locked: readings.left.door_up_and_locked,
        }
    }

    pub open spec fn spec_right_gear_compressed(self, treat_ext_pwr_as_ground: bool) -> bool {
        self.is_powered && (self.right_gear_sensor_compressed || treat_ext_pwr_as_ground
            && self.external_power_available)
    }

    pub open spec fn spec_right_gear_extended(self, treat_ext_pwr_as_ground: bool) -> bool {
        self.is_powered && !self.right_gear_sensor_compressed && !(treat_ext_pwr_as_ground
            && self.external_power_available)
    }

    pub open spec fn spec_left_gear_compressed(self, treat_ext_pwr_as_ground: bool) -> bool {
        self.is_powered && (self.left_gear_sensor_compressed || treat_ext_pwr_as_ground
            && self.external_power_available)
    }

    pub open spec fn spec_left_gear_extended(self, treat_ext_pwr_as_ground: bool) -> bool {
        self.is_powered && !self.left_gear_sensor_compressed && !(treat_ext_pwr_as_ground
            && self.external_power_available)
    }

    pub open spec fn spec_nose_gear_compressed(self, treat_ext_pwr_as_ground: bool) -> bool {
        self.is_powered && (self.nose_gear_sensor_compressed || treat_ext_pwr_as_ground
            && self.external_power_available)
    }

    pub open spec fn spec_nose_gear_extended(self, treat_ext_pwr_as_ground: bool) -> bool {
        self.is_powered && !self.nose_gear_sensor_compressed && !(treat_ext_pwr_as_ground
            && self.external_power_available)
    }

    /// Note that with `treat_ext_pwr_as_ground` and external power available
    /// this holds even of an unpowered unit.
    pub open spec fn spec_left_and_right_gear_compressed(self, treat_ext_pwr_as_ground: bool) -> bool {
        (self.is_powered && (self.left_gear_sensor_compressed
            && self.right_gear_sensor_compressed)) || (treat_ext_pwr_as_ground
            && self.external_power_available)
    }

    pub open spec fn spec_left_and_right_gear_extended(self, treat_ext_pwr_as_ground: bool) -> bool {
        self.is_powered && !self.left_gear_sensor_compressed && !self.right_gear_sensor_compressed
            && !(treat_ext_pwr_as_ground && self.external_power_available)
    }

    pub open spec fn spec_all_down_and_locked(self) -> bool {
        self.is_powered && self.nose_gear_down_and_locked && self.right_gear_down_and_locked
            && self.left_gear_down_and_locked
    }

    pub open spec fn spec_all_up_and_locked(self) -> bool {
        self.is_powered && self.nose_gear_up_and_locked && self.right_gear_up_and_locked
            && self.left_gear_up_and_locked
    }

    pub open spec fn spec_all_fully_opened(self) -> bool {
        self.is_powered && self.nose_door_fully_opened && self.right_door_fully_opened
            && self.left_door_fully_opened
    }

    pub open spec fn spec_all_closed_and_locked(self) -> bool {
        self.is_powered && self.nose_door_up_and_locked && self.right_door_up_and_locked
            && self.left_door_up_and_locked
    }

    pub open spec fn gear_uplocked(self, wheel_id: GearWheel) -> bool {
        match wheel_id {
            GearWheel::LEFT => self.left_gear_up_and_locked,
            GearWheel::NOSE => self.nose_gear_up_and_locked,
            GearWheel::RIGHT => self.right_gear_up_and_locked,
        }
    }

    pub open spec fn gear_downlocked(self, wheel_id: GearWheel) -> bool {
        match wheel_id {
            GearWheel::LEFT => self.left_gear_down_and_locked,
            GearWheel::NOSE => self.nose_gear_down_and_locked,
            GearWheel::RIGHT => self.right_gear_down_and_locked,
        }
    }

    /// A leg reads "unlocked" when its two lock sensors agree (both or
    /// neither locked: in transition), or when it is not locked in the
    /// position that the lever asks for.
    pub open spec fn spec_unlock_state(self, wheel_id: GearWheel, gear_lever_is_down: bool) -> bool {
        let up = self.gear_uplocked(wheel_id);
        let down = self.gear_downlocked(wheel_id);
        (up == down) || (!gear_lever_is_down && !up) || (gear_lever_is_down && !down)
    }

    /// Inputs of the given unit before any reading.
    pub fn new(lgciu_id: LgciuId) -> (r: Self)
        ensures
            r == Self::initial(lgciu_id),
    {
        LgciuSensorInputs {
            lgciu_id,
            external_power_available: false,
            is_powered: false,
            right_gear_sensor_compressed: true,
            left_gear_sensor_compressed: true,
            nose_gear_sensor_compressed: true,
            right_gear_up_and_locked: false,
            left_gear_up_and_locked: false,
            nose_gear_up_and_locked: false,
            right_gear_down_and_locked: false,
            left_gear_down_and_locked: false,
            nose_gear_down_and_locked: false,
            nose_door_fully_opened: false,
            right_door_fully_opened: false,
            left_door_fully_opened: false,
            nose_door_up_and_locked: false,
            right_door_up_and_locked: false,
            left_door_up_and_locked: false,
        }
    }

    /// Takes in power, weight on wheels and the position sensors of this unit,
    /// read from `gear_system_sensors`.
    pub fn update<S: GearSystemSensors>(
        &mut self,
        landing_gear: &LandingGear,
        gear_system_sensors: &S,
        external_power_available: bool,
        is_powered: bool,
    )
        ensures
            *final(self) == old(self).updated(
                *landing_gear,
                readings_of(*gear_system_sensors, old(self).lgciu_id),
                external_power_available,
                is_powered,
            ),
    {
        let readings = GearSensorReadings::read(gear_system_sensors, self.lgciu_id);
        self.update_from_readings(landing_gear, &readings, external_power_available, is_powered);
    }

    /// Takes in power, weight on wheels and the given position sensor readings.
    pub fn update_from_readings(
        &mut self,
        landing_gear: &LandingGear,
        readings: &GearSensorReadings,
        external_power_available: bool,
        is_powered: bool,
    )
        ensures
            *final(self) == old(self).updated(
                *landing_gear,
                *readings,
                external_power_available,
                is_powered,
            ),
    {
        self.external_power_available = external_power_available;
        self.is_powered = is_powered;

        self.nose_gear_sensor_compressed = landing_gear.is_wheel_id_compressed(GearWheel::NOSE);
        self.left_gear_sensor_compressed = landing_gear.is_wheel_id_compressed(GearWheel::LEFT);
        self.right_gear_sensor_compressed = landing_gear.is_wheel_id_compressed(GearWheel::RIGHT);

        self.right_gear_up_and_locked = readings.right.gear_up_and_locked;
        self.left_gear_up_and_locked = readings.left.gear_up_and_locked;
        self.nose_gear_up_and_locked = readings.nose.gear_up_and_locked;

        self.right_gear_down_and_locked = readings.right.gear_down_and_locked;
        self.left_gear_down_and_locked = readings.left.gear_down_and_locked;
        self.nose_gear_down_and_locked = readings.nose.gear_down_and_locked;

        self.nose_door_fully_opened = readings.nose.door_down_and_locked;
        self.right_door_fully_opened = readings.right.door_down_and_locked;
        self.left_door_fully_opened = readings.left.door_down_and_locked;
        self.nose_door_up_and_locked = readings.nose.door_up_and_locked;
        self.right_door_up_and_locked = readings.right.door_up_and_locked;
        self.left_door_up_and_locked = readings.left.door_up_and_locked;
    }

    pub fn unlock_state(&self, wheel_id: GearWheel, gear_lever_is_down: bool) -> (r: bool)
        ensures
            r == self.spec_unlock_state(wheel_id, gear_lever_is_down),
    {
        let gear_uplocked = match wheel_id {
            GearWheel::LEFT => self.left_gear_up_and_locked,
            GearWheel::NOSE => self.nose_gear_up_and_locked,
            GearWheel::RIGHT => self.right_gear_up_and_locked,
        };
        let gear_downlocked = match wheel_id {
            GearWheel::LEFT => self.left_gear_down_and_locked,
            GearWheel::NOSE => self.nose_gear_down_and_locked,
            GearWheel::RIGHT => self.right_gear_down_and_locked,
        };

        let in_transition = !(gear_downlocked ^ gear_uplocked);
        let not_uplocked = !gear_lever_is_down && !gear_uplocked;
        let not_downlocked = gear_lever_is_down && !gear_downlocked;

        in_transition || not_uplocked || not_downlocked
    }

    pub fn downlock_state(&self, wheel_id: GearWheel) -> (r: bool)
        ensures
            r == self.gear_downlocked(wheel_id),
    {
        match wheel_id {
            GearWheel::LEFT => self.left_gear_down_and_locked,
            GearWheel::NOSE => self.nose_gear_down_and_locked,
            GearWheel::RIGHT => self.right_gear_down_and_locked,
        }
    }

    /// The weight on wheels signals this unit publishes for (nose, left, right):
    /// the leg is compressed and the unit is powered. External power is not
    /// taken as ground here.
    pub fn compressed_outputs(&self) -> (r: (bool, bool, bool))
        ensures
            r.0 == (self.is_powered && self.spec_nose_gear_compressed(false)),
            r.1 == (self.is_powered && self.spec_left_gear_compressed(false)),
            r.2 == (self.is_powered && self.spec_right_gear_compressed(false)),
    {
        (
            self.is_powered && self.nose_gear_compressed(false),
            self.is_powered && self.left_gear_compressed(false),
            self.is_powered && self.right_gear_compressed(false),
        )
    }

    pub fn right_gear_compressed(&self, treat_ext_pwr_as_ground: bool) -> (r: bool)
        ensures
            r == self.spec_right_gear_compressed(treat_ext_pwr_as_ground),
    {
        self.is_powered && (self.right_gear_sensor_compressed || treat_ext_pwr_as_ground
            && self.external_power_available)
    }

    pub fn right_gear_extended(&self, treat_ext_pwr_as_ground: bool) -> (r: bool)
        ensures
            r == self.spec_right_gear_extended(treat_ext_pwr_as_ground),
    {
        self.is_powered && !self.right_gear_sensor_compressed && !(treat_ext_pwr_as_ground
            && self.external_power_available)
    }

    pub fn left_gear_compressed(&self, treat_ext_pwr_as_ground: bool) -> (r: bool)
        ensures
            r == self.spec_left_gear_compressed(treat_ext_pwr_as_ground),
    {
        self.is_powered && (self.left_gear_sensor_compressed || treat_ext_pwr_as_ground
            && self.external_power_available)
    }

    pub fn left_gear_extended(&self, treat_ext_pwr_as_ground: bool) -> (r: bool)
        ensures
            r == self.spec_left_gear_extended(treat_ext_pwr_as_ground),
    {
        self.is_powered && !self.left_gear_sensor_compressed && !(treat_ext_pwr_as_ground
            && self.external_power_available)
    }

    pub fn left_and_right_gear_compressed(&self, treat_ext_pwr_as_ground: bool) -> (r: bool)
        ensures
            r == self.spec_left_and_right_gear_compressed(treat_ext_pwr_as_ground),
    {
        self.is_powered && (self.left_gear_sensor_compressed && self.right_gear_sensor_compressed)
            || treat_ext_pwr_as_ground && self.external_power_available
    }

    pub fn left_and_right_gear_extended(&self, treat_ext_pwr_as_ground: bool) -> (r: bool)
        ensures
            r == self.spec_left_and_right_gear_extended(treat_ext_pwr_as_ground),
    {
        !(!self.is_powered || self.left_gear_sensor_compressed || self.right_gear_sensor_compressed
            || treat_ext_pwr_as_ground && self.external_power_available)
    }

    pub fn nose_gear_compressed(&self, treat_ext_pwr_as_ground: bool) -> (r: bool)
        ensures
            r == self.spec_nose_gear_compressed(treat_ext_pwr_as_ground),
    {
        self.is_powered && (self.nose_gear_sensor_compressed || treat_ext_pwr_as_ground
            && self.external_power_available)
    }

    pub fn nose_gear_extended(&self, treat_ext_pwr_as_ground: bool) -> (r: bool)
        ensures
            r == self.spec_nose_gear_extended(treat_ext_pwr_as_ground),
    {
        self.is_powered && !self.nose_gear_sensor_compressed && !(treat_ext_pwr_as_ground
            && self.external_power_available)
    }

    pub fn all_down_and_locked(&self) -> (r: bool)
        ensures
            r == self.spec_all_down_and_locked(),
    {
        self.is_powered && self.nose_gear_down_and_locked && self.right_gear_down_and_locked
            && self.left_gear_down_and_locked
    }

    pub fn all_up_and_locked(&self) -> (r: bool)
        ensures
            r == self.spec_all_up_and_locked(),
    {
        self.is_powered && self.nose_gear_up_and_locked && self.right_gear_up_and_locked
            && self.left_gear_up_and_locked
    }

    pub fn all_fully_opened(&self) -> (r: bool)
        ensures
            r == self.spec_all_fully_opened(),
    {
        self.is_powered && self.nose_door_fully_opened && self.right_door_fully_opened
            && self.left_door_fully_opened
    }

    pub fn all_closed_and_locked(&self) -> (r: bool)
        ensures
            r == self.spec_all_closed_and_locked(),
    {
        self.is_powered && self.nose_door_up_and_locked && self.right_door_up_and_locked
            && self.left_door_up_and_locked
    }
}

/// Weight on wheels: a unit never reports a leg (or the pair of main legs) both
/// compressed and extended, whether or not external power counts as ground.
pub proof fn lemma_compressed_and_extended_exclusive(
    inputs: LgciuSensorInputs,
    treat_ext_pwr_as_ground: bool,
)
    ensures
        !(inputs.spec_right_gear_compressed(treat_ext_pwr_as_ground)
            && inputs.spec_right_gear_extended(treat_ext_pwr_as_ground)),
        !(inputs.spec_left_gear_compressed(treat_ext_pwr_as_ground)
            && inputs.spec_left_gear_extended(treat_ext_pwr_as_ground)),
        !(inputs.spec_nose_gear_compressed(treat_ext_pwr_as_ground)
            && inputs.spec_nose_gear_extended(treat_ext_pwr_as_ground)),
        !(inputs.spec_left_and_right_gear_compressed(treat_ext_pwr_as_ground)
            && inputs.spec_left_and_right_gear_extended(treat_ext_pwr_as_ground)),
{
}

/// An unpowered unit reports no leg compressed or extended, no gear or door
/// locked and no door open.
pub proof fn lemma_unpowered_reports_nothing(inputs: LgciuSensorInputs, treat_ext_pwr_as_ground: bool)
    requires
        !inputs.is_powered,
    ensures
        !inputs.spec_right_gear_compressed(treat_ext_pwr_as_ground),
        !inputs.spec_right_gear_extended(treat_ext_pwr_as_ground),
        !inputs.spec_left_gear_compressed(treat_ext_pwr_as_ground),
        !inputs.spec_left_gear_extended(treat_ext_pwr_as_ground),
        !inputs.spec_nose_gear_compressed(treat_ext_pwr_as_ground),
        !inputs.spec_nose_gear_extended(treat_ext_pwr_as_ground),
        !inputs.spec_left_and_right_gear_extended(treat_ext_pwr_as_ground),
        !inputs.spec_all_down_and_locked(),
        !inputs.spec_all_up_and_locked(),
        !inputs.spec_all_fully_opened(),
        !inputs.spec_all_closed_and_locked(),
{
}

/// All gears up and locked needs power and every one of the three gears up and
/// locked: any leg not up and locked makes it false.
pub proof fn lemma_all_up_and_locked_needs_every_leg(i: LgciuSensorInputs)
    ensures
        !i.is_powered ==> !i.spec_all_up_and_locked(),
        !i.nose_gear_up_and_locked ==> !i.spec_all_up_and_locked(),
        !i.left_gear_up_and_locked ==> !i.spec_all_up_and_locked(),
        !i.right_gear_up_and_locked ==> !i.spec_all_up_and_locked(),
        i.is_powered && i.nose_gear_up_and_locked && i.left_gear_up_and_locked
            && i.right_gear_up_and_locked ==> i.spec_all_up_and_locked(),
{
}

/// All gears down and locked needs power and every one of the three gears down
/// and locked.
pub proof fn lemma_all_down_and_locked_needs_every_leg(i: LgciuSensorInputs)
    ensures
        !i.is_powered ==> !i.spec_all_down_and_locked(),
        !i.nose_gear_down_and_locked ==> !i.spec_all_down_and_locked(),
        !i.left_gear_down_and_locked ==> !i.spec_all_down_and_locked(),
        !i.right_gear_down_and_locked ==> !i.spec_all_down_and_locked(),
        i.is_powered && i.nose_gear_down_and_locked && i.left_gear_down_and_locked
            && i.right_gear_down_and_locked ==> i.spec_all_down_and_locked(),
{
}

/// All doors fully opened, and all doors closed and locked, each need power and
/// every one of the three doors in that position.
pub proof fn lemma_all_doors_need_every_door(i: LgciuSensorInputs)
    ensures
        !i.is_powered ==> !i.spec_all_fully_opened() && !i.spec_all_closed_and_locked(),
        !i.nose_door_fully_opened ==> !i.spec_all_fully_opened(),
        !i.left_door_fully_opened ==> !i.spec_all_fully_opened(),
        !i.right_door_fully_opened ==> !i.spec_all_fully_opened(),
        i.is_powered && i.nose_door_fully_opened && i.left_door_fully_opened
            && i.right_door_fully_opened ==> i.spec_all_fully_opened(),
        !i.nose_door_up_and_locked ==> !i.spec_all_closed_and_locked(),
        !i.left_door_up_and_locked ==> !i.spec_all_closed_and_locked(),
        !i.right_door_up_and_locked ==> !i.spec_all_closed_and_locked(),
        i.is_powered && i.nose_door_up_and_locked && i.left_door_up_and_locked
            && i.right_door_up_and_locked ==> i.spec_all_closed_and_locked(),
{
}

/// A leg reads locked (not unlocked) exactly when it is locked in the position
/// the lever asks for and not in the other: with the lever up, up-locked and
/// not down-locked; with the lever down, down-locked and not up-locked.
pub proof fn lemma_unlock_state_per_leg(i: LgciuSensorInputs, gear_lever_is_down: bool)
    ensures
        i.spec_unlock_state(GearWheel::NOSE, gear_lever_is_down) == !(if gear_lever_is_down {
            i.nose_gear_down_and_locked && !i.nose_gear_up_and_locked
        } else {
            i.nose_gear_up_and_locked && !i.nose_gear_down_and_locked
        }),
        i.spec_unlock_state(GearWheel::LEFT, gear_lever_is_down) == !(if gear_lever_is_down {
            i.left_gear_down_and_locked && !i.left_gear_up_and_locked
        } else {
            i.left_gear_up_and_locked && !i.left_gear_down_and_locked
        }),
        i.spec_unlock_state(GearWheel::RIGHT, gear_lever_is_down) == !(if gear_lever_is_down {
            i.right_gear_down_and_locked && !i.right_gear_up_and_locked
        } else {
            i.right_gear_up_and_locked && !i.right_gear_down_and_locked
        }),
{
}

} // verus!
