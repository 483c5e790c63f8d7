//! The two LGCIUs together: their master/slave changeover and their
//! interface with the gear lever.
use vstd::prelude::*;

use crate::coordinator::{
    other_lgciu, status_of, LandingGearControlCoordinator, LandingGearHandleUnit,
};
use crate::gear_state::GearSystemState;
use crate::landing_gear::{GearSystemSensors, LandingGear};
use crate::lgciu::{
    lemma_update_takes_in_inputs, LandingGearControlInterfaceUnit, LgciuState, LgciuStatus,
};
use crate::sensors::{readings_of, GearSensorReadings};
use crate::shared::{ElectricalBusType, FailureType, GearWheel, LgciuId, UpdateContext};

verus! {

/// The state of the pair of units, as the contracts speak of it.
pub struct LgciuSetState {
    pub coordinator: LandingGearControlCoordinator,
    pub lgciu1: LgciuState,
    pub lgciu2: LgciuState,
    pub gear_handle_unit: LandingGearHandleUnit,
}

impl LgciuSetState {
    pub open spec fn active_lgciu(self) -> LgciuState {
        match self.coordinator.active_lgciu_id {
            LgciuId::Lgciu1 => self.lgciu1,
            LgciuId::Lgciu2 => self.lgciu2,
        }
    }

    /// One update: the coordinator picks the master from the statuses of the
    /// last update and the lever, each unit updates with the lever position and
    /// its own sensor readings, and the lever is locked down when both units ask.
    pub open spec fn updated(
        self,
        context: UpdateContext,
        landing_gear: LandingGear,
        lgciu1_readings: GearSensorReadings,
        lgciu2_readings: GearSensorReadings,
        external_power_available: bool,
    ) -> Self {
        let lever_down = self.gear_handle_unit.is_lever_down;
        let coordinator = self.coordinator.updated(
            [self.lgciu1.status, self.lgciu2.status],
            lever_down,
        );
        let lgciu1 = self.lgciu1.updated(
            context,
            landing_gear,
            lgciu1_readings,
            external_power_available,
            lever_down,
            coordinator.active_lgciu_id == LgciuId::Lgciu1,
        );
        let lgciu2 = self.lgciu2.updated(
            context,
            landing_gear,
            lgciu2_readings,
            external_power_available,
            lever_down,
            coordinator.active_lgciu_id == LgciuId::Lgciu2,
        );
        LgciuSetState {
            coordinator,
            lgciu1,
            lgciu2,
            gear_handle_unit: LandingGearHandleUnit {
                lever_should_lock_down: lgciu1.spec_gear_handle_baulk_locked()
                    && lgciu2.spec_gear_handle_baulk_locked(),
                ..self.gear_handle_unit
            },
        }
    }
}

/// Gathers the two LGCIUs and handles the master/slave mechanism between them
/// and their interface with the gear lever.
pub struct LandingGearControlInterfaceUnitSet {
    coordinator: LandingGearControlCoordinator,
    lgciu1: LandingGearControlInterfaceUnit,
    lgciu2: LandingGearControlInterfaceUnit,
    gear_handle_unit: LandingGearHandleUnit,
}

impl View for LandingGearControlInterfaceUnitSet {
    type V = LgciuSetState;

    closed spec fn view(&self) -> LgciuSetState {
        LgciuSetState {
            coordinator: self.coordinator,
            lgciu1: self.lgciu1@,
            lgciu2: self.lgciu2@,
            gear_handle_unit: self.gear_handle_unit,
        }
    }
}

impl LandingGearControlInterfaceUnitSet {
    pub fn new(lgciu1_powered_by: ElectricalBusType, lgciu2_powered_by: ElectricalBusType) -> (r:
        Self)
        ensures
            r@.coordinator.active_lgciu_id == LgciuId::Lgciu1,
            r@.coordinator.previous_gear_handle_is_down,
            r@.lgciu1 == LgciuState::initial(LgciuId::Lgciu1, lgciu1_powered_by),
            r@.lgciu2 == LgciuState::initial(LgciuId::Lgciu2, lgciu2_powered_by),
            r@.gear_handle_unit.is_lever_down,
            r@.gear_handle_unit.lever_should_lock_down,
    {
        Self {
            coordinator: LandingGearControlCoordinator::new(),
            lgciu1: LandingGearControlInterfaceUnit::new(LgciuId::Lgciu1, lgciu1_powered_by),
            lgciu2: LandingGearControlInterfaceUnit::new(LgciuId::Lgciu2, lgciu2_powered_by),
            gear_handle_unit: LandingGearHandleUnit::new(),
        }
    }

    /// One update, each unit reading its own position sensors from
    /// `gear_system_sensors`.
    pub fn update<S: GearSystemSensors>(
        &mut self,
        context: &UpdateContext,
        landing_gear: &LandingGear,
        gear_system_sensors: &S,
        external_power_available: bool,
    )
        ensures
            final(self)@ == old(self)@.updated(
                *context,
                *landing_gear,
                readings_of(*gear_system_sensors, LgciuId::Lgciu1),
                readings_of(*gear_system_sensors, LgciuId::Lgciu2),
                external_power_available,
            ),
    {
        let lgciu1_readings = GearSensorReadings::read(gear_system_sensors, LgciuId::Lgciu1);
        let lgciu2_readings = GearSensorReadings::read(gear_system_sensors, LgciuId::Lgciu2);
        self.update_with_readings(
            context,
            landing_gear,
            &lgciu1_readings,
            &lgciu2_readings,
            external_power_available,
        );
    }

    /// One update with the given position sensor readings of each unit.
    pub fn update_with_readings(
        &mut self,
        context: &UpdateContext,
        landing_gear: &LandingGear,
        lgciu1_readings: &GearSensorReadings,
        lgciu2_readings: &GearSensorReadings,
        external_power_available: bool,
    )
        ensures
            final(self)@ == old(self)@.updated(
                *context,
                *landing_gear,
                *lgciu1_readings,
                *lgciu2_readings,
                external_power_available,
            ),
    {
        let lever_down = self.gear_handle_unit.gear_handle_is_down();
        let statuses = [self.lgciu1.status(), self.lgciu2.status()];
        self.coordinator.update(statuses, lever_down);

        let lgciu1_is_master = self.coordinator.active_lgciu_id() == LgciuId::Lgciu1;
        self.lgciu1.update_with_readings(
            context,
            landing_gear,
            lgciu1_readings,
            external_power_available,
            lever_down,
            lgciu1_is_master,
        );
        let lgciu2_is_master = self.coordinator.active_lgciu_id() == LgciuId::Lgciu2;
        self.lgciu2.update_with_readings(
            context,
            landing_gear,
            lgciu2_readings,
            external_power_available,
            lever_down,
            lgciu2_is_master,
        );

        let lgciu1_locked = self.lgciu1.gear_handle_baulk_locked();
        let lgciu2_locked = self.lgciu2.gear_handle_baulk_locked();
        self.gear_handle_unit.update(lgciu1_locked, lgciu2_locked);
    }

    pub fn lgciu1(&self) -> (r: &LandingGearControlInterfaceUnit)
        ensures
            r@ == self@.lgciu1,
    {
        &self.lgciu1
    }

    pub fn lgciu2(&self) -> (r: &LandingGearControlInterfaceUnit)
        ensures
            r@ == self@.lgciu2,
    {
        &self.lgciu2
    }

    /// The master unit.
    pub fn active_lgciu(&self) -> (r: &LandingGearControlInterfaceUnit)
        ensures
            r@ == self@.active_lgciu(),
    {
        match self.coordinator.active_lgciu_id() {
            LgciuId::Lgciu1 => &self.lgciu1,
            LgciuId::Lgciu2 => &self.lgciu2,
        }
    }

    pub fn active_lgciu_id(&self) -> (r: LgciuId)
        ensures
            r == self@.coordinator.active_lgciu_id,
    {
        self.coordinator.active_lgciu_id()
    }

    /// The gear state as the master unit sees it.
    pub fn gear_system_state(&self) -> (r: GearSystemState)
        ensures
            r == self@.active_lgciu().gear_state,
    {
        self.active_lgciu().gear_system_state()
    }

    pub fn gear_handle_is_down(&self) -> (r: bool)
        ensures
            r == self@.gear_handle_unit.is_lever_down,
    {
        self.gear_handle_unit.gear_handle_is_down()
    }

    pub fn gear_handle_baulk_locked(&self) -> (r: bool)
        ensures
            r == self@.gear_handle_unit.lever_should_lock_down,
    {
        self.gear_handle_unit.gear_handle_baulk_locked()
    }

    /// Takes in the lever position the crew asks for; a lever down and locked
    /// stays down.
    pub fn read_gear_handle(&mut self, lever_down_requested: bool)
        ensures
            final(self)@ == (LgciuSetState {
                gear_handle_unit: LandingGearHandleUnit {
                    is_lever_down: lever_down_requested || (
                    old(self)@.gear_handle_unit.lever_should_lock_down
                        && old(self)@.gear_handle_unit.is_lever_down),
                    ..old(self)@.gear_handle_unit
                },
                ..old(self)@
            }),
    {
        self.gear_handle_unit.read(lever_down_requested);
    }

    /// Takes in whether the buses of LGCIU 1 and LGCIU 2 are powered.
    pub fn receive_power(&mut self, lgciu1_bus_is_powered: bool, lgciu2_bus_is_powered: bool)
        ensures
            final(self)@ == (LgciuSetState {
                lgciu1: LgciuState {
                    is_powered: !old(self)@.lgciu1.power_supply_failure && lgciu1_bus_is_powered,
                    ..old(self)@.lgciu1
                },
                lgciu2: LgciuState {
                    is_powered: !old(self)@.lgciu2.power_supply_failure && lgciu2_bus_is_powered,
                    ..old(self)@.lgciu2
                },
                ..old(self)@
            }),
    {
        self.lgciu1.receive_power(lgciu1_bus_is_powered);
        self.lgciu2.receive_power(lgciu2_bus_is_powered);
    }

    /// Activates or clears a failure of one of the units.
    pub fn set_failure(&mut self, failure: FailureType, is_active: bool)
        ensures
            final(self)@.coordinator == old(self)@.coordinator,
            final(self)@.gear_handle_unit == old(self)@.gear_handle_unit,
            final(self)@.lgciu1 == (match failure {
                FailureType::LgciuPowerSupply(LgciuId::Lgciu1) => LgciuState {
                    power_supply_failure: is_active,
                    ..old(self)@.lgciu1
                },
                FailureType::LgciuInternalError(LgciuId::Lgciu1) => LgciuState {
                    internal_error_failure: is_active,
                    ..old(self)@.lgciu1
                },
                _ => old(self)@.lgciu1,
            }),
            final(self)@.lgciu2 == (match failure {
                FailureType::LgciuPowerSupply(LgciuId::Lgciu2) => LgciuState {
                    power_supply_failure: is_active,
                    ..old(self)@.lgciu2
                },
                FailureType::LgciuInternalError(LgciuId::Lgciu2) => LgciuState {
                    internal_error_failure: is_active,
                    ..old(self)@.lgciu2
                },
                _ => old(self)@.lgciu2,
            }),
    {
        match failure {
            FailureType::LgciuPowerSupply(LgciuId::Lgciu1) => {
                self.lgciu1.set_power_supply_failure(is_active);
            },
            FailureType::LgciuInternalError(LgciuId::Lgciu1) => {
                self.lgciu1.set_internal_error_failure(is_active);
            },
            FailureType::LgciuPowerSupply(LgciuId::Lgciu2) => {
                self.lgciu2.set_power_supply_failure(is_active);
            },
            FailureType::LgciuInternalError(LgciuId::Lgciu2) => {
                self.lgciu2.set_internal_error_failure(is_active);
            },
        }
    }
}

/// After an update the gear lever is free to move only when at least one unit
/// is powered and the three legs are extended (no weight on wheels): weight on
/// any wheel, or both units unpowered, locks it down.
pub proof fn lemma_lever_unlocked_only_in_flight(
    s: LgciuSetState,
    context: UpdateContext,
    landing_gear: LandingGear,
    lgciu1_readings: GearSensorReadings,
    lgciu2_readings: GearSensorReadings,
    external_power_available: bool,
)
    requires
        !s.updated(
            context,
            landing_gear,
            lgciu1_readings,
            lgciu2_readings,
            external_power_available,
        ).gear_handle_unit.lever_should_lock_down,
    ensures
        s.lgciu1.is_powered || s.lgciu2.is_powered,
        !landing_gear.compressed(GearWheel::NOSE),
        !landing_gear.compressed(GearWheel::LEFT),
        !landing_gear.compressed(GearWheel::RIGHT),
{
    let lever_down = s.gear_handle_unit.is_lever_down;
    let c = s.coordinator.updated([s.lgciu1.status, s.lgciu2.status], lever_down);
    lemma_update_takes_in_inputs(
        s.lgciu1,
        context,
        landing_gear,
        lgciu1_readings,
        external_power_available,
        lever_down,
        c.active_lgciu_id == LgciuId::Lgciu1,
    );
    lemma_update_takes_in_inputs(
        s.lgciu2,
        context,
        landing_gear,
        lgciu2_readings,
        external_power_available,
        lever_down,
        c.active_lgciu_id == LgciuId::Lgciu2,
    );
}

/// After an update the lever is locked down exactly when neither unit frees it;
/// a unit frees it when it is powered and sees all three legs extended
/// (external power not taken as ground). One unit alone, powered and seeing
/// no weight on wheels, is enough to free the lever.
pub proof fn lemma_lever_lock_needs_both_units(
    s: LgciuSetState,
    context: UpdateContext,
    landing_gear: LandingGear,
    lgciu1_readings: GearSensorReadings,
    lgciu2_readings: GearSensorReadings,
    external_power_available: bool,
)
    ensures
        ({
            let no_weight = !landing_gear.compressed(GearWheel::NOSE) && !landing_gear.compressed(
                GearWheel::LEFT,
            ) && !landing_gear.compressed(GearWheel::RIGHT);
            let lgciu1_frees = s.lgciu1.is_powered && no_weight;
            let lgciu2_frees = s.lgciu2.is_powered && no_weight;
            s.updated(
                context,
                landing_gear,
                lgciu1_readings,
                lgciu2_readings,
                external_power_available,
            ).gear_handle_unit.lever_should_lock_down == !(lgciu1_frees || lgciu2_frees)
        }),
{
    let lever_down = s.gear_handle_unit.is_lever_down;
    let c = s.coordinator.updated([s.lgciu1.status, s.lgciu2.status], lever_down);
    lemma_update_takes_in_inputs(
        s.lgciu1,
        context,
        landing_gear,
        lgciu1_readings,
        external_power_available,
        lever_down,
        c.active_lgciu_id == LgciuId::Lgciu1,
    );
    lemma_update_takes_in_inputs(
        s.lgciu2,
        context,
        landing_gear,
        lgciu2_readings,
        external_power_available,
        lever_down,
        c.active_lgciu_id == LgciuId::Lgciu2,
    );
}

/// An update never moves the lever nor changes it otherwise than by locking.
pub proof fn lemma_update_keeps_lever_position(
    s: LgciuSetState,
    context: UpdateContext,
    landing_gear: LandingGear,
    lgciu1_readings: GearSensorReadings,
    lgciu2_readings: GearSensorReadings,
    external_power_available: bool,
)
    ensures
        s.updated(
            context,
            landing_gear,
            lgciu1_readings,
            lgciu2_readings,
            external_power_available,
        ).gear_handle_unit.is_lever_down == s.gear_handle_unit.is_lever_down,
{
}

/// Mastership passes only to the other unit, and only if that unit was healthy
/// at the end of the previous update.
pub proof fn lemma_master_handover_to_healthy_unit(
    s: LgciuSetState,
    context: UpdateContext,
    landing_gear: LandingGear,
    lgciu1_readings: GearSensorReadings,
    lgciu2_readings: GearSensorReadings,
    external_power_available: bool,
)
    ensures
        ({
            let next = s.updated(
                context,
                landing_gear,
                lgciu1_readings,
                lgciu2_readings,
                external_power_available,
            );
            next.coordinator.active_lgciu_id != s.coordinator.active_lgciu_id ==> {
                &&& next.coordinator.active_lgciu_id == other_lgciu(
                    s.coordinator.active_lgciu_id,
                )
                &&& status_of(
                    [s.lgciu1.status, s.lgciu2.status],
                    next.coordinator.active_lgciu_id,
                ) == LgciuStatus::Healthy
            }
        }),
{
}

} // verus!
