//! One landing gear control and interface unit (LGCIU): it runs the gear
//! extension and retraction cycle while it is the master, watches for
//! transitions that take too long, and derives the lever lock.
use vstd::prelude::*;

use crate::gear_state::{
    initial_gear_state_from, next_gear_state_from, GearSystemState, GearSystemStateMachine,
};
use crate::landing_gear::{GearSystemSensors, LandingGear};
use crate::sensors::{readings_of, GearSensorReadings, LgciuSensorInputs};
use crate::shared::{ElectricalBusType, FailureType, GearWheel, LgciuId, UpdateContext};

verus! {

#[derive(PartialEq, Eq, Structural, Clone, Copy, Debug)]
pub enum LgciuStatus {
    Healthy,
    FailedNotPowered,
    FailedNoChangeOver,
    FailedAutoChangeOver,
}

/// Longest time, in nanoseconds, that a gear transition may take before the
/// unit declares itself failed.
pub const MAX_TRANSITION_DURATION: u64 = 30_000_000_000u64;

/// The state of a unit, as its contracts speak of it.
pub struct LgciuState {
    pub is_powered: bool,
    pub is_powered_previous_state: bool,
    pub powered_by: ElectricalBusType,
    pub external_power_available: bool,
    pub sensor_inputs: LgciuSensorInputs,
    pub gear_state: GearSystemState,
    pub is_gear_lever_down: bool,
    /// Nanoseconds spent in the current transition (saturating).
    pub transition_duration: u64,
    pub gear_lever_position_is_down_previous_state: bool,
    pub status: LgciuStatus,
    pub power_supply_failure: bool,
    pub internal_error_failure: bool,
    pub is_active_computer_previous_state: bool,
}

/// The signals a unit publishes: for each leg whether it reads unlocked and
/// whether it reads down and locked, and whether the unit is at fault.
#[derive(PartialEq, Eq, Structural, Clone, Copy, Debug)]
pub struct LgciuOutputs {
    pub left_gear_unlocked: bool,
    pub left_gear_downlocked: bool,
    pub nose_gear_unlocked: bool,
    pub nose_gear_downlocked: bool,
    pub right_gear_unlocked: bool,
    pub right_gear_downlocked: bool,
    pub fault: bool,
}

impl LgciuState {
    pub open spec fn initial(lgciu_id: LgciuId, powered_by: ElectricalBusType) -> Self {
        LgciuState {
            is_powered: false,
            is_powered_previous_state: false,
            powered_by,
            external_power_available: false,
            sensor_inputs: LgciuSensorInputs::initial(lgciu_id),
            gear_state: GearSystemState::AllDownLocked,
            is_gear_lever_down: true,
            transition_duration: 0,
            gear_lever_position_is_down_previous_state: true,
            status: LgciuStatus::Healthy,
            power_supply_failure: false,
            internal_error_failure: false,
            is_active_computer_previous_state: lgciu_id == LgciuId::Lgciu1,
        }
    }

    pub open spec fn lgciu_id(self) -> LgciuId {
        self.sensor_inputs.lgciu_id
    }

    pub open spec fn with_fault_timers_reset(self) -> Self {
        LgciuState { transition_duration: 0, ..self }
    }

    /// The gear state found from the sensors, with status Ok; or, when the
    /// sensors are inconsistent, the gear state kept and status failed.
    pub open spec fn with_init_gear_state(self) -> Self {
        match initial_gear_state_from(self.sensor_inputs, !self.is_gear_lever_down) {
            Some(g) => LgciuState { gear_state: g, status: LgciuStatus::Healthy, ..self },
            None => LgciuState { status: LgciuStatus::FailedNoChangeOver, ..self },
        }
    }

    /// The transition timer: reset when the gear is locked and the unit is
    /// healthy, or when the lever moved during a transition; otherwise it
    /// grows by `delta`, saturating.
    pub open spec fn with_transition_timer_updated(self, delta: u64, gear_handle_is_down: bool) -> Self {
        let grown = if self.transition_duration + delta > u64::MAX {
            u64::MAX
        } else {
            (self.transition_duration + delta) as u64
        };
        let duration = match self.gear_state {
            GearSystemState::AllUpLocked | GearSystemState::AllDownLocked => {
                if self.status == LgciuStatus::Healthy {
                    0
                } else {
                    grown
                }
            },
            GearSystemState::Extending | GearSystemState::Retracting => {
                if self.gear_lever_position_is_down_previous_state == gear_handle_is_down {
                    grown
                } else {
                    0
                }
            },
        };
        LgciuState {
            transition_duration: duration,
            gear_lever_position_is_down_previous_state: gear_handle_is_down,
            ..self
        }
    }

    /// The status after fault monitoring, from the given (timer-updated) state.
    pub open spec fn monitored_status(self) -> LgciuStatus {
        if !self.is_powered {
            LgciuStatus::FailedNotPowered
        } else if self.status == LgciuStatus::Healthy {
            if self.internal_error_failure {
                LgciuStatus::FailedAutoChangeOver
            } else if self.transition_duration > MAX_TRANSITION_DURATION {
                LgciuStatus::FailedNoChangeOver
            } else {
                LgciuStatus::Healthy
            }
        } else {
            self.status
        }
    }

    pub open spec fn with_monitoring(self, delta: u64, gear_handle_is_down: bool) -> Self {
        let timed = self.with_transition_timer_updated(delta, gear_handle_is_down);
        LgciuState { status: timed.monitored_status(), ..timed }
    }

    /// First step of an update: the lever position, external power and the
    /// sensors are taken in.
    pub open spec fn with_inputs(
        self,
        landing_gear: LandingGear,
        readings: GearSensorReadings,
        external_power_available: bool,
        gear_handle_is_down: bool,
    ) -> Self {
        LgciuState {
            is_gear_lever_down: gear_handle_is_down,
            external_power_available,
            sensor_inputs: self.sensor_inputs.updated(
                landing_gear,
                readings,
                external_power_available,
                self.is_powered,
            ),
            ..self
        }
    }

    /// A unit that becomes master resets its timers and re-initialises its
    /// gear state; a slave resets its timers.
    pub open spec fn with_master_role(self, is_master_computer: bool) -> Self {
        if is_master_computer && !self.is_active_computer_previous_state {
            self.with_fault_timers_reset().with_init_gear_state()
        } else if !is_master_computer {
            self.with_fault_timers_reset()
        } else {
            self
        }
    }

    /// A unit that has just been powered resets its timers and re-initialises
    /// its gear state.
    pub open spec fn with_startup(self) -> Self {
        if self.is_powered && !self.is_powered_previous_state {
            self.with_fault_timers_reset().with_init_gear_state()
        } else {
            self
        }
    }

    /// Only the master runs the gear cycle.
    pub open spec fn with_gear_cycle(self, is_master_computer: bool) -> Self {
        if is_master_computer {
            LgciuState {
                gear_state: next_gear_state_from(
                    self.gear_state,
                    self.sensor_inputs,
                    !self.is_gear_lever_down,
                ),
                ..self
            }
        } else {
            self
        }
    }

    /// Faults are monitored once the simulation is ready.
    pub open spec fn with_monitoring_when_ready(
        self,
        context: UpdateContext,
        gear_handle_is_down: bool,
    ) -> Self {
        if context.is_sim_ready {
            self.with_monitoring(context.delta, gear_handle_is_down)
        } else {
            self
        }
    }

    /// Last step of an update: the role and power are remembered for the next one.
    pub open spec fn with_previous_states(self, is_master_computer: bool) -> Self {
        LgciuState {
            is_active_computer_previous_state: is_master_computer,
            is_powered_previous_state: self.is_powered,
            ..self
        }
    }

    /// The state after one update of the unit.
    pub open spec fn updated(
        self,
        context: UpdateContext,
        landing_gear: LandingGear,
        readings: GearSensorReadings,
        external_power_available: bool,
        gear_handle_is_down: bool,
        is_master_computer: bool,
    ) -> Self {
        self.with_inputs(landing_gear, readings, external_power_available, gear_handle_is_down)
            .with_master_role(is_master_computer)
            .with_startup()
            .with_gear_cycle(is_master_computer)
            .with_monitoring_when_ready(context, gear_handle_is_down)
            .with_previous_states(is_master_computer)
    }

    pub open spec fn spec_should_open_doors(self) -> bool {
        match self.gear_state {
            GearSystemState::AllUpLocked => false,
            GearSystemState::Retracting => !self.sensor_inputs.spec_all_up_and_locked(),
            GearSystemState::Extending => !self.sensor_inputs.spec_all_down_and_locked(),
            GearSystemState::AllDownLocked => false,
        }
    }

    pub open spec fn spec_should_extend_gears(self) -> bool {
        match self.gear_state {
            GearSystemState::AllUpLocked => false,
            GearSystemState::Retracting => !(self.sensor_inputs.spec_all_fully_opened()
                || self.sensor_inputs.spec_all_up_and_locked()),
            GearSystemState::Extending => self.sensor_inputs.spec_all_fully_opened()
                || self.sensor_inputs.spec_all_down_and_locked(),
            GearSystemState::AllDownLocked => true,
        }
    }

    pub open spec fn spec_control_active(self) -> bool {
        self.status == LgciuStatus::Healthy || self.status == LgciuStatus::FailedNoChangeOver
    }

    /// An unpowered unit locks the lever, and so does a powered one unless
    /// all three legs are extended (weight off wheels).
    pub open spec fn spec_gear_handle_baulk_locked(self) -> bool {
        !(self.is_powered && self.sensor_inputs.spec_left_and_right_gear_extended(false)
            && self.sensor_inputs.spec_nose_gear_extended(false))
    }

    pub open spec fn spec_outputs(self) -> LgciuOutputs {
        let i = self.sensor_inputs;
        let down = self.is_gear_lever_down;
        LgciuOutputs {
            left_gear_unlocked: self.is_powered && i.spec_unlock_state(GearWheel::LEFT, down),
            left_gear_downlocked: self.is_powered && i.gear_downlocked(GearWheel::LEFT),
            nose_gear_unlocked: self.is_powered && i.spec_unlock_state(GearWheel::NOSE, down),
            nose_gear_downlocked: self.is_powered && i.gear_downlocked(GearWheel::NOSE),
            right_gear_unlocked: self.is_powered && i.spec_unlock_state(GearWheel::RIGHT, down),
            right_gear_downlocked: self.is_powered && i.gear_downlocked(GearWheel::RIGHT),
            fault: self.status != LgciuStatus::Healthy,
        }
    }
}

pub struct LandingGearControlInterfaceUnit {
    is_powered: bool,
    is_powered_previous_state: bool,
    powered_by: ElectricalBusType,
    external_power_available: bool,
    sensor_inputs: LgciuSensorInputs,
    gear_system_control: GearSystemStateMachine,
    is_gear_lever_down: bool,
    transition_duration: u64,
    gear_lever_position_is_down_previous_state: bool,
    status: LgciuStatus,
    power_supply_failure: bool,
    internal_error_failure: bool,
    is_active_computer_previous_state: bool,
}

impl View for LandingGearControlInterfaceUnit {
    type V = LgciuState;

    closed spec fn view(&self) -> LgciuState {
        LgciuState {
            is_powered: self.is_powered,
            is_powered_previous_state: self.is_powered_previous_state,
            powered_by: self.powered_by,
            external_power_available: self.external_power_available,
            sensor_inputs: self.sensor_inputs,
            gear_state: self.gear_system_control@,
            is_gear_lever_down: self.is_gear_lever_down,
            transition_duration: self.transition_duration,
            gear_lever_position_is_down_previous_state:
                self.gear_lever_position_is_down_previous_state,
            status: self.status,
            power_supply_failure: self.power_supply_failure,
            internal_error_failure: self.internal_error_failure,
            is_active_computer_previous_state: self.is_active_computer_previous_state,
        }
    }
}

impl LandingGearControlInterfaceUnit {
    pub fn new(lgciu_id: LgciuId, powered_by: ElectricalBusType) -> (r: Self)
        ensures
            r@ == LgciuState::initial(lgciu_id, powered_by),
    {
        Self {
            is_powered: false,
            is_powered_previous_state: false,
            powered_by,
            external_power_available: false,
            sensor_inputs: LgciuSensorInputs::new(lgciu_id),
            gear_system_control: GearSystemStateMachine::default(),
            is_gear_lever_down: true,
            transition_duration: 0,
            gear_lever_position_is_down_previous_state: true,
            status: LgciuStatus::Healthy,
            power_supply_failure: false,
            internal_error_failure: false,
            is_active_computer_previous_state: lgciu_id == LgciuId::Lgciu1,
        }
    }

    /// One update, reading the position sensors of this unit from
    /// `gear_system_sensors`.
    pub fn update<S: GearSystemSensors>(
        &mut self,
        context: &UpdateContext,
        landing_gear: &LandingGear,
        gear_system_sensors: &S,
        external_power_available: bool,
        gear_handle_is_down: bool,
        is_master_computer: bool,
    )
        ensures
            final(self)@ == old(self)@.updated(
                *context,
                *landing_gear,
                readings_of(*gear_system_sensors, old(self)@.lgciu_id()),
                external_power_available,
                gear_handle_is_down,
                is_master_computer,
            ),
    {
        let readings = GearSensorReadings::read(gear_system_sensors, self.sensor_inputs.lgciu_id);
        self.update_with_readings(
            context,
            landing_gear,
            &readings,
            external_power_available,
            gear_handle_is_down,
            is_master_computer,
        );
    }

    /// One update: takes in the sensors, resets and re-initialises the gear
    /// state on becoming master or on power-up, runs the gear cycle while
    /// master, and monitors faults once the simulation is ready.
    pub fn update_with_readings(
        &mut self,
        context: &UpdateContext,
        landing_gear: &LandingGear,
        readings: &GearSensorReadings,
        external_power_available: bool,
        gear_handle_is_down: bool,
        is_master_computer: bool,
    )
        ensures
            final(self)@ == old(self)@.updated(
                *context,
                *landing_gear,
                *readings,
                external_power_available,
                gear_handle_is_down,
                is_master_computer,
            ),
    {
        self.take_inputs(landing_gear, readings, external_power_available, gear_handle_is_down);
        self.apply_master_role(is_master_computer);
        self.apply_startup();
        self.run_gear_cycle(is_master_computer);
        if context.is_sim_ready {
            self.update_monitoring(context, gear_handle_is_down);
        }
        self.remember_previous_states(is_master_computer);
    }

    fn apply_master_role(&mut self, is_master_computer: bool)
        ensures
            final(self)@ == old(self)@.with_master_role(is_master_computer),
    {
        if is_master_computer && !self.is_active_computer_previous_state {
            self.actions_when_becoming_master();
        } else if !is_master_computer {
            self.actions_when_slave();
        }
    }

    fn apply_startup(&mut self)
        ensures
            final(self)@ == old(self)@.with_startup(),
    {
        if self.is_powered && !self.is_powered_previous_state {
            self.actions_when_startup();
        }
    }

    fn run_gear_cycle(&mut self, is_master_computer: bool)
        ensures
            final(self)@ == old(self)@.with_gear_cycle(is_master_computer),
    {
        if is_master_computer {
            let gear_handle_position_is_up = !self.is_gear_lever_down;
            self.gear_system_control.update(&self.sensor_inputs, gear_handle_position_is_up);
        }
    }

    fn remember_previous_states(&mut self, is_master_computer: bool)
        ensures
            final(self)@ == old(self)@.with_previous_states(is_master_computer),
    {
        self.is_active_computer_previous_state = is_master_computer;
        self.is_powered_previous_state = self.is_powered;
    }

    fn take_inputs(
        &mut self,
        landing_gear: &LandingGear,
        readings: &GearSensorReadings,
        external_power_available: bool,
        gear_handle_is_down: bool,
    )
        ensures
            final(self)@ == old(self)@.with_inputs(
                *landing_gear,
                *readings,
                external_power_available,
                gear_handle_is_down,
            ),
    {
        self.is_gear_lever_down = gear_handle_is_down;
        self.external_power_available = external_power_available;
        let is_powered = self.is_powered;
        self.sensor_inputs.update_from_readings(
            landing_gear,
            readings,
            external_power_available,
            is_powered,
        );
    }

    fn update_monitoring(&mut self, context: &UpdateContext, gear_handle_is_down: bool)
        ensures
            final(self)@ == old(self)@.with_monitoring(context.delta, gear_handle_is_down),
    {
        self.update_transition_timer(context, gear_handle_is_down);

        let status = if !self.is_powered {
            LgciuStatus::FailedNotPowered
        } else if self.status == LgciuStatus::Healthy {
            if self.internal_error_failure {
                LgciuStatus::FailedAutoChangeOver
            } else if self.transition_duration > MAX_TRANSITION_DURATION {
                LgciuStatus::FailedNoChangeOver
            } else {
                LgciuStatus::Healthy
            }
        } else {
            self.status
        };
        self.status = status;
    }

    fn update_transition_timer(&mut self, context: &UpdateContext, gear_handle_is_down: bool)
        ensures
            final(self)@ == old(self)@.with_transition_timer_updated(
                context.delta,
                gear_handle_is_down,
            ),
    {
        let duration = match self.gear_system_control.state() {
            GearSystemState::AllUpLocked | GearSystemState::AllDownLocked => {
                if self.status == LgciuStatus::Healthy {
                    0
                } else {
                    self.transition_duration.saturating_add(context.delta)
                }
            },
            GearSystemState::Extending | GearSystemState::Retracting => {
                // A lever moved during the transition starts the timer again
                if self.gear_lever_position_is_down_previous_state == gear_handle_is_down {
                    self.transition_duration.saturating_add(context.delta)
                } else {
                    0
                }
            },
        };
        self.transition_duration = duration;
        self.gear_lever_position_is_down_previous_state = gear_handle_is_down;
    }

    fn actions_when_becoming_master(&mut self)
        ensures
            final(self)@ == old(self)@.with_fault_timers_reset().with_init_gear_state(),
    {
        self.reset_fault_timers();
        self.compute_init_gear_state();
    }

    fn actions_when_slave(&mut self)
        ensures
            final(self)@ == old(self)@.with_fault_timers_reset(),
    {
        self.reset_fault_timers();
    }

    fn actions_when_startup(&mut self)
        ensures
            final(self)@ == old(self)@.with_fault_timers_reset().with_init_gear_state(),
    {
        self.reset_fault_timers();
        self.compute_init_gear_state();
    }

    fn compute_init_gear_state(&mut self)
        ensures
            final(self)@ == old(self)@.with_init_gear_state(),
    {
        let gear_handle_position_is_up = !self.is_gear_lever_down;
        let ok = self.gear_system_control.init_gear_state(
            &self.sensor_inputs,
            gear_handle_position_is_up,
        );
        self.status = if ok {
            LgciuStatus::Healthy
        } else {
            LgciuStatus::FailedNoChangeOver
        };
    }

    fn reset_fault_timers(&mut self)
        ensures
            final(self)@ == old(self)@.with_fault_timers_reset(),
    {
        self.transition_duration = 0;
    }

    pub fn gear_system_state(&self) -> (r: GearSystemState)
        ensures
            r == self@.gear_state,
    {
        self.gear_system_control.state()
    }

    pub fn status(&self) -> (r: LgciuStatus)
        ensures
            r == self@.status,
    {
        self.status
    }

    /// The bus that powers this unit.
    pub fn powered_by(&self) -> (r: ElectricalBusType)
        ensures
            r == self@.powered_by,
    {
        self.powered_by
    }

    /// Takes in whether the bus that powers this unit is powered: the unit is
    /// powered when its bus is and its power supply has not failed.
    pub fn receive_power(&mut self, bus_is_powered: bool)
        ensures
            final(self)@ == (LgciuState {
                is_powered: !old(self)@.power_supply_failure && bus_is_powered,
                ..old(self)@
            }),
    {
        self.is_powered = !self.power_supply_failure && bus_is_powered;
    }

    /// Activates or clears a failure; failures of the other unit are ignored.
    pub fn set_failure(&mut self, failure: FailureType, is_active: bool)
        ensures
            final(self)@ == (match failure {
                FailureType::LgciuPowerSupply(id) => if id == old(self)@.lgciu_id() {
                    LgciuState { power_supply_failure: is_active, ..old(self)@ }
                } else {
                    old(self)@
                },
                FailureType::LgciuInternalError(id) => if id == old(self)@.lgciu_id() {
                    LgciuState { internal_error_failure: is_active, ..old(self)@ }
                } else {
                    old(self)@
                },
            }),
    {
        match failure {
            FailureType::LgciuPowerSupply(id) => {
                if id == self.sensor_inputs.lgciu_id {
                    self.power_supply_failure = is_active;
                }
            },
            FailureType::LgciuInternalError(id) => {
                if id == self.sensor_inputs.lgciu_id {
                    self.internal_error_failure = is_active;
                }
            },
        }
    }

    pub fn set_power_supply_failure(&mut self, is_active: bool)
        ensures
            final(self)@ == (LgciuState { power_supply_failure: is_active, ..old(self)@ }),
    {
        self.power_supply_failure = is_active;
    }

    pub fn set_internal_error_failure(&mut self, is_active: bool)
        ensures
            final(self)@ == (LgciuState { internal_error_failure: is_active, ..old(self)@ }),
    {
        self.internal_error_failure = is_active;
    }

    /// The signals the unit publishes.
    pub fn outputs(&self) -> (r: LgciuOutputs)
        ensures
            r == self@.spec_outputs(),
    {
        let down = self.gear_handle_is_down();
        LgciuOutputs {
            left_gear_unlocked: self.is_powered && self.sensor_inputs.unlock_state(
                GearWheel::LEFT,
                down,
            ),
            left_gear_downlocked: self.is_powered && self.sensor_inputs.downlock_state(
                GearWheel::LEFT,
            ),
            nose_gear_unlocked: self.is_powered && self.sensor_inputs.unlock_state(
                GearWheel::NOSE,
                down,
            ),
            nose_gear_downlocked: self.is_powered && self.sensor_inputs.downlock_state(
                GearWheel::NOSE,
            ),
            right_gear_unlocked: self.is_powered && self.sensor_inputs.unlock_state(
                GearWheel::RIGHT,
                down,
            ),
            right_gear_downlocked: self.is_powered && self.sensor_inputs.downlock_state(
                GearWheel::RIGHT,
            ),
            fault: self.status() != LgciuStatus::Healthy,
        }
    }

    /// The weight on wheels signals of the unit's sensor inputs, for
    /// (nose, left, right).
    pub fn compressed_outputs(&self) -> (r: (bool, bool, bool))
        ensures
            r.0 == (self@.sensor_inputs.is_powered && self@.sensor_inputs.spec_nose_gear_compressed(false)),
            r.1 == (self@.sensor_inputs.is_powered && self@.sensor_inputs.spec_left_gear_compressed(false)),
            r.2 == (self@.sensor_inputs.is_powered && self@.sensor_inputs.spec_right_gear_compressed(false)),
    {
        self.sensor_inputs.compressed_outputs()
    }

    pub fn right_gear_compressed(&self, treat_ext_pwr_as_ground: bool) -> (r: bool)
        ensures
            r == self@.sensor_inputs.spec_right_gear_compressed(treat_ext_pwr_as_ground),
    {
        self.sensor_inputs.right_gear_compressed(treat_ext_pwr_as_ground)
    }

    pub fn right_gear_extended(&self, treat_ext_pwr_as_ground: bool) -> (r: bool)
        ensures
            r == self@.sensor_inputs.spec_right_gear_extended(treat_ext_pwr_as_ground),
    {
        self.sensor_inputs.right_gear_extended(treat_ext_pwr_as_ground)
    }

    pub fn left_gear_compressed(&self, treat_ext_pwr_as_ground: bool) -> (r: bool)
        ensures
            r == self@.sensor_inputs.spec_left_gear_compressed(treat_ext_pwr_as_ground),
    {
        self.sensor_inputs.left_gear_compressed(treat_ext_pwr_as_ground)
    }

    pub fn left_gear_extended(&self, treat_ext_pwr_as_ground: bool) -> (r: bool)
        ensures
            r == self@.sensor_inputs.spec_left_gear_extended(treat_ext_pwr_as_ground),
    {
        self.sensor_inputs.left_gear_extended(treat_ext_pwr_as_ground)
    }

    pub fn left_and_right_gear_compressed(&self, treat_ext_pwr_as_ground: bool) -> (r: bool)
        ensures
            r == self@.sensor_inputs.spec_left_and_right_gear_compressed(treat_ext_pwr_as_ground),
    {
        self.sensor_inputs.left_and_right_gear_compressed(treat_ext_pwr_as_ground)
    }

    pub fn left_and_right_gear_extended(&self, treat_ext_pwr_as_ground: bool) -> (r: bool)
        ensures
            r == self@.sensor_inputs.spec_left_and_right_gear_extended(treat_ext_pwr_as_ground),
    {
        self.sensor_inputs.left_and_right_gear_extended(treat_ext_pwr_as_ground)
    }

    pub fn nose_gear_compressed(&self, treat_ext_pwr_as_ground: bool) -> (r: bool)
        ensures
            r == self@.sensor_inputs.spec_nose_gear_compressed(treat_ext_pwr_as_ground),
    {
        self.sensor_inputs.nose_gear_compressed(treat_ext_pwr_as_ground)
    }

    pub fn nose_gear_extended(&self, treat_ext_pwr_as_ground: bool) -> (r: bool)
        ensures
            r == self@.sensor_inputs.spec_nose_gear_extended(treat_ext_pwr_as_ground),
    {
        self.sensor_inputs.nose_gear_extended(treat_ext_pwr_as_ground)
    }

    pub fn all_down_and_locked(&self) -> (r: bool)
        ensures
            r == self@.sensor_inputs.spec_all_down_and_locked(),
    {
        self.sensor_inputs.all_down_and_locked()
    }

    pub fn all_up_and_locked(&self) -> (r: bool)
        ensures
            r == self@.sensor_inputs.spec_all_up_and_locked(),
    {
        self.sensor_inputs.all_up_and_locked()
    }

    pub fn all_fully_opened(&self) -> (r: bool)
        ensures
            r == self@.sensor_inputs.spec_all_fully_opened(),
    {
        self.sensor_inputs.all_fully_opened()
    }

    pub fn all_closed_and_locked(&self) -> (r: bool)
        ensures
            r == self@.sensor_inputs.spec_all_closed_and_locked(),
    {
        self.sensor_inputs.all_closed_and_locked()
    }

    /// Whether the gear doors should be driven open.
    pub fn should_open_doors(&self) -> (r: bool)
        ensures
            r == self@.spec_should_open_doors(),
    {
        match self.gear_system_control.state() {
            GearSystemState::AllUpLocked => false,
            GearSystemState::Retracting => !self.all_up_and_locked(),
            GearSystemState::Extending => !self.all_down_and_locked(),
            GearSystemState::AllDownLocked => false,
        }
    }

    /// Whether the gears should be driven down (otherwise up).
    pub fn should_extend_gears(&self) -> (r: bool)
        ensures
            r == self@.spec_should_extend_gears(),
    {
        match self.gear_system_control.state() {
            GearSystemState::AllUpLocked => false,
            GearSystemState::Retracting => !(self.all_fully_opened() || self.all_up_and_locked()),
            GearSystemState::Extending => self.all_fully_opened() || self.all_down_and_locked(),
            GearSystemState::AllDownLocked => true,
        }
    }

    /// Whether the unit still controls the gear: it does when healthy or
    /// failed without changeover.
    pub fn control_active(&self) -> (r: bool)
        ensures
            r == self@.spec_control_active(),
    {
        match self.status {
            LgciuStatus::Healthy | LgciuStatus::FailedNoChangeOver => true,
            LgciuStatus::FailedNotPowered | LgciuStatus::FailedAutoChangeOver => false,
        }
    }

    pub fn gear_handle_is_down(&self) -> (r: bool)
        ensures
            r == self@.is_gear_lever_down,
    {
        self.is_gear_lever_down
    }

    /// Whether this unit asks for the lever to be locked down.
    pub fn gear_handle_baulk_locked(&self) -> (r: bool)
        ensures
            r == self@.spec_gear_handle_baulk_locked(),
            !self@.is_powered ==> r,
    {
        !(self.is_powered && self.left_and_right_gear_extended(false) && self.nose_gear_extended(
            false,
        ))
    }
}

/// Fault monitoring never clears a fault: a failed unit stays failed until
/// its gear state is initialised again.
pub proof fn lemma_monitoring_keeps_faults(s: LgciuState, delta: u64, gear_handle_is_down: bool)
    requires
        s.status != LgciuStatus::Healthy,
    ensures
        s.with_monitoring(delta, gear_handle_is_down).status != LgciuStatus::Healthy,
{
}

/// An unpowered unit is declared failed by fault monitoring.
pub proof fn lemma_unpowered_unit_fails(s: LgciuState, delta: u64, gear_handle_is_down: bool)
    requires
        !s.is_powered,
    ensures
        s.with_monitoring(delta, gear_handle_is_down).status == LgciuStatus::FailedNotPowered,
{
}

/// A healthy, powered unit whose gear has been in transition, with the lever
/// not moved, for longer than the maximum transition time is declared failed
/// without changeover (unless an internal error is active, which fails it with
/// changeover).
pub proof fn lemma_slow_transition_fails(s: LgciuState, delta: u64, gear_handle_is_down: bool)
    requires
        s.is_powered,
        s.status == LgciuStatus::Healthy,
        s.gear_state == GearSystemState::Extending || s.gear_state == GearSystemState::Retracting,
        s.gear_lever_position_is_down_previous_state == gear_handle_is_down,
        s.transition_duration + delta > MAX_TRANSITION_DURATION,
    ensures
        s.with_monitoring(delta, gear_handle_is_down).status == (if s.internal_error_failure {
            LgciuStatus::FailedAutoChangeOver
        } else {
            LgciuStatus::FailedNoChangeOver
        }),
{
}

/// A healthy unit whose gear is locked up or down keeps its transition timer
/// at zero and stays healthy unless unpowered or internally failed.
pub proof fn lemma_locked_gear_keeps_unit_healthy(s: LgciuState, delta: u64, gear_handle_is_down: bool)
    requires
        s.is_powered,
        !s.internal_error_failure,
        s.status == LgciuStatus::Healthy,
        s.gear_state == GearSystemState::AllUpLocked || s.gear_state
            == GearSystemState::AllDownLocked,
    ensures
        s.with_monitoring(delta, gear_handle_is_down).transition_duration == 0,
        s.with_monitoring(delta, gear_handle_is_down).status == LgciuStatus::Healthy,
{
}

/// Over a whole update, a failed unit becomes healthy again only when its gear
/// state is initialised: when it becomes master, or when it has just been powered.
pub proof fn lemma_recovery_only_by_initialisation(
    s: LgciuState,
    context: UpdateContext,
    landing_gear: LandingGear,
    readings: GearSensorReadings,
    external_power_available: bool,
    gear_handle_is_down: bool,
    is_master_computer: bool,
)
    requires
        s.status != LgciuStatus::Healthy,
        s.updated(
            context,
            landing_gear,
            readings,
            external_power_available,
            gear_handle_is_down,
            is_master_computer,
        ).status == LgciuStatus::Healthy,
    ensures
        (is_master_computer && !s.is_active_computer_previous_state) || (s.is_powered
            && !s.is_powered_previous_state),
{
}

/// A slave unit that has not just been powered leaves the gear state alone.
pub proof fn lemma_slave_keeps_gear_state(
    s: LgciuState,
    context: UpdateContext,
    landing_gear: LandingGear,
    readings: GearSensorReadings,
    external_power_available: bool,
    gear_handle_is_down: bool,
)
    requires
        !(s.is_powered && !s.is_powered_previous_state),
    ensures
        s.updated(
            context,
            landing_gear,
            readings,
            external_power_available,
            gear_handle_is_down,
            false,
        ).gear_state == s.gear_state,
{
}

/// Gears and doors never move together: during a retraction the gears are
/// held down until the doors are fully open (or the gears are up and locked),
/// and during an extension they are held up until the doors are fully open
/// (or the gears are down and locked).
pub proof fn lemma_gears_move_only_with_doors_open(s: LgciuState)
    ensures
        s.gear_state == GearSystemState::Retracting && !s.sensor_inputs.spec_all_fully_opened()
            && !s.sensor_inputs.spec_all_up_and_locked() ==> s.spec_should_extend_gears(),
        s.gear_state == GearSystemState::Extending && !s.sensor_inputs.spec_all_fully_opened()
            && !s.sensor_inputs.spec_all_down_and_locked() ==> !s.spec_should_extend_gears(),
{
}

/// In a locked state the doors are kept closed and the gears are held where
/// they are locked.
pub proof fn lemma_locked_states_hold_gear_and_doors(s: LgciuState)
    ensures
        s.gear_state == GearSystemState::AllUpLocked ==> !s.spec_should_open_doors()
            && !s.spec_should_extend_gears(),
        s.gear_state == GearSystemState::AllDownLocked ==> !s.spec_should_open_doors()
            && s.spec_should_extend_gears(),
{
}

/// The doors are driven open only during a transition, and are kept open until
/// every one of the three gears is locked in the target position: while
/// retracting, until nose, left and right all read up and locked (with the unit
/// powered); while extending, until they all read down and locked.
pub proof fn lemma_doors_open_until_every_gear_locked(s: LgciuState)
    ensures
        ({
            let i = s.sensor_inputs;
            &&& s.gear_state == GearSystemState::Retracting ==> s.spec_should_open_doors() == !(
            i.is_powered && i.nose_gear_up_and_locked && i.left_gear_up_and_locked
                && i.right_gear_up_and_locked)
            &&& s.gear_state == GearSystemState::Extending ==> s.spec_should_open_doors() == !(
            i.is_powered && i.nose_gear_down_and_locked && i.left_gear_down_and_locked
                && i.right_gear_down_and_locked)
            &&& (s.gear_state == GearSystemState::AllUpLocked || s.gear_state
                == GearSystemState::AllDownLocked) ==> !s.spec_should_open_doors()
        }),
{
}

/// The gears are driven down in the down-locked state, up in the up-locked
/// state; while retracting they are driven up only once every door is fully
/// open or every gear is up and locked; while extending they are driven down
/// once every door is fully open or every gear is down and locked.
pub proof fn lemma_gear_command_per_state(s: LgciuState)
    ensures
        ({
            let i = s.sensor_inputs;
            let doors_open = i.is_powered && i.nose_door_fully_opened && i.left_door_fully_opened
                && i.right_door_fully_opened;
            let all_up = i.is_powered && i.nose_gear_up_and_locked && i.left_gear_up_and_locked
                && i.right_gear_up_and_locked;
            let all_down = i.is_powered && i.nose_gear_down_and_locked
                && i.left_gear_down_and_locked && i.right_gear_down_and_locked;
            &&& s.gear_state == GearSystemState::AllDownLocked ==> s.spec_should_extend_gears()
            &&& s.gear_state == GearSystemState::AllUpLocked ==> !s.spec_should_extend_gears()
            &&& s.gear_state == GearSystemState::Retracting ==> s.spec_should_extend_gears() == !(
            doors_open || all_up)
            &&& s.gear_state == GearSystemState::Extending ==> s.spec_should_extend_gears() == (
            doors_open || all_down)
        }),
{
}

/// The signals a unit publishes, per leg: "unlocked" when powered and the leg
/// is not locked in the position the lever asks for alone; "downlocked" when
/// powered and the leg reads down and locked; "fault" when not healthy.
pub proof fn lemma_outputs_per_leg(s: LgciuState)
    ensures
        ({
            let i = s.sensor_inputs;
            let o = s.spec_outputs();
            let down = s.is_gear_lever_down;
            &&& o.left_gear_unlocked == (s.is_powered && !(if down {
                i.left_gear_down_and_locked && !i.left_gear_up_and_locked
            } else {
                i.left_gear_up_and_locked && !i.left_gear_down_and_locked
            }))
            &&& o.nose_gear_unlocked == (s.is_powered && !(if down {
                i.nose_gear_down_and_locked && !i.nose_gear_up_and_locked
            } else {
                i.nose_gear_up_and_locked && !i.nose_gear_down_and_locked
            }))
            &&& o.right_gear_unlocked == (s.is_powered && !(if down {
                i.right_gear_down_and_locked && !i.right_gear_up_and_locked
            } else {
                i.right_gear_up_and_locked && !i.right_gear_down_and_locked
            }))
            &&& o.left_gear_downlocked == (s.is_powered && i.left_gear_down_and_locked)
            &&& o.nose_gear_downlocked == (s.is_powered && i.nose_gear_down_and_locked)
            &&& o.right_gear_downlocked == (s.is_powered && i.right_gear_down_and_locked)
            &&& o.fault == (s.status != LgciuStatus::Healthy)
        }),
{
}

/// A unit asks for the lever lock unless it is powered, its inputs are
/// powered, and it sees all three legs uncompressed (external power is not
/// taken as ground here).
pub proof fn lemma_unit_lock_request(s: LgciuState)
    ensures
        s.spec_gear_handle_baulk_locked() == !(s.is_powered && s.sensor_inputs.is_powered
            && !s.sensor_inputs.nose_gear_sensor_compressed
            && !s.sensor_inputs.left_gear_sensor_compressed
            && !s.sensor_inputs.right_gear_sensor_compressed),
{
}

/// The steps of an update after the first leave the inputs, power and roles alone.
proof fn lemma_steps_keep_inputs(
    s: LgciuState,
    context: UpdateContext,
    gear_handle_is_down: bool,
    is_master_computer: bool,
)
    ensures
        ({
            let m = s.with_master_role(is_master_computer);
            let t = s.with_startup();
            let g = s.with_gear_cycle(is_master_computer);
            let w = s.with_monitoring_when_ready(context, gear_handle_is_down);
            &&& m.sensor_inputs == s.sensor_inputs && m.is_powered == s.is_powered
            &&& m.power_supply_failure == s.power_supply_failure && m.powered_by == s.powered_by
            &&& m.is_gear_lever_down == s.is_gear_lever_down
            &&& m.external_power_available == s.external_power_available
            &&& t.sensor_inputs == s.sensor_inputs && t.is_powered == s.is_powered
            &&& t.power_supply_failure == s.power_supply_failure && t.powered_by == s.powered_by
            &&& t.is_gear_lever_down == s.is_gear_lever_down
            &&& t.external_power_available == s.external_power_available
            &&& g.sensor_inputs == s.sensor_inputs && g.is_powered == s.is_powered
            &&& g.power_supply_failure == s.power_supply_failure && g.powered_by == s.powered_by
            &&& g.is_gear_lever_down == s.is_gear_lever_down
            &&& g.external_power_available == s.external_power_available
            &&& w.sensor_inputs == s.sensor_inputs && w.is_powered == s.is_powered
            &&& w.power_supply_failure == s.power_supply_failure && w.powered_by == s.powered_by
            &&& w.is_gear_lever_down == s.is_gear_lever_down
            &&& w.external_power_available == s.external_power_available
        }),
{
}

/// An update takes in the sensors, the lever and external power, and leaves
/// power, the power supply failure and the unit's identity alone.
pub proof fn lemma_update_takes_in_inputs(
    s: LgciuState,
    context: UpdateContext,
    landing_gear: LandingGear,
    readings: GearSensorReadings,
    external_power_available: bool,
    gear_handle_is_down: bool,
    is_master_computer: bool,
)
    ensures
        ({
            let u = s.updated(
                context,
                landing_gear,
                readings,
                external_power_available,
                gear_handle_is_down,
                is_master_computer,
            );
            &&& u.is_powered == s.is_powered
            &&& u.power_supply_failure == s.power_supply_failure
            &&& u.powered_by == s.powered_by
            &&& u.sensor_inputs == s.sensor_inputs.updated(
                landing_gear,
                readings,
                external_power_available,
                s.is_powered,
            )
            &&& u.is_gear_lever_down == gear_handle_is_down
            &&& u.external_power_available == external_power_available
            &&& u.is_powered_previous_state == s.is_powered
            &&& u.is_active_computer_previous_state == is_master_computer
        }),
{
    let s1 = s.with_inputs(landing_gear, readings, external_power_available, gear_handle_is_down);
    let s2 = s1.with_master_role(is_master_computer);
    let s3 = s2.with_startup();
    let s4 = s3.with_gear_cycle(is_master_computer);
    let s5 = s4.with_monitoring_when_ready(context, gear_handle_is_down);
    lemma_steps_keep_inputs(s1, context, gear_handle_is_down, is_master_computer);
    lemma_steps_keep_inputs(s2, context, gear_handle_is_down, is_master_computer);
    lemma_steps_keep_inputs(s3, context, gear_handle_is_down, is_master_computer);
    lemma_steps_keep_inputs(s4, context, gear_handle_is_down, is_master_computer);
}

} // verus!
