use landing_gear::coordinator::{LandingGearControlCoordinator, LandingGearHandleUnit};
use landing_gear::gear_state::{GearSystemState, GearSystemStateMachine};
use landing_gear::landing_gear::LandingGear;
use landing_gear::lgciu::{LandingGearControlInterfaceUnit, LgciuStatus};
use landing_gear::sensors::{GearSensorReadings, LgciuSensorInputs, WheelSensorReadings};
use landing_gear::shared::{
    lgciu_index, lgciu_number, ElectricalBusType, FailureType, GearWheel, LgciuId, UpdateContext,
};

fn wheel(up: bool, down: bool, door_up: bool, door_down: bool) -> WheelSensorReadings {
    WheelSensorReadings {
        gear_up_and_locked: up,
        gear_down_and_locked: down,
        door_up_and_locked: door_up,
        door_down_and_locked: door_down,
    }
}

fn all(w: WheelSensorReadings) -> GearSensorReadings {
    GearSensorReadings {
        nose: w,
        left: w,
        right: w,
    }
}

fn inputs(readings: GearSensorReadings, powered: bool) -> LgciuSensorInputs {
    let mut lg = LandingGear::new();
    lg.set_compression(false, false, false);
    let mut i = LgciuSensorInputs::new(LgciuId::Lgciu1);
    i.update_from_readings(&lg, &readings, false, powered);
    i
}

#[test]
fn lgciu_numbers_and_indices() {
    assert_eq!(lgciu_number(LgciuId::Lgciu1), 1);
    assert_eq!(lgciu_number(LgciuId::Lgciu2), 2);
    assert_eq!(lgciu_index(LgciuId::Lgciu1), 0);
    assert_eq!(lgciu_index(LgciuId::Lgciu2), 1);
}

#[test]
fn landing_gear_reports_set_compression() {
    let mut lg = LandingGear::new();
    assert!(!lg.is_wheel_id_compressed(GearWheel::NOSE));
    lg.set_compression(false, true, false);
    assert!(!lg.is_wheel_id_compressed(GearWheel::NOSE));
    assert!(lg.is_wheel_id_compressed(GearWheel::LEFT));
    assert!(!lg.is_wheel_id_compressed(GearWheel::RIGHT));
}

#[test]
fn weight_on_wheels_compressed_and_extended_exclusive() {
    let mut lg = LandingGear::new();
    lg.set_compression(true, false, true);
    let mut i = LgciuSensorInputs::new(LgciuId::Lgciu2);
    i.update_from_readings(&lg, &all(wheel(false, true, true, false)), true, true);
    for t in [false, true] {
        assert!(!(i.right_gear_compressed(t) && i.right_gear_extended(t)));
        assert!(!(i.left_gear_compressed(t) && i.left_gear_extended(t)));
        assert!(!(i.nose_gear_compressed(t) && i.nose_gear_extended(t)));
        assert!(!(i.left_and_right_gear_compressed(t) && i.left_and_right_gear_extended(t)));
    }
    assert!(i.nose_gear_compressed(false));
    assert!(i.left_gear_extended(false));
    assert!(!i.left_gear_extended(true));
    assert!(i.left_gear_compressed(true));
    assert!(!i.left_and_right_gear_compressed(false));
    assert!(i.left_and_right_gear_compressed(true));
    assert_eq!(i.compressed_outputs(), (true, false, true));
}

#[test]
fn unpowered_inputs_with_external_power_still_compressed_pair() {
    let mut lg = LandingGear::new();
    lg.set_compression(false, false, false);
    let mut i = LgciuSensorInputs::new(LgciuId::Lgciu1);
    i.update_from_readings(&lg, &all(wheel(false, true, true, false)), true, false);
    assert!(!i.right_gear_compressed(true));
    assert!(!i.nose_gear_extended(false));
    assert!(i.left_and_right_gear_compressed(true));
    assert!(!i.all_down_and_locked());
    assert_eq!(i.compressed_outputs(), (false, false, false));
}

#[test]
fn unlock_and_downlock_states() {
    let i = inputs(
        GearSensorReadings {
            nose: wheel(false, true, true, false),
            left: wheel(true, true, true, false),
            right: wheel(true, false, true, false),
        },
        true,
    );
    // Down and locked with the lever down: locked
    assert!(!i.unlock_state(GearWheel::NOSE, true));
    // Both sensors locked: in transition
    assert!(i.unlock_state(GearWheel::LEFT, true));
    // Up and locked while the lever asks for down
    assert!(i.unlock_state(GearWheel::RIGHT, true));
    assert!(!i.unlock_state(GearWheel::RIGHT, false));
    assert!(i.downlock_state(GearWheel::NOSE));
    assert!(!i.downlock_state(GearWheel::RIGHT));
}

#[test]
fn gear_state_machine_cycle() {
    let down_closed = inputs(all(wheel(false, true, true, false)), true);
    let up_closed = inputs(all(wheel(true, false, true, false)), true);
    let moving_open = inputs(all(wheel(false, false, false, true)), true);

    let mut sm = GearSystemStateMachine::default();
    assert_eq!(sm.state(), GearSystemState::AllDownLocked);
    sm.update(&down_closed, false);
    assert_eq!(sm.state(), GearSystemState::AllDownLocked);
    sm.update(&down_closed, true);
    assert_eq!(sm.state(), GearSystemState::Retracting);
    sm.update(&moving_open, true);
    assert_eq!(sm.state(), GearSystemState::Retracting);
    sm.update(&up_closed, true);
    assert_eq!(sm.state(), GearSystemState::AllUpLocked);
    assert_eq!(sm.new_gear_state(&up_closed, true), GearSystemState::AllUpLocked);
    sm.update(&up_closed, false);
    assert_eq!(sm.state(), GearSystemState::Extending);
    sm.update(&moving_open, true);
    assert_eq!(sm.state(), GearSystemState::Retracting);
    sm.update(&moving_open, false);
    assert_eq!(sm.state(), GearSystemState::Extending);
    sm.update(&down_closed, false);
    assert_eq!(sm.state(), GearSystemState::AllDownLocked);
}

#[test]
fn gear_state_init_from_sensors() {
    let mut sm = GearSystemStateMachine::default();
    let inconsistent = inputs(all(wheel(false, false, false, false)), true);
    assert!(!sm.init_gear_state(&inconsistent, true));
    assert_eq!(sm.state(), GearSystemState::AllDownLocked);

    let up_closed = inputs(all(wheel(true, false, true, false)), true);
    assert!(sm.init_gear_state(&up_closed, false));
    assert_eq!(sm.state(), GearSystemState::AllUpLocked);

    let doors_open_gear_moving = inputs(all(wheel(false, false, false, true)), true);
    assert!(sm.init_gear_state(&doors_open_gear_moving, true));
    assert_eq!(sm.state(), GearSystemState::Retracting);
    assert!(sm.init_gear_state(&doors_open_gear_moving, false));
    assert_eq!(sm.state(), GearSystemState::Extending);

    // An unpowered unit sees nothing: inconsistent
    let unpowered = inputs(all(wheel(false, true, true, false)), false);
    assert!(!sm.init_gear_state(&unpowered, false));
    assert_eq!(sm.state(), GearSystemState::Extending);
}

#[test]
fn coordinator_switches_on_new_up_cycle_to_healthy_unit() {
    let healthy = [LgciuStatus::Healthy, LgciuStatus::Healthy];
    let mut c = LandingGearControlCoordinator::new();
    assert_eq!(c.active_lgciu_id(), LgciuId::Lgciu1);
    c.update(healthy, true);
    assert_eq!(c.active_lgciu_id(), LgciuId::Lgciu1);
    c.update(healthy, false);
    assert_eq!(c.active_lgciu_id(), LgciuId::Lgciu2);
    c.update(healthy, false);
    assert_eq!(c.active_lgciu_id(), LgciuId::Lgciu2);
    c.update(healthy, true);
    assert_eq!(c.active_lgciu_id(), LgciuId::Lgciu2);

    // The other unit is not healthy: no switch at the new up cycle
    c.update([LgciuStatus::FailedNoChangeOver, LgciuStatus::Healthy], false);
    assert_eq!(c.active_lgciu_id(), LgciuId::Lgciu2);
}

#[test]
fn coordinator_switches_away_from_failed_master() {
    let mut c = LandingGearControlCoordinator::new();
    c.update([LgciuStatus::FailedAutoChangeOver, LgciuStatus::Healthy], true);
    assert_eq!(c.active_lgciu_id(), LgciuId::Lgciu2);

    // Failed without changeover: kept until the lever moves
    let mut c = LandingGearControlCoordinator::new();
    c.update([LgciuStatus::FailedNoChangeOver, LgciuStatus::Healthy], true);
    assert_eq!(c.active_lgciu_id(), LgciuId::Lgciu1);
    c.update([LgciuStatus::FailedNoChangeOver, LgciuStatus::Healthy], true);
    assert_eq!(c.active_lgciu_id(), LgciuId::Lgciu1);
    c.previous_gear_handle_is_down = false;
    c.update([LgciuStatus::FailedNoChangeOver, LgciuStatus::Healthy], true);
    assert_eq!(c.active_lgciu_id(), LgciuId::Lgciu2);

    let mut c = LandingGearControlCoordinator::new();
    c.lgciu_switchover([LgciuStatus::Healthy, LgciuStatus::FailedNotPowered]);
    assert_eq!(c.active_lgciu_id(), LgciuId::Lgciu1);
}

#[test]
fn gear_handle_stays_down_when_locked() {
    let mut h = LandingGearHandleUnit::new();
    assert!(h.gear_handle_is_down());
    assert!(h.gear_handle_baulk_locked());
    h.read(false);
    assert!(h.gear_handle_is_down());
    h.update(true, false);
    assert!(!h.gear_handle_baulk_locked());
    h.read(false);
    assert!(!h.gear_handle_is_down());
    h.update(true, true);
    h.read(false);
    assert!(!h.gear_handle_is_down());
    h.read(true);
    assert!(h.gear_handle_is_down());
}

fn powered_unit(id: LgciuId) -> LandingGearControlInterfaceUnit {
    let mut u = LandingGearControlInterfaceUnit::new(id, ElectricalBusType::DirectCurrent(1));
    u.receive_power(true);
    u
}

#[test]
fn unit_initialises_on_power_up_and_publishes_outputs() {
    let lg = LandingGear::new();
    let mut u = powered_unit(LgciuId::Lgciu1);
    let ctx = UpdateContext::new(100_000_000, true);
    let down_closed = all(wheel(false, true, true, false));
    u.update_with_readings(&ctx, &lg, &down_closed, false, true, true);
    assert_eq!(u.status(), LgciuStatus::Healthy);
    assert_eq!(u.gear_system_state(), GearSystemState::AllDownLocked);
    assert!(u.control_active());
    // A second update changes nothing
    u.update_with_readings(&ctx, &lg, &down_closed, false, true, true);
    assert!(u.all_down_and_locked());
    assert!(u.all_closed_and_locked());
    assert!(!u.should_open_doors());
    assert!(u.should_extend_gears());
    assert!(!u.gear_handle_baulk_locked());
    let out = u.outputs();
    assert!(!out.left_gear_unlocked && out.left_gear_downlocked);
    assert!(!out.nose_gear_unlocked && out.nose_gear_downlocked);
    assert!(!out.right_gear_unlocked && out.right_gear_downlocked);
    assert!(!out.fault);
}

#[test]
fn unit_inconsistent_sensors_fail_on_power_up() {
    let lg = LandingGear::new();
    let mut u = powered_unit(LgciuId::Lgciu2);
    let ctx = UpdateContext::new(0, false);
    // Gears and doors both between positions
    u.update_with_readings(&ctx, &lg, &all(wheel(false, false, false, false)), false, true, false);
    assert_eq!(u.status(), LgciuStatus::FailedNoChangeOver);
    assert!(u.control_active());
    assert!(u.outputs().fault);
}

#[test]
fn unpowered_unit_locks_lever_and_fails() {
    let lg = LandingGear::new();
    let mut u = LandingGearControlInterfaceUnit::new(
        LgciuId::Lgciu1,
        ElectricalBusType::DirectCurrentEssential,
    );
    assert!(u.gear_handle_baulk_locked());
    u.receive_power(false);
    let ctx = UpdateContext::new(100_000_000, true);
    u.update_with_readings(&ctx, &lg, &all(wheel(false, true, true, false)), false, true, true);
    assert_eq!(u.status(), LgciuStatus::FailedNotPowered);
    assert!(!u.control_active());
    assert!(u.gear_handle_baulk_locked());
    assert!(!u.right_gear_compressed(false));
    assert!(!u.right_gear_extended(false));
}

#[test]
fn power_supply_failure_cuts_power() {
    let mut u = LandingGearControlInterfaceUnit::new(LgciuId::Lgciu2, ElectricalBusType::DirectCurrentHot(2));
    assert_eq!(u.powered_by(), ElectricalBusType::DirectCurrentHot(2));
    u.set_failure(FailureType::LgciuPowerSupply(LgciuId::Lgciu1), true);
    u.receive_power(true);
    // Failure of the other unit: still powered, so no lock from power alone
    let lg = LandingGear::new();
    let ctx = UpdateContext::new(0, true);
    u.update_with_readings(&ctx, &lg, &all(wheel(false, true, true, false)), false, true, false);
    u.update_with_readings(&ctx, &lg, &all(wheel(false, true, true, false)), false, true, false);
    assert!(!u.gear_handle_baulk_locked());
    u.set_failure(FailureType::LgciuPowerSupply(LgciuId::Lgciu2), true);
    u.receive_power(true);
    assert!(u.gear_handle_baulk_locked());
}

#[test]
fn transition_timer_fails_slow_retraction_after_thirty_seconds() {
    let lg = LandingGear::new();
    let mut u = powered_unit(LgciuId::Lgciu1);
    let ctx0 = UpdateContext::new(0, true);
    let down_closed = all(wheel(false, true, true, false));
    u.update_with_readings(&ctx0, &lg, &down_closed, false, true, true);
    u.update_with_readings(&ctx0, &lg, &down_closed, false, true, true);
    // Lever up: retracting; the lever change resets the timer
    u.update_with_readings(&ctx0, &lg, &down_closed, false, false, true);
    assert_eq!(u.gear_system_state(), GearSystemState::Retracting);
    let ten_s = UpdateContext::new(10_000_000_000, true);
    for _ in 0..3 {
        u.update_with_readings(&ten_s, &lg, &down_closed, false, false, true);
        assert_eq!(u.status(), LgciuStatus::Healthy);
    }
    // 30 s exactly is not beyond the limit; one more nanosecond is
    let one_ns = UpdateContext::new(1, true);
    u.update_with_readings(&one_ns, &lg, &down_closed, false, false, true);
    assert_eq!(u.status(), LgciuStatus::FailedNoChangeOver);
}

#[test]
fn transition_timer_saturates() {
    let lg = LandingGear::new();
    let mut u = powered_unit(LgciuId::Lgciu1);
    let ctx0 = UpdateContext::new(0, true);
    let down_closed = all(wheel(false, true, true, false));
    u.update_with_readings(&ctx0, &lg, &down_closed, false, true, true);
    u.update_with_readings(&ctx0, &lg, &down_closed, false, false, true);
    let huge = UpdateContext::new(u64::MAX, true);
    u.update_with_readings(&huge, &lg, &down_closed, false, false, true);
    u.update_with_readings(&huge, &lg, &down_closed, false, false, true);
    assert_eq!(u.status(), LgciuStatus::FailedNoChangeOver);
}
