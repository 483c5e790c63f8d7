use std::time::Duration;

use landing_gear::gear_state::GearSystemState;
use landing_gear::landing_gear::{GearSystemSensors, LandingGear};
use landing_gear::lgciu::{LandingGearControlInterfaceUnit, LgciuStatus};
use landing_gear::lgciu_set::LandingGearControlInterfaceUnitSet;
use landing_gear::sensors::GearSensorReadings;
use landing_gear::shared::{ElectricalBusType, FailureType, GearWheel, LgciuId, UpdateContext};

/// A hydraulic gear system that moves one step per tick when pressurised.
struct TestGearSystem {
    door_position: u8,
    gear_position: u8,
}
impl TestGearSystem {
    const UP_LOCK_TRESHOLD: u8 = 10;

    fn new() -> Self {
        Self {
            door_position: Self::UP_LOCK_TRESHOLD,
            gear_position: 1,
        }
    }

    fn update(&mut self, controller: &LandingGearControlInterfaceUnit, pressure_psi: f64) {
        if pressure_psi > 500. {
            if controller.should_open_doors() {
                self.door_position -= 1;
            } else {
                self.door_position += 1;
            }

            if controller.should_extend_gears() {
                self.gear_position -= 1;
            } else {
                self.gear_position += 1;
            }
        }

        self.door_position = self.door_position.max(1).min(Self::UP_LOCK_TRESHOLD);
        self.gear_position = self.gear_position.max(1).min(Self::UP_LOCK_TRESHOLD);

        // Ensuring gear and doors never move at the same time
        if self.door_position != 1 && self.door_position != Self::UP_LOCK_TRESHOLD {
            assert!(self.gear_position == 1 || self.gear_position == Self::UP_LOCK_TRESHOLD)
        }

        if self.gear_position != 1 && self.gear_position != Self::UP_LOCK_TRESHOLD {
            assert!(self.door_position == 1 || self.door_position == Self::UP_LOCK_TRESHOLD)
        }
    }
}
impl GearSystemSensors for TestGearSystem {
    // What each query answers: the same as the query itself.
    fn wheel_up_and_locked(&self, wheel_id: GearWheel, lgciu_id: LgciuId) -> bool {
        self.is_wheel_id_up_and_locked(wheel_id, lgciu_id)
    }

    fn wheel_down_and_locked(&self, wheel_id: GearWheel, lgciu_id: LgciuId) -> bool {
        self.is_wheel_id_down_and_locked(wheel_id, lgciu_id)
    }

    fn door_up_and_locked(&self, wheel_id: GearWheel, lgciu_id: LgciuId) -> bool {
        self.is_door_id_up_and_locked(wheel_id, lgciu_id)
    }

    fn door_down_and_locked(&self, wheel_id: GearWheel, lgciu_id: LgciuId) -> bool {
        self.is_door_id_down_and_locked(wheel_id, lgciu_id)
    }

    fn is_wheel_id_up_and_locked(&self, _: GearWheel, _: LgciuId) -> bool {
        self.gear_position >= Self::UP_LOCK_TRESHOLD
    }

    fn is_wheel_id_down_and_locked(&self, _: GearWheel, _: LgciuId) -> bool {
        self.gear_position <= 1
    }

    fn is_door_id_up_and_locked(&self, _: GearWheel, _: LgciuId) -> bool {
        self.door_position >= Self::UP_LOCK_TRESHOLD
    }

    fn is_door_id_down_and_locked(&self, _: GearWheel, _: LgciuId) -> bool {
        self.door_position <= 1
    }
}

/// An aircraft with the landing gear, both LGCIUs powered by the DC essential
/// bus, and the test gear system; plus the simulator variables it reads and
/// writes, run tick by tick.
struct LgciusTestBed {
    landing_gear: LandingGear,
    lgcius: LandingGearControlInterfaceUnitSet,
    gear_system: TestGearSystem,
    pressure_psi: f64,

    on_ground: bool,
    lever_position_request: bool,
    gear_handle_position: bool,
    failures: Vec<(FailureType, bool)>,
}
impl LgciusTestBed {
    fn new() -> Self {
        Self {
            landing_gear: LandingGear::new(),
            lgcius: LandingGearControlInterfaceUnitSet::new(
                ElectricalBusType::DirectCurrentEssential,
                ElectricalBusType::DirectCurrentEssential,
            ),
            gear_system: TestGearSystem::new(),
            pressure_psi: 3000.,
            on_ground: false,
            lever_position_request: false,
            gear_handle_position: false,
            failures: Vec::new(),
        }
    }

    fn run_with_delta(&mut self, delta: Duration) {
        // Reading the simulator
        let compressed = self.on_ground;
        self.landing_gear.set_compression(compressed, compressed, compressed);
        self.lgcius.read_gear_handle(self.lever_position_request);
        for (failure, is_active) in self.failures.iter() {
            self.lgcius.set_failure(*failure, *is_active);
        }

        // Power distribution: the DC essential bus is powered
        self.lgcius.receive_power(true, true);

        // Updating
        let context = UpdateContext::new(delta.as_nanos() as u64, true);
        self.lgcius
            .update(&context, &self.landing_gear, &self.gear_system, false);
        self.gear_system
            .update(self.lgcius.active_lgciu(), self.pressure_psi);

        // Writing the simulator
        let lever_down = self.lgcius.gear_handle_is_down();
        self.gear_handle_position = lever_down;
        self.lever_position_request = lever_down;
    }

    fn run_one_tick(mut self) -> Self {
        self.run_with_delta(Duration::from_secs_f64(0.1));
        self
    }

    fn run_without_delta(&mut self) {
        self.run_with_delta(Duration::from_secs(0));
    }

    fn in_flight(mut self) -> Self {
        self.on_ground = false;
        self
    }

    fn on_the_ground(mut self) -> Self {
        self.on_ground = true;
        self
    }

    fn set_gear_handle_up(mut self) -> Self {
        self.lever_position_request = false;
        self
    }

    fn set_gear_handle_down(mut self) -> Self {
        self.lever_position_request = true;
        self
    }

    fn is_gear_handle_lock_down_active(&mut self) -> bool {
        self.lgcius.gear_handle_baulk_locked()
    }

    fn is_gear_handle_down(&mut self) -> bool {
        self.gear_handle_position
    }

    fn fail_hyd_pressure(&mut self) {
        self.pressure_psi = 0.;
    }

    fn fail(&mut self, failure: FailureType) {
        self.failures.retain(|(f, _)| *f != failure);
        self.failures.push((failure, true));
    }

    fn unfail(&mut self, failure: FailureType) {
        self.failures.retain(|(f, _)| *f != failure);
        self.failures.push((failure, false));
    }
}

fn test_bed() -> LgciusTestBed {
    LgciusTestBed::new()
}

fn test_bed_with() -> LgciusTestBed {
    test_bed()
}

#[test]
fn gear_lever_init_down_and_locked_on_ground() {
    let mut test_bed = test_bed_with().on_the_ground().run_one_tick();

    assert!(test_bed.is_gear_handle_lock_down_active());

    assert!(test_bed.is_gear_handle_down());
}

#[test]
fn gear_lever_up_and_locked_can_go_down_but_not_up() {
    let mut test_bed = test_bed_with().in_flight().run_one_tick();

    test_bed = test_bed.set_gear_handle_up().run_one_tick();

    assert!(!test_bed.is_gear_handle_lock_down_active());
    assert!(!test_bed.is_gear_handle_down());

    test_bed = test_bed.on_the_ground().set_gear_handle_up().run_one_tick();

    assert!(test_bed.is_gear_handle_lock_down_active());
    assert!(!test_bed.is_gear_handle_down());

    test_bed = test_bed
        .on_the_ground()
        .set_gear_handle_down()
        .run_one_tick();

    assert!(test_bed.is_gear_handle_lock_down_active());
    assert!(test_bed.is_gear_handle_down());

    test_bed = test_bed.on_the_ground().set_gear_handle_up().run_one_tick();

    assert!(test_bed.is_gear_handle_lock_down_active());
    assert!(test_bed.is_gear_handle_down());
}

#[test]
fn gear_lever_down_not_locked_in_flight() {
    let mut test_bed = test_bed_with()
        .in_flight()
        .set_gear_handle_down()
        .run_one_tick();

    test_bed = test_bed.run_one_tick();

    assert!(!test_bed.is_gear_handle_lock_down_active());
    assert!(test_bed.is_gear_handle_down());
}

#[test]
fn gear_state_downlock_on_init() {
    let test_bed = test_bed();

    assert!(test_bed.lgcius.gear_system_state() == GearSystemState::AllDownLocked);
}

#[test]
fn gear_up_when_lever_up_down_when_lever_down() {
    let mut test_bed = test_bed_with().in_flight().set_gear_handle_down();

    for _ in 0..2 {
        test_bed.run_without_delta();
    }

    assert!(test_bed.lgcius.gear_system_state() == GearSystemState::AllDownLocked);

    println!("GEAR UP!!");
    test_bed = test_bed.set_gear_handle_up();

    for _ in 0..30 {
        test_bed.run_without_delta();
    }

    assert!(test_bed.lgcius.gear_system_state() == GearSystemState::AllUpLocked);

    // Gear DOWN
    test_bed = test_bed.set_gear_handle_down();
    for _ in 0..30 {
        test_bed.run_without_delta();
    }

    assert!(test_bed.lgcius.gear_system_state() == GearSystemState::AllDownLocked);
}

#[test]
fn lgciu_master_switch_on_gear_up() {
    let mut test_bed = test_bed_with()
        .in_flight()
        .set_gear_handle_down()
        .run_one_tick();

    assert!(test_bed.lgcius.active_lgciu_id() == LgciuId::Lgciu1);

    test_bed = test_bed.set_gear_handle_up().run_one_tick();
    assert!(test_bed.lgcius.active_lgciu_id() == LgciuId::Lgciu2);

    test_bed = test_bed.set_gear_handle_down().run_one_tick();
    assert!(test_bed.lgcius.active_lgciu_id() == LgciuId::Lgciu2);

    test_bed = test_bed.set_gear_handle_up().run_one_tick();
    assert!(test_bed.lgcius.active_lgciu_id() == LgciuId::Lgciu1);
}

#[test]
fn lgciu_master_switch_if_failed_lgciu_power_and_stays_on_same_lgciu() {
    let mut test_bed = test_bed_with()
        .in_flight()
        .set_gear_handle_down()
        .run_one_tick();

    assert!(test_bed.lgcius.active_lgciu_id() == LgciuId::Lgciu1);

    test_bed = test_bed.set_gear_handle_up().run_one_tick();
    assert!(test_bed.lgcius.active_lgciu_id() == LgciuId::Lgciu2);

    test_bed.fail(FailureType::LgciuPowerSupply(LgciuId::Lgciu2));

    // Two ticks needed after failure to have consistent state of lgciu vs coordinator
    test_bed = test_bed.run_one_tick().run_one_tick();
    assert!(test_bed.lgcius.active_lgciu_id() == LgciuId::Lgciu1);

    test_bed = test_bed.set_gear_handle_down().run_one_tick();
    assert!(test_bed.lgcius.active_lgciu_id() == LgciuId::Lgciu1);

    test_bed = test_bed.set_gear_handle_up().run_one_tick();
    assert!(test_bed.lgcius.active_lgciu_id() == LgciuId::Lgciu1);
}

#[test]
fn lgciu_master_switch_if_unfailed_lgciu_power() {
    let mut test_bed = test_bed_with()
        .in_flight()
        .set_gear_handle_down()
        .run_one_tick();

    assert!(test_bed.lgcius.active_lgciu_id() == LgciuId::Lgciu1);

    test_bed = test_bed.set_gear_handle_up().run_one_tick();
    assert!(test_bed.lgcius.active_lgciu_id() == LgciuId::Lgciu2);

    test_bed.fail(FailureType::LgciuPowerSupply(LgciuId::Lgciu2));

    // Two ticks needed after failure to have consistent state of lgciu vs coordinator
    test_bed = test_bed.run_one_tick().run_one_tick();
    assert!(test_bed.lgcius.active_lgciu_id() == LgciuId::Lgciu1);

    test_bed.unfail(FailureType::LgciuPowerSupply(LgciuId::Lgciu2));

    test_bed = test_bed.set_gear_handle_down().run_one_tick();
    assert!(test_bed.lgcius.active_lgciu_id() == LgciuId::Lgciu1);

    test_bed = test_bed.set_gear_handle_up().run_one_tick();
    assert!(test_bed.lgcius.active_lgciu_id() == LgciuId::Lgciu2);
}

#[test]
fn lgciu_master_fails_but_do_not_switch_if_gear_not_up_in_30s() {
    let mut test_bed = test_bed_with()
        .in_flight()
        .set_gear_handle_down()
        .run_one_tick();

    test_bed = test_bed.set_gear_handle_up().run_one_tick();

    test_bed.fail_hyd_pressure();

    test_bed.run_with_delta(Duration::from_secs(28));
    assert!(test_bed.lgcius.active_lgciu().status() == LgciuStatus::Healthy);

    test_bed.run_with_delta(Duration::from_secs(3));
    assert!(test_bed.lgcius.lgciu2().status() == LgciuStatus::FailedNoChangeOver);
    assert!(test_bed.lgcius.lgciu1().status() == LgciuStatus::Healthy);
}

#[test]
fn unpowered_lgcius_lock_lever_and_report_fault() {
    let mut test_bed = test_bed_with().in_flight().set_gear_handle_down().run_one_tick();
    assert!(!test_bed.is_gear_handle_lock_down_active());

    test_bed.fail(FailureType::LgciuPowerSupply(LgciuId::Lgciu1));
    test_bed.fail(FailureType::LgciuPowerSupply(LgciuId::Lgciu2));
    test_bed = test_bed.run_one_tick();

    assert!(test_bed.is_gear_handle_lock_down_active());
    assert!(test_bed.lgcius.lgciu1().status() == LgciuStatus::FailedNotPowered);
    assert!(test_bed.lgcius.lgciu2().status() == LgciuStatus::FailedNotPowered);
    assert!(test_bed.lgcius.lgciu1().outputs().fault);
    assert!(!test_bed.lgcius.lgciu1().control_active());
}

#[test]
fn internal_error_fails_with_changeover() {
    let mut test_bed = test_bed_with().in_flight().set_gear_handle_down().run_one_tick();
    assert!(test_bed.lgcius.active_lgciu_id() == LgciuId::Lgciu1);

    test_bed.fail(FailureType::LgciuInternalError(LgciuId::Lgciu1));
    test_bed = test_bed.run_one_tick();
    assert!(test_bed.lgcius.lgciu1().status() == LgciuStatus::FailedAutoChangeOver);

    test_bed = test_bed.run_one_tick();
    assert!(test_bed.lgcius.active_lgciu_id() == LgciuId::Lgciu2);
}

#[test]
fn readings_are_what_the_sensors_answer() {
    let mut gear_system = TestGearSystem::new();
    gear_system.gear_position = TestGearSystem::UP_LOCK_TRESHOLD;
    gear_system.door_position = 1;
    let r = GearSensorReadings::read(&gear_system, LgciuId::Lgciu2);
    for w in [r.nose, r.left, r.right] {
        assert!(w.gear_up_and_locked);
        assert!(!w.gear_down_and_locked);
        assert!(!w.door_up_and_locked);
        assert!(w.door_down_and_locked);
    }
}
