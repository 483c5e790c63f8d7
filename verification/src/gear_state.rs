//! The state machine of the gear extension and retraction cycle.
use vstd::prelude::*;

use crate::sensors::LgciuSensorInputs;

verus! {

#[derive(PartialEq, Eq, Structural, Clone, Copy, Debug)]
pub enum GearSystemState {
    AllUpLocked,
    Retracting,
    Extending,
    AllDownLocked,
}

/// The next state of the cycle, given the current one, the gear and door
/// sensors, and the lever position.
pub open spec fn next_gear_state(
    state: GearSystemState,
    all_up_and_locked: bool,
    all_down_and_locked: bool,
    all_closed_and_locked: bool,
    gear_handle_position_is_up: bool,
) -> GearSystemState {
    match state {
        GearSystemState::AllUpLocked => {
            if !gear_handle_position_is_up {
                GearSystemState::Extending
            } else {
                state
            }
        },
        GearSystemState::Retracting => {
            if all_up_and_locked && all_closed_and_locked {
                GearSystemState::AllUpLocked
            } else if !gear_handle_position_is_up {
                GearSystemState::Extending
            } else {
                state
            }
        },
        GearSystemState::Extending => {
            if all_down_and_locked && all_closed_and_locked {
                GearSystemState::AllDownLocked
            } else if gear_handle_position_is_up {
                GearSystemState::Retracting
            } else {
                state
            }
        },
        GearSystemState::AllDownLocked => {
            if gear_handle_position_is_up {
                GearSystemState::Retracting
            } else {
                state
            }
        },
    }
}

/// The state that the sensors show on initialisation, or `None` when they are
/// inconsistent: doors neither fully opened nor closed while gears are
/// neither down nor up and locked.
pub open spec fn initial_gear_state(
    all_up_and_locked: bool,
    all_down_and_locked: bool,
    all_fully_opened: bool,
    all_closed_and_locked: bool,
    gear_handle_position_is_up: bool,
) -> Option<GearSystemState> {
    let doors_in_transition = !all_fully_opened && !all_closed_and_locked;
    let gears_in_transition = !all_down_and_locked && !all_up_and_locked;
    if doors_in_transition && gears_in_transition {
        None
    } else if all_up_and_locked && all_closed_and_locked {
        Some(GearSystemState::AllUpLocked)
    } else if all_down_and_locked && all_closed_and_locked {
        Some(GearSystemState::AllDownLocked)
    } else if gear_handle_position_is_up {
        Some(GearSystemState::Retracting)
    } else {
        Some(GearSystemState::Extending)
    }
}

/// `next_gear_state` on the sensors of a unit.
pub open spec fn next_gear_state_from(
    state: GearSystemState,
    lgciu: LgciuSensorInputs,
    gear_handle_position_is_up: bool,
) -> GearSystemState {
    next_gear_state(
        state,
        lgciu.spec_all_up_and_locked(),
        lgciu.spec_all_down_and_locked(),
        lgciu.spec_all_closed_and_locked(),
        gear_handle_position_is_up,
    )
}

/// `initial_gear_state` on the sensors of a unit.
pub open spec fn initial_gear_state_from(
    lgciu: LgciuSensorInputs,
    gear_handle_position_is_up: bool,
) -> Option<GearSystemState> {
    initial_gear_state(
        lgciu.spec_all_up_and_locked(),
        lgciu.spec_all_down_and_locked(),
        lgciu.spec_all_fully_opened(),
        lgciu.spec_all_closed_and_locked(),
        gear_handle_position_is_up,
    )
}

#[derive(Debug)]
pub struct GearSystemStateMachine {
    gears_state: GearSystemState,
}

impl View for GearSystemStateMachine {
    type V = GearSystemState;

    closed spec fn view(&self) -> GearSystemState {
        self.gears_state
    }
}

impl GearSystemStateMachine {
    /// A machine in the down and locked state.
    pub fn default() -> (r: Self)
        ensures
            r@ == GearSystemState::AllDownLocked,
    {
        Self { gears_state: GearSystemState::AllDownLocked }
    }

    pub fn new_gear_state(&self, lgciu: &LgciuSensorInputs, gear_handle_position_is_up: bool) -> (r:
        GearSystemState)
        ensures
            r == next_gear_state_from(self@, *lgciu, gear_handle_position_is_up),
    {
        match self.gears_state {
            GearSystemState::AllUpLocked => {
                if !gear_handle_position_is_up {
                    GearSystemState::Extending
                } else {
                    self.gears_state
                }
            },
            GearSystemState::Retracting => {
                if lgciu.all_up_and_locked() && lgciu.all_closed_and_locked() {
                    GearSystemState::AllUpLocked
                } else if !gear_handle_position_is_up {
                    GearSystemState::Extending
                } else {
                    self.gears_state
                }
            },
            GearSystemState::Extending => {
                if lgciu.all_down_and_locked() && lgciu.all_closed_and_locked() {
                    GearSystemState::AllDownLocked
                } else if gear_handle_position_is_up {
                    GearSystemState::Retracting
                } else {
                    self.gears_state
                }
            },
            GearSystemState::AllDownLocked => {
                if gear_handle_position_is_up {
                    GearSystemState::Retracting
                } else {
                    self.gears_state
                }
            },
        }
    }

    /// Tries to figure out the gear state from the sensors, typically on
    /// init or reset. Returns false, and leaves the state as it was, when the
    /// sensors are inconsistent.
    pub fn init_gear_state(&mut self, lgciu: &LgciuSensorInputs, gear_handle_position_is_up: bool) -> (r:
        bool)
        ensures
            r == initial_gear_state_from(*lgciu, gear_handle_position_is_up) is Some,
            r ==> final(self)@ == initial_gear_state_from(
                *lgciu,
                gear_handle_position_is_up,
            )->0,
            !r ==> final(self)@ == old(self)@,
    {
        let doors_in_transition = !lgciu.all_fully_opened() && !lgciu.all_closed_and_locked();
        let gears_in_transition = !lgciu.all_down_and_locked() && !lgciu.all_up_and_locked();

        if doors_in_transition && gears_in_transition {
            return false;
        }
        self.gears_state = if lgciu.all_up_and_locked() && lgciu.all_closed_and_locked() {
            GearSystemState::AllUpLocked
        } else if lgciu.all_down_and_locked() && lgciu.all_closed_and_locked() {
            GearSystemState::AllDownLocked
        } else if gear_handle_position_is_up {
            GearSystemState::Retracting
        } else {
            GearSystemState::Extending
        };

        true
    }

    pub fn update(&mut self, lgciu: &LgciuSensorInputs, gear_handle_position_is_up: bool)
        ensures
            final(self)@ == next_gear_state_from(old(self)@, *lgciu, gear_handle_position_is_up),
    {
        self.gears_state = self.new_gear_state(lgciu, gear_handle_position_is_up);
    }

    pub fn state(&self) -> (r: GearSystemState)
        ensures
            r == self@,
    {
        self.gears_state
    }
}

/// The cycle never jumps between the two locked states: from up and locked it
/// goes to up and locked or extending, from down and locked to down and locked
/// or retracting.
pub proof fn lemma_no_jump_between_locked_states(
    state: GearSystemState,
    all_up_and_locked: bool,
    all_down_and_locked: bool,
    all_closed_and_locked: bool,
    gear_handle_position_is_up: bool,
)
    ensures
        state == GearSystemState::AllUpLocked ==> next_gear_state(
            state,
            all_up_and_locked,
            all_down_and_locked,
            all_closed_and_locked,
            gear_handle_position_is_up,
        ) != GearSystemState::AllDownLocked,
        state == GearSystemState::AllDownLocked ==> next_gear_state(
            state,
            all_up_and_locked,
            all_down_and_locked,
            all_closed_and_locked,
            gear_handle_position_is_up,
        ) != GearSystemState::AllUpLocked,
{
}

/// A locked state is entered only when the sensors confirm it: all gears locked
/// in that position and all doors closed and locked.
pub proof fn lemma_locked_states_confirmed_by_sensors(
    state: GearSystemState,
    all_up_and_locked: bool,
    all_down_and_locked: bool,
    all_closed_and_locked: bool,
    gear_handle_position_is_up: bool,
)
    ensures
        ({
            let next = next_gear_state(
                state,
                all_up_and_locked,
                all_down_and_locked,
                all_closed_and_locked,
                gear_handle_position_is_up,
            );
            &&& (next == GearSystemState::AllUpLocked && state != GearSystemState::AllUpLocked)
                ==> all_up_and_locked && all_closed_and_locked
            &&& (next == GearSystemState::AllDownLocked && state != GearSystemState::AllDownLocked)
                ==> all_down_and_locked && all_closed_and_locked
        }),
{
}

/// The gear starts extending only with the lever down, and starts retracting
/// only with the lever up; a lever left where it is never reverses a movement.
pub proof fn lemma_movement_follows_lever(
    state: GearSystemState,
    all_up_and_locked: bool,
    all_down_and_locked: bool,
    all_closed_and_locked: bool,
    gear_handle_position_is_up: bool,
)
    ensures
        ({
            let next = next_gear_state(
                state,
                all_up_and_locked,
                all_down_and_locked,
                all_closed_and_locked,
                gear_handle_position_is_up,
            );
            &&& (next == GearSystemState::Extending && state != GearSystemState::Extending)
                ==> !gear_handle_position_is_up
            &&& (next == GearSystemState::Retracting && state != GearSystemState::Retracting)
                ==> gear_handle_position_is_up
        }),
{
}

/// With the lever held down, a cycle that starts down and locked stays down
/// and locked; with the lever held up, one that starts up and locked stays up
/// and locked.
pub proof fn lemma_locked_state_holds_with_lever(
    all_up_and_locked: bool,
    all_down_and_locked: bool,
    all_closed_and_locked: bool,
)
    ensures
        next_gear_state(
            GearSystemState::AllDownLocked,
            all_up_and_locked,
            all_down_and_locked,
            all_closed_and_locked,
            false,
        ) == GearSystemState::AllDownLocked,
        next_gear_state(
            GearSystemState::AllUpLocked,
            all_up_and_locked,
            all_down_and_locked,
            all_closed_and_locked,
            true,
        ) == GearSystemState::AllUpLocked,
{
}

} // verus!
