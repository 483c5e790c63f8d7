//! Which of the two units is master, and the gear lever with its lock.
use vstd::prelude::*;

use crate::lgciu::LgciuStatus;
use crate::shared::{lgciu_index, spec_lgciu_index, LgciuId};

verus! {

/// The other unit of the pair.
pub open spec fn other_lgciu(lgciu_id: LgciuId) -> LgciuId {
    match lgciu_id {
        LgciuId::Lgciu1 => LgciuId::Lgciu2,
        LgciuId::Lgciu2 => LgciuId::Lgciu1,
    }
}

/// The status of a unit in a pair of statuses ordered as (LGCIU 1, LGCIU 2).
pub open spec fn status_of(statuses: [LgciuStatus; 2], lgciu_id: LgciuId) -> LgciuStatus {
    statuses[spec_lgciu_index(lgciu_id)]
}

/// Decides which unit is master.
pub struct LandingGearControlCoordinator {
    pub active_lgciu_id: LgciuId,
    pub previous_gear_handle_is_down: bool,
}

impl LandingGearControlCoordinator {
    /// Hands control to the other unit if that one is healthy.
    pub open spec fn switched_over(self, statuses: [LgciuStatus; 2]) -> Self {
        let target = other_lgciu(self.active_lgciu_id);
        if status_of(statuses, target) == LgciuStatus::Healthy {
            LandingGearControlCoordinator { active_lgciu_id: target, ..self }
        } else {
            self
        }
    }

    /// Whether the master should be changed: at each new up cycle of the lever,
    /// when the master has failed with automatic changeover or lost power, or
    /// when it has failed in any way and the lever moves.
    pub open spec fn should_switch(self, statuses: [LgciuStatus; 2], gear_handle_is_down: bool) -> bool {
        let active_status = status_of(statuses, self.active_lgciu_id);
        let at_new_up_cycle = self.previous_gear_handle_is_down && !gear_handle_is_down;
        let failed_and_new_lever_command = self.previous_gear_handle_is_down != gear_handle_is_down
            && active_status != LgciuStatus::Healthy;
        let is_failed = active_status == LgciuStatus::FailedNotPowered || active_status
            == LgciuStatus::FailedAutoChangeOver;
        at_new_up_cycle || is_failed || failed_and_new_lever_command
    }

    pub open spec fn updated(self, statuses: [LgciuStatus; 2], gear_handle_is_down: bool) -> Self {
        let s = if self.should_switch(statuses, gear_handle_is_down) {
            self.switched_over(statuses)
        } else {
            self
        };
        LandingGearControlCoordinator { previous_gear_handle_is_down: gear_handle_is_down, ..s }
    }

    /// LGCIU 1 is master, and the lever is down.
    pub fn new() -> (r: Self)
        ensures
            r.active_lgciu_id == LgciuId::Lgciu1,
            r.previous_gear_handle_is_down,
    {
        Self { active_lgciu_id: LgciuId::Lgciu1, previous_gear_handle_is_down: true }
    }

    /// Updates the master from the statuses of (LGCIU 1, LGCIU 2) and the lever.
    pub fn update(&mut self, lgcius_status: [LgciuStatus; 2], gear_handle_is_down: bool)
        ensures
            *final(self) == old(self).updated(lgcius_status, gear_handle_is_down),
    {
        let active_status = lgcius_status[lgciu_index(self.active_lgciu_id)];
        let lgciu_should_switch_at_new_up_cycle = self.previous_gear_handle_is_down
            && !gear_handle_is_down;
        let lgciu_should_switch_because_failed_and_new_lever_command =
            self.previous_gear_handle_is_down != gear_handle_is_down && active_status
                != LgciuStatus::Healthy;
        let lgciu_should_switch_because_is_failed = match active_status {
            LgciuStatus::Healthy | LgciuStatus::FailedNoChangeOver => false,
            LgciuStatus::FailedNotPowered | LgciuStatus::FailedAutoChangeOver => true,
        };

        if lgciu_should_switch_at_new_up_cycle || lgciu_should_switch_because_is_failed
            || lgciu_should_switch_because_failed_and_new_lever_command {
            self.lgciu_switchover(lgcius_status);
        }
        self.previous_gear_handle_is_down = gear_handle_is_down;
    }

    pub fn lgciu_switchover(&mut self, lgcius_status: [LgciuStatus; 2])
        ensures
            *final(self) == old(self).switched_over(lgcius_status),
    {
        let target_lgciu = (lgciu_index(self.active_lgciu_id) + 1) % 2;
        let target_lgciu_state = lgcius_status[target_lgciu];
        if target_lgciu_state == LgciuStatus::Healthy {
            self.active_lgciu_id = if target_lgciu == 0 {
                LgciuId::Lgciu1
            } else {
                LgciuId::Lgciu2
            };
        }
    }

    pub fn active_lgciu_id(&self) -> (r: LgciuId)
        ensures
            r == self.active_lgciu_id,
    {
        self.active_lgciu_id
    }
}

/// Mastership only ever passes to the other unit, and only to a healthy one.
pub proof fn lemma_master_changes_only_to_healthy(
    coordinator: LandingGearControlCoordinator,
    statuses: [LgciuStatus; 2],
    gear_handle_is_down: bool,
)
    ensures
        ({
            let next = coordinator.updated(statuses, gear_handle_is_down);
            next.active_lgciu_id != coordinator.active_lgciu_id ==> {
                &&& next.active_lgciu_id == other_lgciu(coordinator.active_lgciu_id)
                &&& status_of(statuses, next.active_lgciu_id) == LgciuStatus::Healthy
            }
        }),
{
}

/// At each new up cycle of the lever the master alternates, provided the other
/// unit is healthy.
pub proof fn lemma_alternates_on_new_up_cycle(
    coordinator: LandingGearControlCoordinator,
    statuses: [LgciuStatus; 2],
)
    requires
        coordinator.previous_gear_handle_is_down,
        status_of(statuses, other_lgciu(coordinator.active_lgciu_id)) == LgciuStatus::Healthy,
    ensures
        coordinator.updated(statuses, false).active_lgciu_id == other_lgciu(
            coordinator.active_lgciu_id,
        ),
{
}

/// With a healthy master and the lever not moved up, the master stays.
pub proof fn lemma_healthy_master_kept_without_new_up_cycle(
    coordinator: LandingGearControlCoordinator,
    statuses: [LgciuStatus; 2],
    gear_handle_is_down: bool,
)
    requires
        status_of(statuses, coordinator.active_lgciu_id) == LgciuStatus::Healthy,
        !(coordinator.previous_gear_handle_is_down && !gear_handle_is_down),
    ensures
        coordinator.updated(statuses, gear_handle_is_down).active_lgciu_id
            == coordinator.active_lgciu_id,
{
}

/// A master that is healthy or failed without changeover is kept as long as
/// the lever does not move: only a lever movement, or a failure with
/// changeover or loss of power, hands control over.
pub proof fn lemma_master_kept_while_lever_still(
    coordinator: LandingGearControlCoordinator,
    statuses: [LgciuStatus; 2],
    gear_handle_is_down: bool,
)
    requires
        coordinator.previous_gear_handle_is_down == gear_handle_is_down,
        statuses[spec_lgciu_index(coordinator.active_lgciu_id)] == LgciuStatus::Healthy
            || statuses[spec_lgciu_index(coordinator.active_lgciu_id)]
            == LgciuStatus::FailedNoChangeOver,
    ensures
        coordinator.updated(statuses, gear_handle_is_down).active_lgciu_id
            == coordinator.active_lgciu_id,
        coordinator.updated(statuses, gear_handle_is_down).previous_gear_handle_is_down
            == gear_handle_is_down,
{
}

/// When the master changes, and to which unit: control passes to the other
/// unit exactly when that unit is healthy and either the lever has just been
/// raised, or the master has lost power or failed with changeover, or the
/// master has failed in any way and the lever has moved.
pub proof fn lemma_master_change_condition(
    coordinator: LandingGearControlCoordinator,
    statuses: [LgciuStatus; 2],
    gear_handle_is_down: bool,
)
    ensures
        ({
            let active = coordinator.active_lgciu_id;
            let other = if active == LgciuId::Lgciu1 {
                LgciuId::Lgciu2
            } else {
                LgciuId::Lgciu1
            };
            let active_status = statuses[spec_lgciu_index(active)];
            let lever_moved = coordinator.previous_gear_handle_is_down != gear_handle_is_down;
            let trigger = (coordinator.previous_gear_handle_is_down && !gear_handle_is_down)
                || active_status == LgciuStatus::FailedNotPowered || active_status
                == LgciuStatus::FailedAutoChangeOver || (lever_moved && active_status
                != LgciuStatus::Healthy);
            coordinator.updated(statuses, gear_handle_is_down).active_lgciu_id == if trigger
                && statuses[spec_lgciu_index(other)] == LgciuStatus::Healthy {
                other
            } else {
                active
            }
        }),
{
}

/// The gear lever, and whether it is locked down.
pub struct LandingGearHandleUnit {
    pub is_lever_down: bool,
    pub lever_should_lock_down: bool,
}

impl LandingGearHandleUnit {
    /// The lever down and locked.
    pub fn new() -> (r: Self)
        ensures
            r.is_lever_down,
            r.lever_should_lock_down,
    {
        Self { is_lever_down: true, lever_should_lock_down: true }
    }

    /// The lever is locked down when both units ask for it.
    pub fn update(&mut self, lgciu1_baulk_locked: bool, lgciu2_baulk_locked: bool)
        ensures
            final(self).lever_should_lock_down == (lgciu1_baulk_locked && lgciu2_baulk_locked),
            final(self).is_lever_down == old(self).is_lever_down,
    {
        self.lever_should_lock_down = lgciu1_baulk_locked && lgciu2_baulk_locked
    }

    /// Takes in the position the crew asks for: a lever that is down and
    /// locked stays down; otherwise it goes where it is asked.
    pub fn read(&mut self, lever_down_requested: bool)
        ensures
            final(self).is_lever_down == (lever_down_requested || (
                old(self).lever_should_lock_down && old(self).is_lever_down)),
            final(self).lever_should_lock_down == old(self).lever_should_lock_down,
            lever_down_requested ==> final(self).is_lever_down,
            old(self).lever_should_lock_down && old(self).is_lever_down
                ==> final(self).is_lever_down,
    {
        self.is_lever_down = lever_down_requested || (self.lever_should_lock_down
            && self.is_lever_down);
    }

    pub fn gear_handle_is_down(&self) -> (r: bool)
        ensures
            r == self.is_lever_down,
    {
        self.is_lever_down
    }

    pub fn gear_handle_baulk_locked(&self) -> (r: bool)
        ensures
            r == self.lever_should_lock_down,
    {
        self.lever_should_lock_down
    }
}

} // verus!
