//! Identifiers and plain inputs shared by every part of the landing gear system.
use vstd::prelude::*;

verus! {

/// One of the three landing gear legs.
#[derive(PartialEq, Eq, Structural, Clone, Copy, Debug)]
pub enum GearWheel {
    NOSE,
    LEFT,
    RIGHT,
}

/// Identifies one of the two landing gear control and interface units (LGCIU).
#[derive(PartialEq, Eq, Structural, Clone, Copy, Debug)]
pub enum LgciuId {
    Lgciu1,
    Lgciu2,
}

/// Electrical bus that powers a unit.
#[derive(PartialEq, Eq, Structural, Clone, Copy, Debug)]
pub enum ElectricalBusType {
    AlternatingCurrent(u8),
    AlternatingCurrentEssential,
    AlternatingCurrentEssentialShed,
    AlternatingCurrentStaticInverter,
    AlternatingCurrentGndFltService,
    DirectCurrent(u8),
    DirectCurrentEssential,
    DirectCurrentEssentialShed,
    DirectCurrentBattery,
    DirectCurrentHot(u8),
    DirectCurrentGndFltService,
}

/// Failures that can be injected into an LGCIU.
#[derive(PartialEq, Eq, Structural, Clone, Copy, Debug)]
pub enum FailureType {
    LgciuPowerSupply(LgciuId),
    LgciuInternalError(LgciuId),
}

/// What one simulation tick tells the units: the time elapsed since the previous
/// tick, in nanoseconds, and whether the simulator is ready.
#[derive(PartialEq, Eq, Structural, Clone, Copy, Debug)]
pub struct UpdateContext {
    pub delta: u64,
    pub is_sim_ready: bool,
}

impl UpdateContext {
    pub fn new(delta: u64, is_sim_ready: bool) -> (r: Self)
        ensures
            r.delta == delta,
            r.is_sim_ready == is_sim_ready,
    {
        UpdateContext { delta, is_sim_ready }
    }
}

/// The number by which a unit is named in the simulator variables.
pub open spec fn spec_lgciu_number(lgciu_id: LgciuId) -> u8 {
    match lgciu_id {
        LgciuId::Lgciu1 => 1,
        LgciuId::Lgciu2 => 2,
    }
}

/// The number by which a unit is named in the simulator variables (1 or 2).
pub fn lgciu_number(lgciu_id: LgciuId) -> (n: u8)
    ensures
        n == spec_lgciu_number(lgciu_id),
{
    match lgciu_id {
        LgciuId::Lgciu1 => 1,
        LgciuId::Lgciu2 => 2,
    }
}

/// Position of a unit in a pair ordered as (LGCIU 1, LGCIU 2).
pub open spec fn spec_lgciu_index(lgciu_id: LgciuId) -> int {
    match lgciu_id {
        LgciuId::Lgciu1 => 0,
        LgciuId::Lgciu2 => 1,
    }
}

/// Position of a unit in a pair ordered as (LGCIU 1, LGCIU 2).
pub fn lgciu_index(lgciu_id: LgciuId) -> (i: usize)
    ensures
        i == spec_lgciu_index(lgciu_id),
        i < 2,
{
    match lgciu_id {
        LgciuId::Lgciu1 => 0,
        LgciuId::Lgciu2 => 1,
    }
}

} // verus!
