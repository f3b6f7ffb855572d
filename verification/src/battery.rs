//! Battery-percentage estimation.
//!
//! The power-management unit reports a battery percentage directly, but a
//! known defect makes it report the sentinel value 127 when it cannot
//! compute one. In that case the percentage is estimated from a battery
//! voltage sample instead, with a linear model that treats 3200 mV as empty
//! and 4200 mV as full.

use vstd::prelude::*;

verus! {

/// The percentage the power-management unit reports when it cannot compute
/// one directly; it triggers the voltage-based fallback.
pub const PMU_PERCENTAGE_SENTINEL: u8 = 127;

/// Why a query to the power-management unit failed: the unit was not
/// initialized, or the bus transaction itself failed.
#[derive(Clone, Copy, Debug, PartialEq, Eq, Structural)]
pub enum PmuError {
    Uninitialized,
    BusError,
}

/// Battery level implied by a voltage sample of `mv` millivolts, in whole
/// percent: `(mv - 3200) / 10`, rounded down and clamped to `[0, 100]`.
pub open spec fn battery_level_of_millivolts(mv: int) -> int {
    if mv <= 3200 {
        0
    } else if mv >= 4200 {
        100
    } else {
        (mv - 3200) / 10
    }
}

/// What a battery query must return, given the outcome of the percentage
/// query and the outcome of the voltage query (the latter is consulted only
/// when the percentage query reported the sentinel).
pub open spec fn battery_policy<E>(pct: Result<u8, E>, volt: Result<u16, E>) -> Result<u8, E> {
    match pct {
        Ok(p) => if p == PMU_PERCENTAGE_SENTINEL {
            match volt {
                Ok(mv) => Ok(battery_level_of_millivolts(mv as int) as u8),
                Err(e) => Err(e),
            }
        } else {
            Ok(p)
        },
        Err(e) => Err(e),
    }
}

/// Turn a battery voltage sample in millivolts into a percentage in `[0, 100]`.
pub fn battery_level_from_millivolts(mv: u16) -> (level: u8)
    ensures
        level == battery_level_of_millivolts(mv as int),
        level <= 100,
{
    if mv <= 3200 {
        0
    } else if mv >= 4200 {
        100
    } else {
        ((mv - 3200) / 10) as u8
    }
}

/// Whether a percentage reading is the sentinel that demands the
/// voltage-based fallback.
pub fn needs_voltage_fallback<E>(pct: &Result<u8, E>) -> (fallback: bool)
    ensures
        fallback <==> (pct matches Ok(p) && p == PMU_PERCENTAGE_SENTINEL),
{
    match pct {
        Ok(p) => *p == PMU_PERCENTAGE_SENTINEL,
        Err(_) => false,
    }
}

/// Resolve a battery query from the voltage reading, after the percentage
/// query reported the sentinel: a voltage sample is converted to a level,
/// a failure is handed back unchanged.
pub fn resolve_with_voltage<E>(volt: Result<u16, E>) -> (level: Result<u8, E>)
    ensures
        level == battery_policy(Ok::<u8, E>(PMU_PERCENTAGE_SENTINEL), volt),
{
    match volt {
        Ok(mv) => Ok(battery_level_from_millivolts(mv)),
        Err(e) => Err(e),
    }
}

/// A percentage reported directly by the power-management unit is returned
/// unchanged, whatever the voltage query would have said.
pub proof fn lemma_direct_percentage_returned_unchanged<E>(p: u8, volt: Result<u16, E>)
    requires
        p != PMU_PERCENTAGE_SENTINEL,
    ensures
        battery_policy(Ok::<u8, E>(p), volt) == Ok::<u8, E>(p),
{
}

/// When the percentage query reports the sentinel and a voltage `mv` is
/// supplied, the query returns `(mv - 3200) / 10` rounded down and clamped
/// to `[0, 100]`.
pub proof fn lemma_sentinel_resolved_from_voltage<E>(mv: u16)
    ensures
        battery_policy(Ok::<u8, E>(PMU_PERCENTAGE_SENTINEL), Ok::<u16, E>(mv))
            == Ok::<u8, E>(battery_level_of_millivolts(mv as int) as u8),
        0 <= battery_level_of_millivolts(mv as int) <= 100,
{
}

/// A failed percentage query is propagated unchanged, whatever the voltage
/// query would have said: the fallback is never consulted.
pub proof fn lemma_percentage_failure_propagated<E>(e: E, volt: Result<u16, E>)
    ensures
        battery_policy(Err::<u8, E>(e), volt) == Err::<u8, E>(e),
{
}

/// When the percentage query reports the sentinel and the voltage query
/// fails, the voltage query's failure is returned.
pub proof fn lemma_voltage_failure_propagated<E>(e: E)
    ensures
        battery_policy(Ok::<u8, E>(PMU_PERCENTAGE_SENTINEL), Err::<u16, E>(e))
            == Err::<u8, E>(e),
{
}

} // verus!
