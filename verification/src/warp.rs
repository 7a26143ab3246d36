//! The time-warp converter: wall-clock targets to slot numbers.
//!
//! The environment's clock only moves forward.  Given a target unix
//! timestamp strictly after the current one, the converter computes how
//! many whole slots the clock must advance: the difference in seconds,
//! scaled to nanoseconds, divided (flooring) by the genesis configuration's
//! fixed nanoseconds-per-slot constant.  The plan it returns holds the
//! optimistically updated clock (new timestamp, old slot) that is written
//! before the jump, and the slot number the environment is asked to jump
//! to.

use vstd::prelude::*;

verus! {

/// Nanoseconds in one second.
pub const NANOSECONDS_IN_SECOND: u64 = 1_000_000_000;

/// A snapshot of the environment's clock sysvar.
#[derive(Debug, Clone, Copy, PartialEq, Eq, Structural)]
pub struct ClockSnapshot {
    /// Wall-clock seconds since the unix epoch.
    pub unix_timestamp: i64,
    /// The ledger's discrete time unit.
    pub slot: u64,
}

/// Why a warp request was refused before anything was mutated.
#[derive(Debug, Clone, Copy, PartialEq, Eq, Structural)]
pub enum WarpError {
    /// The target timestamp is not strictly after the current one: time
    /// cannot be set backwards.
    Backward,
    /// The target slot number does not fit in 64 bits.
    SlotOverflow,
}

/// Whole slots the clock advances when warping from `now` to `target`
/// seconds, at `ns_per_slot` nanoseconds per slot.
pub open spec fn spec_slots_to_advance(now: i64, target: i64, ns_per_slot: u128) -> int
    recommends
        now < target,
        ns_per_slot > 0,
{
    (target - now) * NANOSECONDS_IN_SECOND / (ns_per_slot as int)
}

/// A computed warp: what to write to the clock sysvar before the jump,
/// and the slot to jump to.
#[derive(Debug, Clone, Copy, PartialEq, Eq, Structural)]
pub struct WarpPlan {
    /// The clock as it is written before the slot jump: the target
    /// timestamp at the still-current slot.
    pub updated_clock: ClockSnapshot,
    /// The slot the environment is asked to advance to.
    pub target_slot: u64,
}

/// Compute the warp plan for `target_timestamp` from the current `clock`.
///
/// A target not strictly after the current timestamp is rejected before
/// any slot arithmetic; nothing is mutated by this function in any case.
/// On success the plan's clock carries the target timestamp at the current
/// slot, and the target slot is the current slot plus the floored slot
/// difference.
pub fn warp_plan(clock: &ClockSnapshot, ns_per_slot: u128, target_timestamp: i64) -> (r: Result<
    WarpPlan,
    WarpError,
>)
    requires
        ns_per_slot > 0,
    ensures
        target_timestamp <= clock.unix_timestamp ==> r == Err::<WarpPlan, WarpError>(
            WarpError::Backward,
        ),
        target_timestamp > clock.unix_timestamp ==> {
            let new_slot = clock.slot + spec_slots_to_advance(
                clock.unix_timestamp,
                target_timestamp,
                ns_per_slot,
            );
            &&& new_slot > u64::MAX ==> r == Err::<WarpPlan, WarpError>(WarpError::SlotOverflow)
            &&& new_slot <= u64::MAX ==> r == Ok::<WarpPlan, WarpError>(
                WarpPlan {
                    updated_clock: ClockSnapshot {
                        unix_timestamp: target_timestamp,
                        slot: clock.slot,
                    },
                    target_slot: new_slot as u64,
                },
            )
        },
{
    if target_timestamp <= clock.unix_timestamp {
        return Err(WarpError::Backward);
    }
    let diff_seconds: u128 = (target_timestamp as i128 - clock.unix_timestamp as i128) as u128;
    assert(diff_seconds == target_timestamp - clock.unix_timestamp);
    assert(diff_seconds * (NANOSECONDS_IN_SECOND as u128)
        <= 0x1_0000_0000_0000_0000u128 * 1_000_000_000u128) by (nonlinear_arith)
        requires diff_seconds <= 0x1_0000_0000_0000_0000u128,
    ;
    let diff_ns: u128 = diff_seconds * (NANOSECONDS_IN_SECOND as u128);
    let slots: u128 = diff_ns / ns_per_slot;
    proof {
        vstd::arithmetic::div_mod::lemma_div_nonincreasing(diff_ns as int, ns_per_slot as int);
    }
    let target_slot_wide: u128 = clock.slot as u128 + slots;
    assert(target_slot_wide == clock.slot + spec_slots_to_advance(
        clock.unix_timestamp,
        target_timestamp,
        ns_per_slot,
    ));
    if target_slot_wide > u64::MAX as u128 {
        return Err(WarpError::SlotOverflow);
    }
    Ok(
        WarpPlan {
            updated_clock: ClockSnapshot { unix_timestamp: target_timestamp, slot: clock.slot },
            target_slot: target_slot_wide as u64,
        },
    )
}

/// The clock after the environment completes the jump the plan asks for:
/// the target timestamp at the target slot.
pub open spec fn spec_warped_clock(plan: WarpPlan) -> ClockSnapshot {
    ClockSnapshot {
        unix_timestamp: plan.updated_clock.unix_timestamp,
        slot: plan.target_slot,
    }
}

/// A successful warp moves the clock strictly forward in time and never
/// backward in slots: the warped clock's timestamp is the target, its slot
/// is the current slot plus the floored slot difference, and it is no
/// earlier than the starting clock on either axis.
pub proof fn lemma_warp_moves_forward(
    clock: ClockSnapshot,
    ns_per_slot: u128,
    target_timestamp: i64,
    plan: WarpPlan,
)
    requires
        ns_per_slot > 0,
        target_timestamp > clock.unix_timestamp,
        clock.slot + spec_slots_to_advance(clock.unix_timestamp, target_timestamp, ns_per_slot)
            <= u64::MAX,
        plan == (WarpPlan {
            updated_clock: ClockSnapshot { unix_timestamp: target_timestamp, slot: clock.slot },
            target_slot: (clock.slot + spec_slots_to_advance(
                clock.unix_timestamp,
                target_timestamp,
                ns_per_slot,
            )) as u64,
        }),
    ensures
        spec_warped_clock(plan).unix_timestamp > clock.unix_timestamp,
        spec_warped_clock(plan).slot >= clock.slot,
        spec_warped_clock(plan).slot == clock.slot + (target_timestamp - clock.unix_timestamp)
            * NANOSECONDS_IN_SECOND / (ns_per_slot as int),
{
    let diff = target_timestamp - clock.unix_timestamp;
    assert(diff * NANOSECONDS_IN_SECOND >= 0) by (nonlinear_arith)
        requires diff > 0,
    ;
    vstd::arithmetic::div_mod::lemma_div_is_ordered(
        0,
        diff * NANOSECONDS_IN_SECOND,
        ns_per_slot as int,
    );
}

} // verus!
