use solana_test_framework::warp::{warp_plan, ClockSnapshot, WarpError};

#[test]
fn thirty_day_warp_advances_the_expected_slots() {
    // 400ms slots, thirty days ahead
    let clock = ClockSnapshot { unix_timestamp: 1000, slot: 1000 };
    let target = 1000 + 2_592_000;
    let plan = warp_plan(&clock, 400_000_000, target).unwrap();
    // 2_592_000 * 1e9 / 400_000_000 = 6_480_000 slots
    assert_eq!(plan.target_slot, 1000 + 6_480_000);
    assert_eq!(plan.updated_clock.unix_timestamp, target);
    assert_eq!(plan.updated_clock.slot, 1000);
}

#[test]
fn warp_floors_partial_slots() {
    let clock = ClockSnapshot { unix_timestamp: 0, slot: 10 };
    // 1 second at 400ms per slot: floor(1e9 / 4e8) = 2 slots
    let plan = warp_plan(&clock, 400_000_000, 1).unwrap();
    assert_eq!(plan.target_slot, 12);
    // 1 second at 600ms per slot: floor(1e9 / 6e8) = 1 slot
    let plan = warp_plan(&clock, 600_000_000, 1).unwrap();
    assert_eq!(plan.target_slot, 11);
}

#[test]
fn backward_warp_is_rejected() {
    let clock = ClockSnapshot { unix_timestamp: 500, slot: 40 };
    assert_eq!(warp_plan(&clock, 400_000_000, 499), Err(WarpError::Backward));
    // equal timestamps are backward too: the move must be strict
    assert_eq!(warp_plan(&clock, 400_000_000, 500), Err(WarpError::Backward));
    // the snapshot itself is untouched
    assert_eq!(clock, ClockSnapshot { unix_timestamp: 500, slot: 40 });
}

#[test]
fn far_target_overflows_the_slot_number() {
    let clock = ClockSnapshot { unix_timestamp: 0, slot: 0 };
    // one nanosecond per slot over i64::MAX seconds does not fit in u64
    assert_eq!(warp_plan(&clock, 1, i64::MAX), Err(WarpError::SlotOverflow));
}
