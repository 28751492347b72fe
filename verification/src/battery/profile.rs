//! Time slots of the week, by which battery usage is averaged.

use vstd::prelude::*;

verus! {

/// Half-hour slots in a day.
pub const NUM_PROFILE_SLOTS_PER_DAY: usize = 48;

/// Half-hour slots in a week.
pub const NUM_USAGE_PROFILE_SLOTS: usize = 336;

/// The half-hour slot of the week that a time falls in: 48 slots a day,
/// two an hour, the second one from minute 30 on.
pub open spec fn half_hour_slot(day_of_week: int, hour: int, minute: int) -> int {
    day_of_week * 48 + hour * 2 + if minute >= 30 {
        1int
    } else {
        0int
    }
}

/// Calculate the slot index for a specific time (day 0 is Monday).
pub fn slot_index_for_time(day_of_week: usize, hour: usize, minute: usize) -> (slot: usize)
    requires
        day_of_week * 48 + hour * 2 + 1 <= usize::MAX,
    ensures
        slot == half_hour_slot(day_of_week as int, hour as int, minute as int),
{
    let half_hour_slot: usize = if minute >= 30 {
        1
    } else {
        0
    };
    (day_of_week * 48) + (hour * 2) + half_hour_slot
}

/// Every time of the week lands in one of the 336 slots, and two times land
/// in the same slot exactly when they share day, hour and half hour.
pub proof fn lemma_slots_partition_week(d1: int, h1: int, m1: int, d2: int, h2: int, m2: int)
    requires
        0 <= d1 < 7,
        0 <= h1 < 24,
        0 <= m1 < 60,
        0 <= d2 < 7,
        0 <= h2 < 24,
        0 <= m2 < 60,
    ensures
        0 <= half_hour_slot(d1, h1, m1) < NUM_USAGE_PROFILE_SLOTS,
        half_hour_slot(d1, h1, m1) == half_hour_slot(d2, h2, m2) <==> (d1 == d2 && h1 == h2 && (
        m1 >= 30) == (m2 >= 30)),
{
}

/// Quarter-hour slots in an hour.
pub const TIME_SLOTS_PER_HOUR: u32 = 4;

/// Quarter-hour slots in a day.
pub const TIME_SLOTS_PER_DAY: u32 = 96;

/// Minutes in a quarter-hour slot.
pub const MINUTES_PER_TIME_SLOT: u32 = 15;

/// The quarter-hour slot of the day and of the week that a time falls in
/// (day 0 is Monday).
pub fn get_slots(minute: u32, hour: u32, day_of_week: u32) -> (slots: (u32, u32))
    requires
        minute < 60,
        hour < 24,
        day_of_week < 7,
    ensures
        slots.0 == hour * 4 + minute / 15,
        slots.1 == day_of_week * 96 + slots.0,
        slots.0 < TIME_SLOTS_PER_DAY,
        slots.1 < TIME_SLOTS_PER_DAY * 7,
{
    let slot_of_hour = minute / MINUTES_PER_TIME_SLOT;
    let slot_of_day = hour * TIME_SLOTS_PER_HOUR + slot_of_hour;
    let slot_of_week = day_of_week * TIME_SLOTS_PER_DAY + slot_of_day;
    (slot_of_day, slot_of_week)
}

} // verus!
