//! The reload value that arms the 24-bit down-counter for a wake-up.

use vstd::prelude::*;

verus! {

/// Largest reload value of the 24-bit down-counter.
pub const RELOAD_MAX: u32 = 0xFF_FFFF;

/// The tick count from `now` to `target`, taken modulo `2^32`, when `target`
/// is at or after `now` in wrap-aware order (a distance of at most half the
/// range); none when `target` lies before `now`.
pub open spec fn ticks_since_u32(target: u32, now: u32) -> Option<u32> {
    let d = (target as int - now as int) % 0x1_0000_0000;
    if d <= u32::MAX / 2 {
        Some(d as u32)
    } else {
        None
    }
}

/// As `ticks_since_u32`, on 64-bit ticks.
pub open spec fn ticks_since_u64(target: u64, now: u64) -> Option<u64> {
    let d = (target as int - now as int) % 0x1_0000_0000_0000_0000;
    if d <= u64::MAX / 2 {
        Some(d as u64)
    } else {
        None
    }
}

/// The wait from `now` until `target`, in the clock's width.
pub open spec fn ticks_since(wide: bool, target: u64, now: u64) -> Option<u64> {
    if wide {
        ticks_since_u64(target, now)
    } else {
        match ticks_since_u32(target as u32, now as u32) {
            Some(d) => Some(d as u64),
            None => None,
        }
    }
}

/// Reload value for a wait of `wait` ticks: a target already due (a wait of zero, or a target in the past) gives one tick,
/// never zero, which would stop the down-counter; longer waits are clamped to the counter's range.
pub open spec fn reload_of(wait: Option<u64>) -> u32 {
    match wait {
        None => 1,
        Some(d) => if d < 1 {
            1
        } else if d > RELOAD_MAX {
            RELOAD_MAX
        } else {
            d as u32
        },
    }
}

/// Relies on fugit's `Instant::<u32, _, _>::checked_duration_since`, which
/// compares instants modulo the tick range: it returns the wrapping tick
/// difference when that is at most `u32::MAX / 2`, and `None` otherwise. The
/// tick frequency plays no part in it.
#[verifier::external_body]
fn checked_ticks_since_u32(target: u32, now: u32) -> (r: Option<u32>)
    ensures
        r == ticks_since_u32(target, now),
{
    let target = fugit::TimerInstantU32::<1>::from_ticks(target);
    target.checked_duration_since(fugit::TimerInstantU32::<1>::from_ticks(now)).map(|d| d.ticks())
}

/// Relies on fugit's `Instant::<u64, _, _>::checked_duration_since`, which
/// compares instants modulo the tick range: it returns the wrapping tick
/// difference when that is at most `u64::MAX / 2`, and `None` otherwise. The
/// tick frequency plays no part in it.
#[verifier::external_body]
fn checked_ticks_since_u64(target: u64, now: u64) -> (r: Option<u64>)
    ensures
        r == ticks_since_u64(target, now),
{
    let target = fugit::TimerInstantU64::<1>::from_ticks(target);
    target.checked_duration_since(fugit::TimerInstantU64::<1>::from_ticks(now)).map(|d| d.ticks())
}

/// The reload value that makes the down-counter fire at `target` when the
/// clock reads `now`; in the narrow width both are 32-bit instants.
pub fn reload_for(wide: bool, target: u64, now: u64) -> (r: u32)
    requires
        !wide ==> target <= u32::MAX && now <= u32::MAX,
    ensures
        r == reload_of(ticks_since(wide, target, now)),
        1 <= r <= RELOAD_MAX,
{
    let wait: Option<u64> = if wide {
        checked_ticks_since_u64(target, now)
    } else {
        match checked_ticks_since_u32(target as u32, now as u32) {
            Some(d) => Some(d as u64),
            None => None,
        }
    };
    let ticks: u64 = match wait {
        Some(d) => d,
        // Already due: the smallest reload below applies.
        None => 0,
    };
    let ticks = if ticks < 1 {
        1
    } else {
        ticks
    };
    let ticks = if ticks > RELOAD_MAX as u64 {
        RELOAD_MAX as u64
    } else {
        ticks
    };
    ticks as u32
}

/// Number of distinct tick values in the clock's width.
pub open spec fn tick_range(wide: bool) -> int {
    if wide {
        0x1_0000_0000_0000_0000
    } else {
        0x1_0000_0000
    }
}

/// The tick distance from `now` forward to `target`, modulo the tick range.
pub open spec fn distance(wide: bool, target: u64, now: u64) -> int {
    (target as int - now as int) % tick_range(wide)
}

/// Instants within the clock's width.
pub open spec fn fits_width(wide: bool, t: u64) -> bool {
    !wide ==> t <= u32::MAX
}

proof fn lemma_ticks_since(wide: bool, target: u64, now: u64)
    requires
        fits_width(wide, target),
        fits_width(wide, now),
    ensures
        ticks_since(wide, target, now) == if distance(wide, target, now) <= (tick_range(wide)
            - 2) / 2 {
            Some(distance(wide, target, now) as u64)
        } else {
            None
        },
{
    if !wide {
        assert(target as u32 as int == target as int);
        assert(now as u32 as int == now as int);
    }
}

/// A target at or before the current time (the same instant, or at least
/// half the tick range behind it in wrap-aware order) gets a reload of one
/// tick, never zero.
pub proof fn lemma_due_target_reloads_one(wide: bool, target: u64, now: u64)
    requires
        fits_width(wide, target),
        fits_width(wide, now),
        distance(wide, target, now) == 0 || distance(wide, target, now) >= tick_range(wide) / 2,
    ensures
        reload_of(ticks_since(wide, target, now)) == 1,
{
    lemma_ticks_since(wide, target, now);
}

/// A target further ahead than the down-counter can count gets the largest
/// reload value.
pub proof fn lemma_far_target_reloads_max(wide: bool, target: u64, now: u64)
    requires
        fits_width(wide, target),
        fits_width(wide, now),
        RELOAD_MAX < distance(wide, target, now) < tick_range(wide) / 2,
    ensures
        reload_of(ticks_since(wide, target, now)) == RELOAD_MAX,
{
    lemma_ticks_since(wide, target, now);
}

/// A target between one and `RELOAD_MAX` ticks ahead gets exactly that many
/// ticks as its reload value.
pub proof fn lemma_near_target_reloads_distance(wide: bool, target: u64, now: u64)
    requires
        fits_width(wide, target),
        fits_width(wide, now),
        1 <= distance(wide, target, now) <= RELOAD_MAX,
    ensures
        reload_of(ticks_since(wide, target, now)) == distance(wide, target, now),
{
    lemma_ticks_since(wide, target, now);
}

} // verus!
