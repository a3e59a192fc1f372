//! Mapping from the host's monotonic slot counter to velocity windows.
//!
//! The host's slot is the only time source that gates a decision; wall-clock
//! timestamps are advisory. A day, week and month are fixed slot spans
//! (assuming roughly 400 ms per slot), deliberately not calendar-aware, so
//! that window behaviour is predictable on a host with a variable but
//! bounded slot rate.

use vstd::prelude::*;

verus! {

/// Slots in one daily window (~400 ms per slot).
pub const SLOTS_PER_DAY: u64 = 216_000;
/// Slots in one weekly window: seven daily spans.
pub const SLOTS_PER_WEEK: u64 = 1_512_000;
/// Slots in one monthly window: thirty daily spans.
pub const SLOTS_PER_MONTH: u64 = 6_480_000;

/// One of the three velocity windows.
#[derive(Clone, Copy, PartialEq, Eq, Structural, Debug)]
pub enum WindowKind {
    Daily,
    Weekly,
    Monthly,
}

/// The fixed slot span of a window.
pub open spec fn spec_window_span(kind: WindowKind) -> u64 {
    match kind {
        WindowKind::Daily => SLOTS_PER_DAY,
        WindowKind::Weekly => SLOTS_PER_WEEK,
        WindowKind::Monthly => SLOTS_PER_MONTH,
    }
}

/// The ordinal of the window of `kind` that `current_slot` falls in,
/// counting from slot zero.
pub fn window_index(kind: WindowKind, current_slot: u64) -> (r: u64)
    ensures
        r == current_slot as int / spec_window_span(kind) as int,
{
    match kind {
        WindowKind::Daily => current_slot / SLOTS_PER_DAY,
        WindowKind::Weekly => current_slot / SLOTS_PER_WEEK,
        WindowKind::Monthly => current_slot / SLOTS_PER_MONTH,
    }
}

/// Slots elapsed since a window was last reset, clamped at zero when the
/// recorded reset lies in the future (a stale record is never negative).
pub open spec fn spec_elapsed(last_reset_slot: u64, current_slot: u64) -> int {
    if current_slot >= last_reset_slot {
        current_slot - last_reset_slot
    } else {
        0
    }
}

/// Whether a window whose span is `span` slots is due for a reset.
pub open spec fn spec_window_expired(last_reset_slot: u64, current_slot: u64, span: u64) -> bool {
    spec_elapsed(last_reset_slot, current_slot) >= span
}

/// Slots elapsed since `last_reset_slot`, saturating at zero.
pub fn elapsed(last_reset_slot: u64, current_slot: u64) -> (r: u64)
    ensures
        r == spec_elapsed(last_reset_slot, current_slot),
{
    current_slot.saturating_sub(last_reset_slot)
}

/// Whether the daily window has run its full span since its last reset.
pub fn should_reset_daily(last_reset_slot: u64, current_slot: u64) -> (r: bool)
    ensures
        r == spec_window_expired(last_reset_slot, current_slot, SLOTS_PER_DAY),
{
    elapsed(last_reset_slot, current_slot) >= SLOTS_PER_DAY
}

/// Whether the weekly window has run its full span since its last reset.
pub fn should_reset_weekly(last_reset_slot: u64, current_slot: u64) -> (r: bool)
    ensures
        r == spec_window_expired(last_reset_slot, current_slot, SLOTS_PER_WEEK),
{
    elapsed(last_reset_slot, current_slot) >= SLOTS_PER_WEEK
}

/// Whether the monthly window has run its full span since its last reset.
pub fn should_reset_monthly(last_reset_slot: u64, current_slot: u64) -> (r: bool)
    ensures
        r == spec_window_expired(last_reset_slot, current_slot, SLOTS_PER_MONTH),
{
    elapsed(last_reset_slot, current_slot) >= SLOTS_PER_MONTH
}

} // verus!
