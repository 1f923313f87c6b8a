//! The boot decision: update at once, wait for the operator, or boot.

use vstd::prelude::*;

verus! {

/// Length of the wait window in microseconds.
pub const WAIT_WINDOW_US: u64 = 3_000_000;

/// What the boot decision does next.
#[derive(Clone, Copy, Debug, PartialEq, Eq, Structural)]
pub enum BootStep {
    /// Race a timer of `remaining_us` microseconds against a one-byte read.
    Wait { remaining_us: u64 },
    /// Start an update transfer.
    Update,
    /// Launch the installed application.
    Boot,
}

/// How a race between the timer and the read ended.
#[derive(Clone, Copy, Debug, PartialEq, Eq, Structural)]
pub enum WaitEvent {
    /// The timer fired first.
    TimerFired,
    /// A byte arrived first.
    Byte(u8),
    /// The read ended first, with a failure.
    ReadFailed,
}

/// Whether a byte typed during the wait asks for an update: `u` or `p`.
pub open spec fn forces_update(byte: u8) -> bool {
    byte == 0x75 || byte == 0x70
}

/// The wait that is left once `elapsed_us` microseconds of the window have
/// passed: the rest of the one window, or the boot once it is used up.
pub open spec fn rest_of_window(elapsed_us: u64) -> BootStep {
    if elapsed_us >= WAIT_WINDOW_US {
        BootStep::Boot
    } else {
        BootStep::Wait { remaining_us: (WAIT_WINDOW_US - elapsed_us) as u64 }
    }
}

/// The step that follows a race that ended with `event`, `elapsed_us`
/// microseconds after the window opened.
pub open spec fn after_race(event: WaitEvent, elapsed_us: u64) -> BootStep {
    match event {
        WaitEvent::TimerFired => BootStep::Boot,
        WaitEvent::Byte(b) => if forces_update(b) {
            BootStep::Update
        } else {
            rest_of_window(elapsed_us)
        },
        WaitEvent::ReadFailed => rest_of_window(elapsed_us),
    }
}

/// Whether the status output is driven high during a step: only while waiting.
pub open spec fn status_high(step: BootStep) -> bool {
    step is Wait
}

/// The first step after reset: an unhealthy image forces the update without
/// any wait; a healthy one opens the full window.
pub fn boot_entry(healthy: bool) -> (r: BootStep)
    ensures
        r == if healthy {
            BootStep::Wait { remaining_us: WAIT_WINDOW_US }
        } else {
            BootStep::Update
        },
{
    if healthy {
        BootStep::Wait { remaining_us: WAIT_WINDOW_US }
    } else {
        BootStep::Update
    }
}

/// The step at `elapsed_us` microseconds into the window.
pub fn continue_wait(elapsed_us: u64) -> (r: BootStep)
    ensures
        r == rest_of_window(elapsed_us),
{
    if elapsed_us >= WAIT_WINDOW_US {
        BootStep::Boot
    } else {
        BootStep::Wait { remaining_us: WAIT_WINDOW_US - elapsed_us }
    }
}

/// Whether a byte typed during the wait asks for an update.
pub fn is_update_request(byte: u8) -> (r: bool)
    ensures
        r == forces_update(byte),
{
    byte == 0x75 || byte == 0x70
}

/// Decides what follows a race that ended with `event`, `elapsed_us`
/// microseconds after the window opened.
pub fn on_wait_event(event: WaitEvent, elapsed_us: u64) -> (r: BootStep)
    ensures
        r == after_race(event, elapsed_us),
{
    match event {
        WaitEvent::TimerFired => BootStep::Boot,
        WaitEvent::Byte(b) => {
            if is_update_request(b) {
                BootStep::Update
            } else {
                continue_wait(elapsed_us)
            }
        },
        WaitEvent::ReadFailed => continue_wait(elapsed_us),
    }
}

/// Whether the status output is driven high during `step`.
pub fn status_level(step: BootStep) -> (r: bool)
    ensures
        r == status_high(step),
{
    match step {
        BootStep::Wait { .. } => true,
        _ => false,
    }
}

/// A byte that asks for nothing does not extend the window: the wait that
/// follows ends when the window that was opened ends.
pub proof fn stray_byte_keeps_deadline(byte: u8, elapsed_us: u64)
    requires
        !forces_update(byte),
    ensures
        after_race(WaitEvent::Byte(byte), elapsed_us) == rest_of_window(elapsed_us),
        after_race(WaitEvent::Byte(byte), elapsed_us) matches BootStep::Wait { remaining_us }
            ==> elapsed_us + remaining_us == WAIT_WINDOW_US,
        !(after_race(WaitEvent::Byte(byte), elapsed_us) is Update),
{
}

/// The wait never grows: later in the window, less of it is left.
pub proof fn wait_shrinks(earlier_us: u64, later_us: u64)
    requires
        earlier_us <= later_us,
    ensures
        rest_of_window(earlier_us) is Boot ==> rest_of_window(later_us) is Boot,
        rest_of_window(later_us) matches BootStep::Wait { remaining_us: later } ==> (
        rest_of_window(earlier_us) matches BootStep::Wait { remaining_us: earlier } && later
            <= earlier),
{
}

} // verus!
