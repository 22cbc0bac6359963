//! Decisions made by the scheduler's task handlers, separated from the
//! interrupt plumbing that carries them out.

use vstd::prelude::*;

verus! {

/// What a pin-event interrupt asks for.
#[derive(Debug, Clone, Copy, PartialEq, Eq, Structural)]
pub enum GpioteAction {
    Reboot,
    TouchEvent,
    BatteryChanged,
}

/// The reaction to a pin-event interrupt, by the channel that fired: the
/// button reboots the device, the touch controller's line hands the event
/// to the touch panel, and the charging line only notes the change. An
/// interrupt with no known channel fired means broken wiring between the
/// scheduler and the pins, a fatal condition ruled out here.
pub fn gpiote_interrupt(channel0: bool, channel1: bool, channel2: bool) -> (r: GpioteAction)
    requires
        channel0 || channel1 || channel2,
    ensures
        r == (if channel0 {
            GpioteAction::Reboot
        } else if channel1 {
            GpioteAction::TouchEvent
        } else {
            GpioteAction::BatteryChanged
        }),
{
    if channel0 {
        GpioteAction::Reboot
    } else if channel1 {
        GpioteAction::TouchEvent
    } else {
        GpioteAction::BatteryChanged
    }
}

/// How far the device clock advances for a real-time-counter reading: the
/// counter ticks every 125 ms (a prescaler for 8 Hz), so the elapsed time
/// is the tick count times 125. The counter is read often enough that it
/// never wraps between readings.
pub fn rtc_elapsed_ms(prev_counter: u32, new_counter: u32) -> (r: u64)
    requires
        prev_counter <= new_counter,
    ensures
        r == (new_counter - prev_counter) * 125,
{
    ((new_counter - prev_counter) as u64) * 125
}

/// Whether boot validation must run the flash self test: only an image
/// not yet marked valid is tested (and marked valid if the test passes);
/// the screen is initialized either way.
pub fn validate(footer_valid: bool) -> (run_self_test: bool)
    ensures
        run_self_test == !footer_valid,
{
    !footer_valid
}

} // verus!
