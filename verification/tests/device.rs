use core::cell::Cell;

use pinetimers::allocator::BumpPointerAlloc;
use pinetimers::link::{apply_cmd, on_radio_event, on_timer_event, LinkAction, LinkCmd, ReceiverConfig};
use pinetimers::tasks::{gpiote_interrupt, rtc_elapsed_ms, validate, GpioteAction};
use pinetimers::touchpanel::{dispatch_gesture, GestureType, TouchPanelEventHandler, TouchPoint};

#[test]
fn allocation_is_aligned_and_bumps_the_head() {
    let mut heap = BumpPointerAlloc {
        head: 0x2000_1003,
        end: 0x2000_1100,
    };
    let first = heap.allocate(16, 8).unwrap();
    assert_eq!(first, 0x2000_1008);
    assert_eq!(heap.head, 0x2000_1018);
    let second = heap.allocate(1, 4).unwrap();
    assert_eq!(second, 0x2000_1018);
    assert_eq!(heap.head, 0x2000_1019);
}

#[test]
fn exhausted_arena_returns_nothing() {
    let mut heap = BumpPointerAlloc {
        head: 0x2000_10F0,
        end: 0x2000_1100,
    };
    assert!(heap.allocate(0x100, 8).is_none());
    assert_eq!(heap.head, 0x2000_10F0);
    assert!(heap.allocate(16, 16).is_some());
}

#[test]
fn gestures_decode_exactly() {
    assert_eq!(GestureType::from_raw(0x00), Some(GestureType::NoGesture));
    assert_eq!(GestureType::from_raw(0x01), Some(GestureType::SlideDown));
    assert_eq!(GestureType::from_raw(0x02), Some(GestureType::SlideUp));
    assert_eq!(GestureType::from_raw(0x03), Some(GestureType::SlideLeft));
    assert_eq!(GestureType::from_raw(0x04), Some(GestureType::SlideRight));
    assert_eq!(GestureType::from_raw(0x05), Some(GestureType::ClickSingle));
    assert_eq!(GestureType::from_raw(0x0b), Some(GestureType::ClickDouble));
    assert_eq!(GestureType::from_raw(0x0c), Some(GestureType::ClickLong));
    assert_eq!(GestureType::from_raw(0x06), None);
    assert_eq!(GestureType::from_raw(0xff), None);
}

#[test]
fn touch_point_unpacks_twelve_bit_coordinates() {
    let buffer = [0u8, 0, 0, 0x12, 0x34, 0x0A, 0xBC];
    let point = TouchPoint::from_buffer(&buffer);
    assert_eq!(point.x, 2 * 256 + 0x34);
    assert_eq!(point.y, 10 * 256 + 0xBC);
}

struct RecordingHandler {
    last: Cell<u8>,
}

impl TouchPanelEventHandler for RecordingHandler {
    fn on_slide_right(&self, _point: TouchPoint) {
        self.last.set(1);
    }

    fn on_event(&self, _point: TouchPoint) {
        self.last.set(2);
    }
}

#[test]
fn gesture_dispatch_prefers_the_most_precise_handler() {
    let handler = RecordingHandler { last: Cell::new(0) };
    let point = TouchPoint { x: 1, y: 2 };
    dispatch_gesture(&handler, GestureType::SlideRight, point);
    assert_eq!(handler.last.get(), 1);
    // A gesture without a specific override funnels down to on_event.
    dispatch_gesture(&handler, GestureType::ClickSingle, point);
    assert_eq!(handler.last.get(), 2);
    handler.last.set(0);
    dispatch_gesture(&handler, GestureType::SlideUp, point);
    assert_eq!(handler.last.get(), 2);
}

#[test]
fn pin_interrupts_map_to_their_actions() {
    assert_eq!(gpiote_interrupt(true, false, false), GpioteAction::Reboot);
    assert_eq!(gpiote_interrupt(false, true, false), GpioteAction::TouchEvent);
    assert_eq!(gpiote_interrupt(false, false, true), GpioteAction::BatteryChanged);
    // The button wins over simultaneous triggers.
    assert_eq!(gpiote_interrupt(true, true, true), GpioteAction::Reboot);
}

#[test]
fn validation_runs_the_self_test_only_for_unmarked_images() {
    assert!(validate(false));
    assert!(!validate(true));
}

#[test]
fn commands_apply_in_order_and_schedule_work_only_when_queued() {
    let cmd = LinkCmd {
        receiver: ReceiverConfig::ListenAdvertising { channel: 39 },
        next_update_micros: 200_000,
        queued_work: true,
    };
    assert_eq!(
        apply_cmd(&cmd),
        vec![
            LinkAction::ConfigureReceiver(ReceiverConfig::ListenAdvertising { channel: 39 }),
            LinkAction::ArmTimer(200_000),
            LinkAction::ScheduleWorker,
        ]
    );
    let quiet = LinkCmd {
        receiver: ReceiverConfig::Off,
        next_update_micros: 1,
        queued_work: false,
    };
    assert_eq!(
        apply_cmd(&quiet),
        vec![
            LinkAction::ConfigureReceiver(ReceiverConfig::Off),
            LinkAction::ArmTimer(1),
        ]
    );
}

#[test]
fn radio_event_without_a_command_does_nothing() {
    assert_eq!(on_radio_event(&None), vec![]);
    let cmd = LinkCmd {
        receiver: ReceiverConfig::Off,
        next_update_micros: 5,
        queued_work: false,
    };
    assert_eq!(on_radio_event(&Some(cmd)), apply_cmd(&cmd));
}

#[test]
fn spurious_timer_wakeups_are_no_ops() {
    assert!(!on_timer_event(false));
    assert!(on_timer_event(true));
}

#[test]
fn clock_advances_125_ms_per_counter_tick() {
    assert_eq!(rtc_elapsed_ms(0, 0), 0);
    assert_eq!(rtc_elapsed_ms(10, 18), 1000);
    assert_eq!(rtc_elapsed_ms(0, u32::MAX), (u32::MAX as u64) * 125);
}
