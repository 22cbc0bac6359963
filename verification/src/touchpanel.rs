//! The touch panel's gesture decoding: the raw interrupt buffer becomes a
//! gesture kind and a touch point, and an event handler is told which
//! gesture happened. Reading the buffer over the bus happens outside this
//! crate.

use vstd::prelude::*;

verus! {

/// A gesture the panel reports.
#[derive(Debug, Clone, Copy, PartialEq, Eq, Structural)]
pub enum GestureType {
    NoGesture,
    SlideDown,
    SlideUp,
    SlideLeft,
    SlideRight,
    ClickSingle,
    ClickDouble,
    ClickLong,
}

/// The gesture encoded by a raw gesture byte, if any. An unknown value
/// means the panel and the driver disagree about the protocol, a fatal
/// condition for the device.
pub open spec fn spec_gesture_from_raw(value: u8) -> Option<GestureType> {
    if value == 0x00 {
        Some(GestureType::NoGesture)
    } else if value == 0x01 {
        Some(GestureType::SlideDown)
    } else if value == 0x02 {
        Some(GestureType::SlideUp)
    } else if value == 0x03 {
        Some(GestureType::SlideLeft)
    } else if value == 0x04 {
        Some(GestureType::SlideRight)
    } else if value == 0x05 {
        Some(GestureType::ClickSingle)
    } else if value == 0x0b {
        Some(GestureType::ClickDouble)
    } else if value == 0x0c {
        Some(GestureType::ClickLong)
    } else {
        None
    }
}

impl GestureType {
    /// Decodes the raw gesture byte.
    pub fn from_raw(value: u8) -> (r: Option<GestureType>)
        ensures
            r == spec_gesture_from_raw(value),
    {
        match value {
            0x00 => Some(GestureType::NoGesture),
            0x01 => Some(GestureType::SlideDown),
            0x02 => Some(GestureType::SlideUp),
            0x03 => Some(GestureType::SlideLeft),
            0x04 => Some(GestureType::SlideRight),
            0x05 => Some(GestureType::ClickSingle),
            0x0b => Some(GestureType::ClickDouble),
            0x0c => Some(GestureType::ClickLong),
            _ => None,
        }
    }
}

/// One touched point, in panel coordinates.
#[derive(Debug, Clone, Copy, PartialEq, Eq, Structural)]
pub struct TouchPoint {
    pub x: u16,
    pub y: u16,
}

impl TouchPoint {
    /// The touch point carried by an interrupt buffer: twelve-bit
    /// coordinates, the high nibbles in bytes three and five, the low
    /// bytes in bytes four and six.
    pub fn from_buffer(buffer: &[u8]) -> (r: TouchPoint)
        requires
            buffer@.len() >= 7,
        ensures
            r.x == (buffer@[3] & 0xf) as int * 256 + buffer@[4],
            r.y == (buffer@[5] & 0xf) as int * 256 + buffer@[6],
    {
        TouchPoint {
            x: ((buffer[3] & 0xf) as u16) * 256 + (buffer[4] as u16),
            y: ((buffer[5] & 0xf) as u16) * 256 + (buffer[6] as u16),
        }
    }
}

/// Reacts to touch events. The most precise method a gesture matches is
/// called; by default everything funnels down to `on_event`.
pub trait TouchPanelEventHandler {
    fn on_slide_down(&self, point: TouchPoint) {
        self.on_slide(point);
    }

    fn on_slide_up(&self, point: TouchPoint) {
        self.on_slide(point);
    }

    fn on_slide_left(&self, point: TouchPoint) {
        self.on_slide(point);
    }

    fn on_slide_right(&self, point: TouchPoint) {
        self.on_slide(point);
    }

    fn on_click_single(&self, point: TouchPoint) {
        self.on_click(point);
    }

    fn on_click_double(&self, point: TouchPoint) {
        self.on_slide(point);
    }

    fn on_click_long(&self, point: TouchPoint) {
        self.on_slide(point);
    }

    fn on_slide(&self, point: TouchPoint) {
        self.on_event(point);
    }

    fn on_click(&self, point: TouchPoint) {
        self.on_event(point);
    }

    fn on_event(&self, point: TouchPoint) {
    }
}

/// Routes a decoded gesture to the handler method that matches it.
pub fn dispatch_gesture<H: TouchPanelEventHandler>(
    handler: &H,
    gesture: GestureType,
    point: TouchPoint,
) {
    match gesture {
        GestureType::SlideDown => handler.on_slide_down(point),
        GestureType::SlideUp => handler.on_slide_up(point),
        GestureType::SlideLeft => handler.on_slide_left(point),
        GestureType::SlideRight => handler.on_slide_right(point),
        GestureType::ClickSingle => handler.on_click_single(point),
        GestureType::ClickDouble => handler.on_click_double(point),
        GestureType::ClickLong => handler.on_click_long(point),
        GestureType::NoGesture => handler.on_event(point),
    }
}

} // verus!
