//! The per-frame input event model: raw device state collapses into a
//! single event per frame, with press taking priority over hold, hold
//! over scroll, and scroll over nothing.

use vstd::prelude::*;

use crate::geometry::{Dims, Pos, MOUSE_BOUND};

verus! {

/// The one event a frame may carry.  `LeftMouse` holds the pointer
/// position and whether the button was already held before this frame.
#[derive(Clone, Copy, PartialEq, Eq, Structural, Debug)]
pub enum InputEvent {
    Idle,
    LeftMouse(Pos, bool),
    Scroll(i64),
}

impl InputEvent {
    /// Payloads stay within the device input range.
    pub open spec fn wf(self) -> bool {
        match self {
            InputEvent::Idle => true,
            InputEvent::LeftMouse(p, _) => p@.mouse_in_range(),
            InputEvent::Scroll(d) => -(MOUSE_BOUND as int) <= d <= MOUSE_BOUND as int,
        }
    }
}

/// Raw device state polled once per frame, plus the values that only
/// the caller can read: the clock and the removable-media file content.
pub struct FrameInput {
    pub now_ms: u64,
    pub mouse: Pos,
    pub mouse_pressed: bool,
    pub mouse_down: bool,
    pub scroll: i64,
    pub key_left: bool,
    pub key_right: bool,
    pub key_up: bool,
    pub key_down: bool,
    pub screen: Dims,
    pub usb_content: Option<String>,
}

impl FrameInput {
    pub open spec fn wf(self) -> bool {
        self.mouse@.mouse_in_range() && -(MOUSE_BOUND as int) <= self.scroll <= MOUSE_BOUND as int
    }
}

/// The per-frame context handed to every window's input handler: state
/// that is polled once per tick and shared by all windows.
#[derive(Clone, Copy, PartialEq, Eq, Structural, Debug)]
pub struct InputCtx {
    pub mouse_down: bool,
    pub last_mouse: Pos,
    pub now_ms: u64,
    pub key_left: bool,
    pub key_right: bool,
    pub key_up: bool,
    pub key_down: bool,
    pub screen: Dims,
}

impl InputCtx {
    pub open spec fn wf(self) -> bool {
        self.last_mouse@.mouse_in_range()
    }
}

/// What `compute_event` returns, as a function of the polled state.
pub open spec fn event_spec(input: FrameInput) -> InputEvent {
    if input.mouse_pressed {
        InputEvent::LeftMouse(input.mouse, false)
    } else if input.mouse_down {
        InputEvent::LeftMouse(input.mouse, true)
    } else if input.scroll != 0 {
        InputEvent::Scroll(input.scroll)
    } else {
        InputEvent::Idle
    }
}

/// Collapses the polled device state into the frame's single event.
pub fn compute_event(input: &FrameInput) -> (ev: InputEvent)
    ensures
        ev == event_spec(*input),
{
    if input.mouse_pressed {
        InputEvent::LeftMouse(input.mouse, false)
    } else if input.mouse_down {
        InputEvent::LeftMouse(input.mouse, true)
    } else if input.scroll != 0 {
        InputEvent::Scroll(input.scroll)
    } else {
        InputEvent::Idle
    }
}

} // verus!
