use vstd::prelude::*;

verus! {

/// An input event as the aggregator sees it.
#[derive(Clone, Copy, Debug, PartialEq, Eq, Structural)]
pub enum InputEvent {
    KeyPress,
    MouseClick,
    MouseMove(i32, i32),
    Scroll(i32),
}

/// Mouse buttons as the capture hook reports them.
#[derive(Clone, Copy, Debug, PartialEq, Eq, Structural)]
pub enum MouseButton {
    Left,
    Right,
    Middle,
    Other,
}

/// A captured event, before classification. Coordinates are already whole pixels.
#[derive(Clone, Copy, Debug, PartialEq, Eq, Structural)]
pub enum RawEvent {
    KeyPress,
    ButtonPress(MouseButton),
    MouseMove { x: i32, y: i32 },
    Wheel { delta_y: i64 },
    Other,
}

/// Scroll magnitude of a wheel movement, capped at `i32::MAX`.
pub open spec fn scroll_magnitude(delta_y: i64) -> int {
    let a = if delta_y < 0 { -delta_y } else { delta_y as int };
    if a > i32::MAX { i32::MAX as int } else { a }
}

/// The event that a captured event counts as, if any: key presses, left and right
/// clicks, moves, and wheel movements by their magnitude.
pub open spec fn classify(e: RawEvent) -> Option<InputEvent> {
    match e {
        RawEvent::KeyPress => Some(InputEvent::KeyPress),
        RawEvent::ButtonPress(b) => match b {
            MouseButton::Left | MouseButton::Right => Some(InputEvent::MouseClick),
            _ => None,
        },
        RawEvent::MouseMove { x, y } => Some(InputEvent::MouseMove(x, y)),
        RawEvent::Wheel { delta_y } => if delta_y != 0 {
            Some(InputEvent::Scroll(scroll_magnitude(delta_y) as i32))
        } else {
            None
        },
        RawEvent::Other => None,
    }
}

/// Converts a captured event to the internal event representation.
pub fn convert_event(event: &RawEvent) -> (r: Option<InputEvent>)
    ensures
        r == classify(*event),
{
    match event {
        RawEvent::KeyPress => Some(InputEvent::KeyPress),
        RawEvent::ButtonPress(button) => match button {
            MouseButton::Left | MouseButton::Right => Some(InputEvent::MouseClick),
            _ => None,
        },
        RawEvent::MouseMove { x, y } => Some(InputEvent::MouseMove(*x, *y)),
        RawEvent::Wheel { delta_y } => {
            let d = *delta_y;
            if d == 0 {
                None
            } else {
                let a: u64 = if d < 0 { (0i128 - d as i128) as u64 } else { d as u64 };
                let amount: i32 = if a > i32::MAX as u64 { i32::MAX } else { a as i32 };
                Some(InputEvent::Scroll(amount))
            }
        },
        RawEvent::Other => None,
    }
}

} // verus!
