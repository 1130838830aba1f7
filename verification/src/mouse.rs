//! Mouse buttons, click counting and scroll directions.

use crate::float::Float64;
use vstd::prelude::*;

verus! {

pub const LAUFEY_MOUSE_BUTTON_LEFT: i32 = 0;

pub const LAUFEY_MOUSE_BUTTON_RIGHT: i32 = 1;

pub const LAUFEY_MOUSE_BUTTON_MIDDLE: i32 = 2;

pub const LAUFEY_MOUSE_BUTTON_BACK: i32 = 3;

pub const LAUFEY_MOUSE_BUTTON_FORWARD: i32 = 4;

pub const LAUFEY_MOUSE_PRESSED: i32 = 0;

pub const LAUFEY_MOUSE_RELEASED: i32 = 1;

pub const LAUFEY_WHEEL_DELTA_PIXEL: i32 = 0;

pub const LAUFEY_WHEEL_DELTA_LINE: i32 = 1;

/// Two presses count as one run while less than this lies between them, in
/// nanoseconds (500 ms).
pub const DOUBLE_CLICK_INTERVAL_NANOS: u64 = 500_000_000;

#[derive(Clone, Copy, Debug, PartialEq, Eq, Structural)]
pub enum MouseButton {
    Left,
    Right,
    Middle,
    Back,
    Forward,
    Other(u16),
}

/// The number under which a button is reported; buttons beyond the five known
/// ones have none.
pub open spec fn button_number(button: MouseButton) -> i32 {
    match button {
        MouseButton::Left => LAUFEY_MOUSE_BUTTON_LEFT,
        MouseButton::Right => LAUFEY_MOUSE_BUTTON_RIGHT,
        MouseButton::Middle => LAUFEY_MOUSE_BUTTON_MIDDLE,
        MouseButton::Back => LAUFEY_MOUSE_BUTTON_BACK,
        MouseButton::Forward => LAUFEY_MOUSE_BUTTON_FORWARD,
        MouseButton::Other(_) => -1i32,
    }
}

/// The number under which a button is reported, or -1.
pub fn winit_button_to_laufey(button: MouseButton) -> (r: i32)
    ensures
        r == button_number(button),
{
    match button {
        MouseButton::Left => LAUFEY_MOUSE_BUTTON_LEFT,
        MouseButton::Right => LAUFEY_MOUSE_BUTTON_RIGHT,
        MouseButton::Middle => LAUFEY_MOUSE_BUTTON_MIDDLE,
        MouseButton::Back => LAUFEY_MOUSE_BUTTON_BACK,
        MouseButton::Forward => LAUFEY_MOUSE_BUTTON_FORWARD,
        MouseButton::Other(_) => -1,
    }
}

/// The press continues the run of the previous one: same button, nearby, and
/// less than the double-click interval later. A clock that stood still or went
/// back counts as no time at all.
pub open spec fn continues_run(
    prev_button: Option<MouseButton>,
    nearby: bool,
    prev_time: Option<u64>,
    button: MouseButton,
    now: u64,
) -> bool {
    &&& prev_button == Some(button)
    &&& prev_time matches Some(t) && now - t < DOUBLE_CLICK_INTERVAL_NANOS
    &&& nearby
}

/// The click count of a press.
pub open spec fn click_count_of(
    prev_button: Option<MouseButton>,
    nearby: bool,
    prev_time: Option<u64>,
    prev_count: i32,
    button: MouseButton,
    now: u64,
) -> int {
    if continues_run(prev_button, nearby, prev_time, button, now) {
        prev_count + 1
    } else {
        1
    }
}

/// The click count of a press: one more than before while the same button lands
/// nearby within 500 ms, and 1 otherwise. `nearby` says whether the press lies
/// within four logical pixels of the previous one; times are in nanoseconds.
pub fn next_click_count(
    prev_button: Option<MouseButton>,
    nearby: bool,
    prev_time: Option<u64>,
    prev_count: i32,
    button: MouseButton,
    now: u64,
) -> (r: i32)
    requires
        continues_run(prev_button, nearby, prev_time, button, now) ==> prev_count < i32::MAX,
    ensures
        r == click_count_of(prev_button, nearby, prev_time, prev_count, button, now),
{
    let same_button = match prev_button {
        Some(b) => b == button,
        None => false,
    };
    let in_time = match prev_time {
        Some(t) => now.saturating_sub(t) < DOUBLE_CLICK_INTERVAL_NANOS,
        None => false,
    };
    if same_button && in_time && nearby {
        prev_count + 1
    } else {
        1
    }
}

/// The click count after presses of one button at the given times, all in one
/// place.
pub open spec fn count_after(button: MouseButton, times: Seq<u64>) -> int
    decreases times.len(),
{
    if times.len() == 0 {
        0
    } else if times.len() == 1 {
        click_count_of(None, false, None, 0, button, times[0])
    } else {
        let before = times.drop_last();
        click_count_of(
            Some(button),
            true,
            Some(before.last()),
            count_after(button, before) as i32,
            button,
            times.last(),
        )
    }
}

/// Presses of one button in one place, each within the interval of the one
/// before it, count up one by one, however many there are.
pub proof fn quick_presses_count_up(button: MouseButton, times: Seq<u64>)
    requires
        times.len() <= i32::MAX,
        forall|i: int|
            0 <= i < times.len() - 1 ==> (#[trigger] times[i + 1]) - times[i]
                < DOUBLE_CLICK_INTERVAL_NANOS,
    ensures
        count_after(button, times) == times.len(),
    decreases times.len(),
{
    if times.len() > 1 {
        let before = times.drop_last();
        assert forall|i: int| 0 <= i < before.len() - 1 implies (#[trigger] before[i + 1])
            - before[i] < DOUBLE_CLICK_INTERVAL_NANOS by {
            assert(times[i + 1] - times[i] < DOUBLE_CLICK_INTERVAL_NANOS);
        }
        quick_presses_count_up(button, before);
        assert(times[(times.len() - 2) + 1] - times[times.len() - 2]
            < DOUBLE_CLICK_INTERVAL_NANOS);
    }
}

/// A scroll step, positive upwards: in lines, or in logical pixels.
#[derive(Clone, Copy, Debug, PartialEq, Eq, Structural)]
pub enum ScrollDelta {
    Line(Float64, Float64),
    Pixel(Float64, Float64),
}

/// A scroll step in the terms of the DOM, where positive Y scrolls down: Y is
/// flipped, X stays, and the mode says which unit it is in.
pub fn winit_scroll_to_dom(delta: ScrollDelta) -> (r: (Float64, Float64, i32))
    ensures
        r == (match delta {
            ScrollDelta::Line(dx, dy) => (dx, dy.negated(), LAUFEY_WHEEL_DELTA_LINE),
            ScrollDelta::Pixel(dx, dy) => (dx, dy.negated(), LAUFEY_WHEEL_DELTA_PIXEL),
        }),
{
    match delta {
        ScrollDelta::Line(dx, dy) => (dx, dy.negate(), LAUFEY_WHEEL_DELTA_LINE),
        ScrollDelta::Pixel(dx, dy) => (dx, dy.negate(), LAUFEY_WHEEL_DELTA_PIXEL),
    }
}

} // verus!
