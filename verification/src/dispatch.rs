//! From input and window events to calls of the registered handlers.

use crate::float::Float64;
use crate::keyboard::{
    modifiers_to_laufey, winit_code_to_string, winit_key_to_string, Key, ModifiersState, PhysicalKey,
    LAUFEY_KEY_PRESSED, LAUFEY_KEY_RELEASED,
};
use crate::keyboard;
use crate::mouse;
use crate::mouse::{
    next_click_count, winit_button_to_laufey, winit_scroll_to_dom, MouseButton, ScrollDelta,
    LAUFEY_MOUSE_PRESSED, LAUFEY_MOUSE_RELEASED, LAUFEY_WHEEL_DELTA_LINE, LAUFEY_WHEEL_DELTA_PIXEL,
};
use crate::text;
use crate::text::to_c_string;
use crate::window_state::{Callback, EventHandlers, WindowState};
use vstd::prelude::*;

verus! {

/// A call of a registered handler, with its arguments.
pub enum HandlerCall {
    Keyboard {
        to: Callback,
        window_id: u32,
        state: i32,
        key: String,
        code: String,
        modifiers: u32,
        repeat: bool,
    },
    MouseClick {
        to: Callback,
        window_id: u32,
        state: i32,
        button: i32,
        x: Float64,
        y: Float64,
        modifiers: u32,
        click_count: i32,
    },
    MouseMove { to: Callback, window_id: u32, x: Float64, y: Float64, modifiers: u32 },
    Wheel {
        to: Callback,
        window_id: u32,
        delta_x: Float64,
        delta_y: Float64,
        x: Float64,
        y: Float64,
        modifiers: u32,
        delta_mode: i32,
    },
    CursorEnterLeave {
        to: Callback,
        window_id: u32,
        entered: i32,
        x: Float64,
        y: Float64,
        modifiers: u32,
    },
    Focused { to: Callback, window_id: u32, focused: i32 },
    Resize { to: Callback, window_id: u32, width: i32, height: i32 },
    Move { to: Callback, window_id: u32, x: i32, y: i32 },
    CloseRequested { to: Callback, window_id: u32 },
    Ime { to: Callback, window_id: u32, state: i32, data: String },
}

/// The call that tells the keyboard handler of a key, if there is a handler.
/// Text that cannot cross as a C string crosses empty.
pub open spec fn keyboard_call(
    handlers: EventHandlers,
    window_id: u32,
    pressed: bool,
    key: Seq<char>,
    code: Seq<char>,
    modifiers: ModifiersState,
    repeat: bool,
    call: Option<HandlerCall>,
) -> bool {
    match handlers.keyboard_handler {
        Some(cb) => {
            &&& call matches Some(
                HandlerCall::Keyboard { to, window_id: id, state, key: k, code: c, modifiers: m, repeat: rep },
            )
            &&& to == cb
            &&& id == window_id
            &&& state == (if pressed {
                LAUFEY_KEY_PRESSED
            } else {
                LAUFEY_KEY_RELEASED
            })
            &&& k@ == text::c_string(key)
            &&& c@ == text::c_string(code)
            &&& m == modifiers.mask()
            &&& rep == repeat
        },
        None => call is None,
    }
}

/// Tells the keyboard handler of a key given by its `key` and `code` strings.
pub fn dispatch_raw_keyboard_event(
    handlers: &EventHandlers,
    window_id: u32,
    pressed: bool,
    key: &str,
    code: &str,
    modifiers: ModifiersState,
    repeat: bool,
) -> (r: Option<HandlerCall>)
    ensures
        keyboard_call(*handlers, window_id, pressed, key@, code@, modifiers, repeat, r),
{
    match handlers.keyboard_handler {
        Some(cb) => {
            let state: i32 = if pressed {
                LAUFEY_KEY_PRESSED
            } else {
                LAUFEY_KEY_RELEASED
            };
            Some(
                HandlerCall::Keyboard {
                    to: cb,
                    window_id,
                    state,
                    key: to_c_string(key),
                    code: to_c_string(code),
                    modifiers: modifiers_to_laufey(modifiers),
                    repeat,
                },
            )
        },
        None => None,
    }
}

/// A key going down or up.
pub struct KeyEvent {
    pub logical_key: Key,
    pub physical_key: PhysicalKey,
    pub pressed: bool,
    pub repeat: bool,
}

/// Tells the keyboard handler of a key event.
pub fn dispatch_keyboard_event(
    handlers: &EventHandlers,
    window_id: u32,
    key_event: &KeyEvent,
    modifiers: ModifiersState,
) -> (r: Option<HandlerCall>)
    ensures
        keyboard_call(
            *handlers,
            window_id,
            key_event.pressed,
            keyboard::key_text(key_event.logical_key),
            keyboard::code_text(key_event.physical_key),
            modifiers,
            key_event.repeat,
            r,
        ),
{
    let key_str = winit_key_to_string(&key_event.logical_key);
    let code_str = winit_code_to_string(&key_event.physical_key);
    dispatch_raw_keyboard_event(
        handlers,
        window_id,
        key_event.pressed,
        key_str.as_str(),
        code_str.as_str(),
        modifiers,
        key_event.repeat,
    )
}

/// The click count that a button event carries: a press counts, a release
/// repeats the count of the press.
pub open spec fn reported_count(
    ws: WindowState,
    pressed: bool,
    button: MouseButton,
    nearby: bool,
    now: u64,
) -> int {
    if pressed {
        mouse::click_count_of(
            ws.last_press_button,
            nearby,
            ws.last_press_time,
            ws.click_count,
            button,
            now,
        )
    } else {
        ws.click_count as int
    }
}

/// The window's state after a button event that was reported.
pub open spec fn after_button(
    ws: WindowState,
    pressed: bool,
    button: MouseButton,
    nearby: bool,
    now: u64,
) -> WindowState {
    if pressed {
        WindowState {
            last_press_time: Some(now),
            last_press_button: Some(button),
            last_press_position: Some(ws.cursor_position),
            click_count: reported_count(ws, pressed, button, nearby, now) as i32,
            ..ws
        }
    } else {
        ws
    }
}

/// A press that continues a run still has a count to be given.
pub open spec fn count_fits(
    ws: WindowState,
    pressed: bool,
    button: MouseButton,
    nearby: bool,
    now: u64,
) -> bool {
    pressed && mouse::continues_run(
        ws.last_press_button,
        nearby,
        ws.last_press_time,
        button,
        now,
    ) ==> ws.click_count < i32::MAX
}

/// Tells the mouse-click handler of a button, at the cursor's last position.
/// Without a handler, or for a button beyond the known ones, nothing happens
/// and nothing is remembered. `nearby` says whether the cursor lies within four
/// logical pixels of the last press.
pub fn dispatch_mouse_click_event(
    handlers: &EventHandlers,
    ws: &mut WindowState,
    window_id: u32,
    pressed: bool,
    button: MouseButton,
    modifiers: ModifiersState,
    nearby: bool,
    now: u64,
) -> (r: Option<HandlerCall>)
    requires
        count_fits(*old(ws), pressed, button, nearby, now),
    ensures
        match handlers.mouse_click_handler {
            Some(cb) if mouse::button_number(button) >= 0 => {
                &&& r == Some(
                    HandlerCall::MouseClick {
                        to: cb,
                        window_id,
                        state: if pressed {
                            LAUFEY_MOUSE_PRESSED
                        } else {
                            LAUFEY_MOUSE_RELEASED
                        },
                        button: mouse::button_number(button),
                        x: old(ws).cursor_position.0,
                        y: old(ws).cursor_position.1,
                        modifiers: modifiers.mask(),
                        click_count: reported_count(*old(ws), pressed, button, nearby, now) as i32,
                    },
                )
                &&& *final(ws) == after_button(*old(ws), pressed, button, nearby, now)
            },
            _ => r is None && *final(ws) == *old(ws),
        },
{
    match handlers.mouse_click_handler {
        Some(cb) => {
            let state: i32 = if pressed {
                LAUFEY_MOUSE_PRESSED
            } else {
                LAUFEY_MOUSE_RELEASED
            };
            let laufey_button: i32 = winit_button_to_laufey(button);
            if laufey_button < 0 {
                return None;
            }
            let (x, y) = ws.cursor_position;
            let mods: u32 = modifiers_to_laufey(modifiers);
            let click_count: i32 = if pressed {
                let count: i32 = next_click_count(
                    ws.last_press_button,
                    nearby,
                    ws.last_press_time,
                    ws.click_count,
                    button,
                    now,
                );
                ws.click_count = count;
                ws.last_press_time = Some(now);
                ws.last_press_button = Some(button);
                ws.last_press_position = Some((x, y));
                count
            } else {
                ws.click_count
            };
            Some(
                HandlerCall::MouseClick {
                    to: cb,
                    window_id,
                    state,
                    button: laufey_button,
                    x,
                    y,
                    modifiers: mods,
                    click_count,
                },
            )
        },
        None => None,
    }
}

/// Tells the mouse-move handler of a cursor position.
pub fn dispatch_mouse_move_event(
    handlers: &EventHandlers,
    window_id: u32,
    x: Float64,
    y: Float64,
    modifiers: ModifiersState,
) -> (r: Option<HandlerCall>)
    ensures
        r == (match handlers.mouse_move_handler {
            Some(cb) => Some(
                HandlerCall::MouseMove { to: cb, window_id, x, y, modifiers: modifiers.mask() },
            ),
            None => None,
        }),
{
    match handlers.mouse_move_handler {
        Some(cb) => Some(
            HandlerCall::MouseMove {
                to: cb,
                window_id,
                x,
                y,
                modifiers: modifiers_to_laufey(modifiers),
            },
        ),
        None => None,
    }
}

/// Tells the wheel handler of a scroll step, in DOM terms and at the cursor's
/// last position.
pub fn dispatch_wheel_event(
    handlers: &EventHandlers,
    ws: &WindowState,
    window_id: u32,
    delta: ScrollDelta,
    modifiers: ModifiersState,
) -> (r: Option<HandlerCall>)
    ensures
        r == (match (handlers.wheel_handler, delta) {
            (Some(cb), ScrollDelta::Line(dx, dy)) => Some(
                HandlerCall::Wheel {
                    to: cb,
                    window_id,
                    delta_x: dx,
                    delta_y: dy.negated(),
                    x: ws.cursor_position.0,
                    y: ws.cursor_position.1,
                    modifiers: modifiers.mask(),
                    delta_mode: LAUFEY_WHEEL_DELTA_LINE,
                },
            ),
            (Some(cb), ScrollDelta::Pixel(dx, dy)) => Some(
                HandlerCall::Wheel {
                    to: cb,
                    window_id,
                    delta_x: dx,
                    delta_y: dy.negated(),
                    x: ws.cursor_position.0,
                    y: ws.cursor_position.1,
                    modifiers: modifiers.mask(),
                    delta_mode: LAUFEY_WHEEL_DELTA_PIXEL,
                },
            ),
            (None, _) => None,
        }),
{
    match handlers.wheel_handler {
        Some(cb) => {
            let (delta_x, delta_y, mode) = winit_scroll_to_dom(delta);
            let (x, y) = ws.cursor_position;
            Some(
                HandlerCall::Wheel {
                    to: cb,
                    window_id,
                    delta_x,
                    delta_y,
                    x,
                    y,
                    modifiers: modifiers_to_laufey(modifiers),
                    delta_mode: mode,
                },
            )
        },
        None => None,
    }
}

/// Tells the enter/leave handler that the cursor entered or left, at its last
/// position.
pub fn dispatch_cursor_enter_leave_event(
    handlers: &EventHandlers,
    ws: &WindowState,
    window_id: u32,
    entered: bool,
    modifiers: ModifiersState,
) -> (r: Option<HandlerCall>)
    ensures
        r == (match handlers.cursor_enter_leave_handler {
            Some(cb) => Some(
                HandlerCall::CursorEnterLeave {
                    to: cb,
                    window_id,
                    entered: if entered {
                        1
                    } else {
                        0
                    },
                    x: ws.cursor_position.0,
                    y: ws.cursor_position.1,
                    modifiers: modifiers.mask(),
                },
            ),
            None => None,
        }),
{
    match handlers.cursor_enter_leave_handler {
        Some(cb) => {
            let (x, y) = ws.cursor_position;
            Some(
                HandlerCall::CursorEnterLeave {
                    to: cb,
                    window_id,
                    entered: if entered {
                        1
                    } else {
                        0
                    },
                    x,
                    y,
                    modifiers: modifiers_to_laufey(modifiers),
                },
            )
        },
        None => None,
    }
}

/// Tells the focus handler that a window gained or lost the focus.
pub fn dispatch_focused_event(handlers: &EventHandlers, window_id: u32, focused: bool) -> (r: Option<
    HandlerCall,
>)
    ensures
        r == (match handlers.focused_handler {
            Some(cb) => Some(
                HandlerCall::Focused {
                    to: cb,
                    window_id,
                    focused: if focused {
                        1
                    } else {
                        0
                    },
                },
            ),
            None => None,
        }),
{
    match handlers.focused_handler {
        Some(cb) => Some(
            HandlerCall::Focused {
                to: cb,
                window_id,
                focused: if focused {
                    1
                } else {
                    0
                },
            },
        ),
        None => None,
    }
}

/// Tells the resize handler of a window's new size.
pub fn dispatch_resize_event(
    handlers: &EventHandlers,
    window_id: u32,
    width: i32,
    height: i32,
) -> (r: Option<HandlerCall>)
    ensures
        r == (match handlers.resize_handler {
            Some(cb) => Some(HandlerCall::Resize { to: cb, window_id, width, height }),
            None => None,
        }),
{
    match handlers.resize_handler {
        Some(cb) => Some(HandlerCall::Resize { to: cb, window_id, width, height }),
        None => None,
    }
}

/// Tells the move handler of a window's new position.
pub fn dispatch_move_event(handlers: &EventHandlers, window_id: u32, x: i32, y: i32) -> (r: Option<
    HandlerCall,
>)
    ensures
        r == (match handlers.move_handler {
            Some(cb) => Some(HandlerCall::Move { to: cb, window_id, x, y }),
            None => None,
        }),
{
    match handlers.move_handler {
        Some(cb) => Some(HandlerCall::Move { to: cb, window_id, x, y }),
        None => None,
    }
}

/// Tells the close-requested handler, if there is one, and says whether the
/// window should go on to close. A handler always holds the window open: the
/// application decides later, by closing it. Without a handler it closes.
pub fn dispatch_close_requested_event(handlers: &EventHandlers, window_id: u32) -> (r: (
    bool,
    Option<HandlerCall>,
))
    ensures
        r == (match handlers.close_requested_handler {
            Some(cb) => (false, Some(HandlerCall::CloseRequested { to: cb, window_id })),
            None => (true, None),
        }),
{
    match handlers.close_requested_handler {
        Some(cb) => (false, Some(HandlerCall::CloseRequested { to: cb, window_id })),
        None => (true, None),
    }
}

} // verus!
