//! What happens to a native window: who is told, and what is told of it.

use crate::backend::{Backend, CommonEvent, FrameChrome};
use crate::composition;
use crate::composition::{ime_step, Composition, ImeInput};
use crate::dispatch::{HandlerCall, KeyEvent};
use crate::event_loop::{
    settle_creation_geometry, App, EventOutcome, Geometry, LoopAction, WindowEvent,
};
use crate::float::Float64;
use crate::handles::{NativeDisplay, NativeWindow, WindowHandles};
use crate::ime::ImeState;
use crate::keyboard;
use crate::keyboard::{
    modifiers_to_laufey, winit_code_to_string, winit_key_to_string, Key, KeyCode, Modifiers,
    ModifiersKeyState, ModifiersState, NamedKey, PhysicalKey,
};
use crate::modifier_keys::ToldModifiers;
use crate::mouse::{MouseButton, ScrollDelta};
use crate::platform::Platform;
use crate::text;
use crate::window_ops::WindowOp;
use crate::window_state::Callback;
use vstd::prelude::*;

verus! {

/// A native window is there, and the backend knows the window that it is of.
pub open spec fn is_open(app: App, state: Backend, winit_id: u64, window_id: u32) -> bool {
    &&& app.winit_to_laufey@.contains_key(winit_id)
    &&& app.winit_to_laufey@[winit_id] == window_id
    &&& app.windows@.contains_key(window_id)
    &&& state.common.windows@.contains_key(window_id)
}

/// Nothing comes of an event but these calls.
pub open spec fn only_calls(outcome: EventOutcome, calls: Seq<HandlerCall>) -> bool {
    outcome.calls@ =~= calls && outcome.closed is None && !outcome.exit
}

/// A move is told to the handler that was registered for moves, with the window
/// and the place, and is what the window's position reads as afterwards. Without
/// a handler nobody is told.
pub proof fn moves_are_told(
    registering: &mut Backend,
    state: &mut Backend,
    app: &mut App,
    handles: &mut WindowHandles,
    winit_id: u64,
    window_id: u32,
    to: Option<Callback>,
    x: i32,
    y: i32,
    inner: (i32, i32),
    chrome: FrameChrome,
    r: EventOutcome,
    position: Option<(i32, i32)>,
    inside: (i32, i32),
)
    requires
        call_ensures(Backend::backend_set_move_handler, (registering, to), ()),
        *old(state) == *final(registering),
        is_open(*old(app), *old(state), winit_id, window_id),
        call_ensures(
            App::window_event,
            (app, state, handles, winit_id, WindowEvent::Moved { x, y, inner: Some(inner) }),
            r,
        ),
        call_ensures(Backend::backend_get_window_position, (&*final(state), window_id), position),
        call_ensures(
            Backend::backend_get_window_inner_position,
            (&*final(state), window_id, chrome),
            inside,
        ),
    ensures
        only_calls(
            r,
            match to {
                Some(to) => seq![HandlerCall::Move { to, window_id, x, y }],
                None => seq![],
            },
        ),
        position == Some((x, y)),
        inside == inner,
{
}

/// A resize is told to the handler that was registered for resizes, with the
/// window, the width and the height, once the loop has been idle since the window
/// was created and where the size is a new one; the window's size reads as the new
/// one in any case.
pub proof fn resizes_are_told(
    registering: &mut Backend,
    settling: &mut Backend,
    state: &mut Backend,
    app: &mut App,
    handles: &mut WindowHandles,
    winit_id: u64,
    window_id: u32,
    to: Option<Callback>,
    width: i32,
    height: i32,
    geometry: Geometry,
    first: bool,
    r: EventOutcome,
    before: Option<(i32, i32)>,
    size: Option<(i32, i32)>,
)
    requires
        call_ensures(Backend::backend_set_resize_handler, (registering, to), ()),
        *old(settling) == *final(registering),
        call_ensures(settle_creation_geometry, (settling, window_id, geometry), first),
        *old(state) == *final(settling),
        is_open(*old(app), *old(state), winit_id, window_id),
        call_ensures(
            App::window_event,
            (app, state, handles, winit_id, WindowEvent::Resized { width, height }),
            r,
        ),
        before == old(state).common.windows@[window_id].current_size,
        call_ensures(Backend::backend_get_window_size, (&*final(state), window_id), size),
    ensures
        to is None || before == Some((width, height)) ==> only_calls(r, seq![]),
        to is Some && before != Some((width, height)) ==> only_calls(
            r,
            seq![HandlerCall::Resize { to: to->0, window_id, width, height }],
        ),
        size == Some((width, height)),
{
}

/// A window that gains or loses the focus tells the handler that was registered
/// for that: one for gained, zero for lost. The window that gained it has it.
pub proof fn focus_is_told(
    registering: &mut Backend,
    state: &mut Backend,
    app: &mut App,
    handles: &mut WindowHandles,
    winit_id: u64,
    window_id: u32,
    to: Option<Callback>,
    focused: bool,
    r: EventOutcome,
    target: Option<u32>,
)
    requires
        call_ensures(Backend::backend_set_focused_handler, (registering, to), ()),
        *old(state) == *final(registering),
        is_open(*old(app), *old(state), winit_id, window_id),
        call_ensures(
            App::window_event,
            (app, state, handles, winit_id, WindowEvent::Focused(focused)),
            r,
        ),
        call_ensures(App::focused_window, (&*final(app),), target),
    ensures
        to is Some && focused ==> only_calls(
            r,
            seq![HandlerCall::Focused { to: to->0, window_id, focused: 1 }],
        ),
        to is Some && !focused ==> only_calls(
            r,
            seq![HandlerCall::Focused { to: to->0, window_id, focused: 0 }],
        ),
        to is None ==> only_calls(r, seq![]),
        focused ==> target == Some(window_id),
        !focused && old(app).focused_laufey_id != Some(window_id) ==> final(app).focused_laufey_id
            == old(app).focused_laufey_id,
        !focused && old(app).focused_laufey_id == Some(window_id) ==> final(app).focused_laufey_id
            is None,
{
}

/// A request to close a window is for the handler that was registered for that to
/// decide, and the window stays. Without a handler the window is let go of, and
/// the loop ends with the last one.
pub proof fn close_requests_are_told_or_close(
    registering: &mut Backend,
    state: &mut Backend,
    app: &mut App,
    handles: &mut WindowHandles,
    winit_id: u64,
    window_id: u32,
    other: u32,
    to: Option<Callback>,
    r: EventOutcome,
)
    requires
        call_ensures(Backend::backend_set_close_requested_handler, (registering, to), ()),
        *old(state) == *final(registering),
        is_open(*old(app), *old(state), winit_id, window_id),
        call_ensures(
            App::window_event,
            (app, state, handles, winit_id, WindowEvent::CloseRequested),
            r,
        ),
    ensures
        to matches Some(cb) ==> {
            &&& only_calls(r, seq![HandlerCall::CloseRequested { to: cb, window_id }])
            &&& final(app).windows@.contains_key(window_id)
            &&& *final(state) == *old(state)
        },
        to is None ==> {
            &&& r.calls@.len() == 0 && r.closed == Some(window_id)
            &&& !final(app).windows@.contains_key(window_id)
            &&& !final(state).common.windows@.contains_key(window_id)
            &&& r.exit <==> forall|id: u32| !#[trigger] final(app).windows@.contains_key(id)
            &&& forall|native: u64|
                native != old(app).windows@[window_id].winit_id ==> (#[trigger] final(app).winit_to_laufey@.contains_key(native) == old(app).winit_to_laufey@.contains_key(
                    native,
                ))
        },
        other != window_id ==> {
            &&& final(app).windows@.contains_key(other) == old(app).windows@.contains_key(other)
            &&& final(state).common.windows@.contains_key(other)
                == old(state).common.windows@.contains_key(other)
            &&& old(state).common.windows@.contains_key(other)
                ==> final(state).common.windows@[other] == old(state).common.windows@[other]
        },
{
    if to is None {
        let dom = final(app).windows@.dom();
        if forall|id: u32| !#[trigger] final(app).windows@.contains_key(id) {
            assert(dom =~= Set::empty());
        }
        if r.exit {
            assert forall|id: u32| !#[trigger] final(app).windows@.contains_key(id) by {
                assert(!dom.contains(id));
            }
        }
    }
}

/// A pointer that moves tells the handler that was registered for mouse moves,
/// with the window, the place and the modifiers, and the place is where the
/// pointer then is.
pub proof fn mouse_moves_are_told(
    registering: &mut Backend,
    state: &mut Backend,
    app: &mut App,
    handles: &mut WindowHandles,
    winit_id: u64,
    window_id: u32,
    to: Option<Callback>,
    x: Float64,
    y: Float64,
    mask: u32,
    r: EventOutcome,
)
    requires
        call_ensures(Backend::backend_set_mouse_move_handler, (registering, to), ()),
        *old(state) == *final(registering),
        is_open(*old(app), *old(state), winit_id, window_id),
        old(state).common.handlers.cursor_enter_leave_handler is None
            || !old(state).common.windows@[window_id].pending_enter,
        call_ensures(
            App::window_event,
            (app, state, handles, winit_id, WindowEvent::CursorMoved { x, y }),
            r,
        ),
        call_ensures(modifiers_to_laufey, (old(app).windows@[window_id].modifiers.state,), mask),
    ensures
        to matches Some(cb) ==> only_calls(
            r,
            seq![HandlerCall::MouseMove { to: cb, window_id, x, y, modifiers: mask }],
        ),
        to is None ==> only_calls(r, seq![]),
        final(state).common.windows@[window_id].cursor_position == (x, y),
{
}

/// A pointer that enters a window and then moves in it tells the handler that was
/// registered for entering and leaving, once, at the place of that move; and when
/// it leaves, at the last place that it was seen at.
pub proof fn entering_and_leaving_are_told(
    registering: &mut Backend,
    leaving: &mut Backend,
    entering: &mut Backend,
    moving: &mut Backend,
    leaving_again: &mut Backend,
    app0: &mut App,
    app1: &mut App,
    app2: &mut App,
    app3: &mut App,
    handles0: &mut WindowHandles,
    handles1: &mut WindowHandles,
    handles2: &mut WindowHandles,
    handles3: &mut WindowHandles,
    winit_id: u64,
    window_id: u32,
    to: Callback,
    x: Float64,
    y: Float64,
    mask: u32,
    left: EventOutcome,
    entered: EventOutcome,
    moved: EventOutcome,
    left_again: EventOutcome,
)
    requires
        call_ensures(Backend::backend_set_cursor_enter_leave_handler, (registering, Some(to)), ()),
        old(registering).common.handlers.mouse_move_handler is None,
        *old(leaving) == *final(registering),
        is_open(*old(app0), *old(leaving), winit_id, window_id),
        call_ensures(
            App::window_event,
            (app0, leaving, handles0, winit_id, WindowEvent::CursorLeft),
            left,
        ),
        *old(entering) == *final(leaving) && *old(app1) == *final(app0),
        call_ensures(
            App::window_event,
            (app1, entering, handles1, winit_id, WindowEvent::CursorEntered),
            entered,
        ),
        *old(moving) == *final(entering) && *old(app2) == *final(app1),
        call_ensures(
            App::window_event,
            (app2, moving, handles2, winit_id, WindowEvent::CursorMoved { x, y }),
            moved,
        ),
        *old(leaving_again) == *final(moving) && *old(app3) == *final(app2),
        call_ensures(
            App::window_event,
            (app3, leaving_again, handles3, winit_id, WindowEvent::CursorLeft),
            left_again,
        ),
        call_ensures(modifiers_to_laufey, (old(app0).windows@[window_id].modifiers.state,), mask),
    ensures
        only_calls(entered, seq![]),
        only_calls(
            moved,
            seq![
                HandlerCall::CursorEnterLeave {
                    to,
                    window_id,
                    entered: 1,
                    x,
                    y,
                    modifiers: mask,
                },
            ],
        ),
        only_calls(
            left_again,
            seq![
                HandlerCall::CursorEnterLeave {
                    to,
                    window_id,
                    entered: 0,
                    x,
                    y,
                    modifiers: mask,
                },
            ],
        ),
{
}

/// A button tells the handler that was registered for clicks: zero for a press,
/// one for a release, with the number of the button and the place that the
/// pointer is at. A release has the count of the press before it.
pub proof fn clicks_are_told(
    registering: &mut Backend,
    moving: &mut Backend,
    pressing: &mut Backend,
    releasing: &mut Backend,
    app0: &mut App,
    app1: &mut App,
    app2: &mut App,
    handles0: &mut WindowHandles,
    handles1: &mut WindowHandles,
    handles2: &mut WindowHandles,
    winit_id: u64,
    window_id: u32,
    to: Callback,
    x: Float64,
    y: Float64,
    button: MouseButton,
    number: i32,
    nearby: bool,
    now: u64,
    later: u64,
    mask: u32,
    moved: EventOutcome,
    pressed: EventOutcome,
    released: EventOutcome,
)
    requires
        call_ensures(Backend::backend_set_mouse_click_handler, (registering, Some(to)), ()),
        *old(moving) == *final(registering),
        is_open(*old(app0), *old(moving), winit_id, window_id),
        call_ensures(
            App::window_event,
            (app0, moving, handles0, winit_id, WindowEvent::CursorMoved { x, y }),
            moved,
        ),
        *old(pressing) == *final(moving) && *old(app1) == *final(app0),
        call_ensures(
            App::window_event,
            (
                app1,
                pressing,
                handles1,
                winit_id,
                WindowEvent::MouseInput { pressed: true, button, pointer: None, nearby, now },
            ),
            pressed,
        ),
        *old(releasing) == *final(pressing) && *old(app2) == *final(app1),
        call_ensures(
            App::window_event,
            (
                app2,
                releasing,
                handles2,
                winit_id,
                WindowEvent::MouseInput {
                    pressed: false,
                    button,
                    pointer: None,
                    nearby,
                    now: later,
                },
            ),
            released,
        ),
        call_ensures(modifiers_to_laufey, (old(app0).windows@[window_id].modifiers.state,), mask),
        button == MouseButton::Left && number == 0 || button == MouseButton::Right && number == 1
            || button == MouseButton::Middle && number == 2 || button == MouseButton::Back && number
            == 3 || button == MouseButton::Forward && number == 4,
    ensures
        pressed.calls@.len() == 1 && released.calls@.len() == 1,
        ({
            let count = final(pressing).common.windows@[window_id].click_count;
            &&& pressed.calls@[0] == (HandlerCall::MouseClick {
                to,
                window_id,
                state: 0,
                button: number,
                x,
                y,
                modifiers: mask,
                click_count: count,
            })
            &&& released.calls@[0] == (HandlerCall::MouseClick {
                to,
                window_id,
                state: 1,
                button: number,
                x,
                y,
                modifiers: mask,
                click_count: count,
            })
        }),
{
}

/// The count that a press is told with goes up by one for each press of the same
/// button that comes nearby within half a second of the last, and starts over at
/// one where the button is another, the place is another, or time has passed.
pub proof fn presses_are_counted(
    first: &mut Backend,
    second: &mut Backend,
    app0: &mut App,
    app1: &mut App,
    handles0: &mut WindowHandles,
    handles1: &mut WindowHandles,
    winit_id: u64,
    window_id: u32,
    a: MouseButton,
    b: MouseButton,
    nearby0: bool,
    nearby: bool,
    pointer0: Option<(Float64, Float64)>,
    pointer: Option<(Float64, Float64)>,
    now: u64,
    later: u64,
    r0: EventOutcome,
    r1: EventOutcome,
)
    requires
        is_open(*old(app0), *old(first), winit_id, window_id),
        old(first).common.handlers.mouse_click_handler is Some,
        !(a is Other) && !(b is Other),
        old(first).common.windows@[window_id].click_count < i32::MAX - 1,
        call_ensures(
            App::window_event,
            (
                app0,
                first,
                handles0,
                winit_id,
                WindowEvent::MouseInput {
                    pressed: true,
                    button: a,
                    pointer: pointer0,
                    nearby: nearby0,
                    now,
                },
            ),
            r0,
        ),
        *old(second) == *final(first) && *old(app1) == *final(app0),
        call_ensures(
            App::window_event,
            (
                app1,
                second,
                handles1,
                winit_id,
                WindowEvent::MouseInput { pressed: true, button: b, pointer, nearby, now: later },
            ),
            r1,
        ),
    ensures
        r0.calls@.len() == 1 && r0.calls@[0] is MouseClick,
        r1.calls@.len() == 1 && r1.calls@[0] is MouseClick,
        a == b && nearby && now <= later < now + 500_000_000 ==> r1.calls@[0]->click_count
            == r0.calls@[0]->click_count + 1,
        a != b || !nearby || later >= now + 500_000_000 ==> r1.calls@[0]->click_count == 1,
        pointer matches Some(at) ==> r1.calls@[0]->MouseClick_x == at.0
            && r1.calls@[0]->MouseClick_y == at.1
            && final(second).common.windows@[window_id].cursor_position == at,
        ({
            let ws = final(second).common.windows@[window_id];
            &&& ws.last_press_position == Some(ws.cursor_position)
            &&& ws.last_press_button == Some(b) && ws.last_press_time == Some(later)
        }),
{
}

/// A wheel tells the handler that was registered for it: the distance across as
/// it is, the distance down with its sign flipped, whether these are lines, and
/// where the pointer is.
pub proof fn scrolling_is_told(
    registering: &mut Backend,
    moving: &mut Backend,
    scrolling: &mut Backend,
    app0: &mut App,
    app1: &mut App,
    handles0: &mut WindowHandles,
    handles1: &mut WindowHandles,
    winit_id: u64,
    window_id: u32,
    to: Option<Callback>,
    x: Float64,
    y: Float64,
    dx: Float64,
    dy: Float64,
    flipped: Float64,
    lines: bool,
    mask: u32,
    moved: EventOutcome,
    r: EventOutcome,
)
    requires
        call_ensures(Backend::backend_set_wheel_handler, (registering, to), ()),
        *old(moving) == *final(registering),
        is_open(*old(app0), *old(moving), winit_id, window_id),
        call_ensures(
            App::window_event,
            (app0, moving, handles0, winit_id, WindowEvent::CursorMoved { x, y }),
            moved,
        ),
        *old(scrolling) == *final(moving) && *old(app1) == *final(app0),
        call_ensures(
            App::window_event,
            (
                app1,
                scrolling,
                handles1,
                winit_id,
                WindowEvent::MouseWheel {
                    delta: if lines {
                        ScrollDelta::Line(dx, dy)
                    } else {
                        ScrollDelta::Pixel(dx, dy)
                    },
                },
            ),
            r,
        ),
        flipped.bits as int == dy.bits + 0x8000_0000_0000_0000int || flipped.bits as int == dy.bits
            - 0x8000_0000_0000_0000int,
        call_ensures(modifiers_to_laufey, (old(app0).windows@[window_id].modifiers.state,), mask),
    ensures
        to matches Some(cb) ==> only_calls(
            r,
            seq![
                HandlerCall::Wheel {
                    to: cb,
                    window_id,
                    delta_x: dx,
                    delta_y: flipped,
                    x,
                    y,
                    modifiers: mask,
                    delta_mode: if lines {
                        1
                    } else {
                        0
                    },
                },
            ],
        ),
        to is None ==> only_calls(r, seq![]),
{
}

/// A key that is no modifier tells the handler that was registered for keys: zero
/// for a press, one for a release, with its W3C key and code, the modifiers, and
/// whether it repeats. So does a modifier key that no report has told.
pub proof fn keys_are_told(
    registering: &mut Backend,
    state: &mut Backend,
    app: &mut App,
    handles: &mut WindowHandles,
    winit_id: u64,
    window_id: u32,
    to: Option<Callback>,
    key: KeyEvent,
    name: String,
    code: String,
    mask: u32,
    r: EventOutcome,
)
    requires
        call_ensures(Backend::backend_set_keyboard_event_handler, (registering, to), ()),
        *old(state) == *final(registering),
        is_open(*old(app), *old(state), winit_id, window_id),
        key.logical_key is Character || key.logical_key == Key::Named(NamedKey::Space)
            || key.logical_key is Dead || key.repeat,
        call_ensures(
            App::window_event,
            (app, state, handles, winit_id, WindowEvent::KeyboardInput(key)),
            r,
        ),
        call_ensures(winit_key_to_string, (&key.logical_key,), name),
        call_ensures(winit_code_to_string, (&key.physical_key,), code),
        text::nul_free(name@) && text::nul_free(code@),
        call_ensures(modifiers_to_laufey, (old(app).windows@[window_id].modifiers.state,), mask),
    ensures
        r.closed is None && !r.exit,
        to is None ==> r.calls@.len() == 0,
        to matches Some(cb) ==> {
            &&& r.calls@.len() == 1
            &&& r.calls@[0] matches HandlerCall::Keyboard {
                to: t,
                window_id: id,
                state: s,
                key: k,
                code: c,
                modifiers: m,
                repeat: again,
            }
            &&& t == cb && id == window_id && k@ == name@ && c@ == code@ && m == mask && again
                == key.repeat
            &&& key.pressed ==> s == 0
            &&& !key.pressed ==> s == 1
        },
{
}

/// The text of a composition tells the handler that was registered for that: zero
/// for the start, one for an update and two for the end, in this order.
pub proof fn compositions_are_told(
    registering: &mut Backend,
    composing: &mut Backend,
    committing: &mut Backend,
    app0: &mut App,
    app1: &mut App,
    handles0: &mut WindowHandles,
    handles1: &mut WindowHandles,
    winit_id: u64,
    window_id: u32,
    to: Callback,
    composed: String,
    committed: String,
    r0: EventOutcome,
    r1: EventOutcome,
)
    requires
        call_ensures(Backend::backend_set_ime_event_handler, (registering, Some(to)), ()),
        *old(composing) == *final(registering),
        is_open(*old(app0), *old(composing), winit_id, window_id),
        old(composing).common.windows@[window_id].composition == Composition::Idle,
        composed@.len() > 0 && text::nul_free(composed@) && text::nul_free(committed@),
        call_ensures(
            App::window_event,
            (app0, composing, handles0, winit_id, WindowEvent::Ime(ImeInput::Preedit(composed))),
            r0,
        ),
        *old(committing) == *final(composing) && *old(app1) == *final(app0),
        call_ensures(
            App::window_event,
            (app1, committing, handles1, winit_id, WindowEvent::Ime(ImeInput::Commit(committed))),
            r1,
        ),
    ensures
        r0.calls@.len() == 2 && r1.calls@.len() == 1,
        r0.calls@[0] matches HandlerCall::Ime { to: t, window_id: id, state, data } && t == to && id
            == window_id && state == 0 && data@.len() == 0,
        r0.calls@[1] matches HandlerCall::Ime { to: t, window_id: id, state, data } && t == to && id
            == window_id && state == 1 && data@ == composed@,
        r1.calls@[0] matches HandlerCall::Ime { to: t, window_id: id, state, data } && t == to && id
            == window_id && state == 2 && data@ == committed@,
        final(committing).common.windows@[window_id].composition == Composition::Idle,
{
}

/// An event of one window leaves every other window, and who is registered, as
/// they were; one of a native window that is not there changes nothing.
pub proof fn events_are_of_one_window(
    state: &mut Backend,
    app: &mut App,
    handles: &mut WindowHandles,
    winit_id: u64,
    other: u32,
    event: WindowEvent,
    r: EventOutcome,
)
    requires
        call_ensures(App::window_event, (app, state, handles, winit_id, event), r),
    ensures
        final(state).common.handlers == old(state).common.handlers,
        final(state).queue@ == old(state).queue@,
        final(state).next_window_id == old(state).next_window_id,
        final(state).menu_clicks == old(state).menu_clicks,
        !(event is CloseRequested) ==> final(app).winit_to_laufey@ == old(app).winit_to_laufey@,
        r.closed is None ==> final(app).windows@.dom() =~= old(app).windows@.dom()
            && final(state).common.windows@.dom() =~= old(state).common.windows@.dom(),
        !(old(app).winit_to_laufey@.contains_key(winit_id) && old(app).winit_to_laufey@[winit_id]
            == other) ==> {
            &&& final(state).common.windows@.contains_key(other)
                == old(state).common.windows@.contains_key(other)
            &&& old(state).common.windows@.contains_key(other)
                ==> final(state).common.windows@[other] == old(state).common.windows@[other]
            &&& final(app).windows@.contains_key(other) == old(app).windows@.contains_key(other)
            &&& old(app).windows@.contains_key(other) ==> final(app).windows@[other] == old(
                app,
            ).windows@[other]
        },
        !old(app).winit_to_laufey@.contains_key(winit_id) ==> {
            &&& *final(state) == *old(state) && *final(app) == *old(app)
            &&& only_calls(r, seq![])
        },
{
}

/// Quitting ends the loop; a task that was posted is run, with its data; a window
/// that is closed is let go of, and is the only one.
pub proof fn requests_to_the_loop_are_carried_out(
    asking: &mut Backend,
    state: &mut Backend,
    app: &mut App,
    handles: &mut WindowHandles,
    window_id: u32,
    other: u32,
    task: usize,
    data: usize,
    platform: Platform,
    action: LoopAction,
)
    requires
        *old(state) == *final(asking),
        call_ensures(
            App::user_event,
            (app, state, handles, final(asking).queue@.last(), platform),
            action,
        ),
    ensures
        call_ensures(Backend::backend_quit, (asking,), ()) ==> action is Exit && *final(state)
            == *old(state),
        call_ensures(Backend::backend_post_ui_task, (asking, Some(task), data), ()) ==> action == (
        LoopAction::RunTask { task, data }) && *final(state) == *old(state),
        call_ensures(Backend::backend_close_window, (asking, window_id), ()) ==> {
            &&& action matches LoopAction::Closed { window_id: id, exit } && id == window_id
            &&& !final(app).windows@.contains_key(window_id)
            &&& old(app).windows@.contains_key(window_id)
                ==> !final(state).common.windows@.contains_key(window_id)
            &&& other != window_id ==> final(app).windows@.contains_key(other) == old(
                app,
            ).windows@.contains_key(other) && final(state).common.windows@.contains_key(other)
                == old(state).common.windows@.contains_key(other)
        },
{
}

/// The modifiers that were reported last are those that later events are told
/// with, and a scale that was reported is what the window's scale reads as.
pub proof fn modifiers_and_scales_are_noted(
    state: &mut Backend,
    app: &mut App,
    handles: &mut WindowHandles,
    winit_id: u64,
    window_id: u32,
    modifiers: Modifiers,
    scale: Float64,
    inner: (i32, i32),
    chrome: FrameChrome,
    r: EventOutcome,
    read: Float64,
    inside: (i32, i32),
)
    requires
        is_open(*old(app), *old(state), winit_id, window_id),
        call_ensures(
            Backend::backend_get_window_scale_factor,
            (&*final(state), window_id),
            read,
        ),
        call_ensures(
            Backend::backend_get_window_inner_position,
            (&*final(state), window_id, chrome),
            inside,
        ),
        0 < scale.bits <= 0x7ff0_0000_0000_0000,
    ensures
        call_ensures(
            App::window_event,
            (app, state, handles, winit_id, WindowEvent::ModifiersChanged(modifiers)),
            r,
        ) ==> final(app).windows@[window_id].modifiers == modifiers && *final(state) == *old(state),
        call_ensures(
            App::window_event,
            (
                app,
                state,
                handles,
                winit_id,
                WindowEvent::ScaleFactorChanged { scale, inner: Some(inner) },
            ),
            r,
        ) ==> read == scale && inside == inner && only_calls(r, seq![]),
{
}

/// A modifier key that a report tells, since it knows the side, is told as a key
/// event of that key would be: under its W3C key and code, as pressed if it went
/// down and as released if it went up, with the modifiers as they now are.
pub proof fn reported_modifier_keys_are_told(
    state: &mut Backend,
    app: &mut App,
    handles: &mut WindowHandles,
    winit_id: u64,
    window_id: u32,
    to: Callback,
    down: bool,
    right: bool,
    before: Modifiers,
    after: Modifiers,
    name: String,
    code: String,
    mask: u32,
    r: EventOutcome,
)
    requires
        is_open(*old(app), *old(state), winit_id, window_id),
        old(state).common.handlers.keyboard_handler == Some(to),
        old(app).windows@[window_id].told == ToldModifiers::none(),
        old(app).windows@[window_id].modifiers == before,
        ({
            let held = shift_held(right);
            let free = Modifiers::sides_unknown(ModifiersState { bits: 0 });
            before == (if down {
                free
            } else {
                held
            }) && after == (if down {
                held
            } else {
                free
            })
        }),
        call_ensures(
            App::window_event,
            (app, state, handles, winit_id, WindowEvent::ModifiersChanged(after)),
            r,
        ),
        call_ensures(winit_key_to_string, (&Key::Named(NamedKey::Shift),), name),
        call_ensures(
            winit_code_to_string,
            (
                &PhysicalKey::Code(
                    if right {
                        KeyCode::ShiftRight
                    } else {
                        KeyCode::ShiftLeft
                    },
                ),
            ),
            code,
        ),
        text::nul_free(name@) && text::nul_free(code@),
        call_ensures(modifiers_to_laufey, (after.state,), mask),
    ensures
        r.calls@.len() == 1,
        r.calls@[0] matches HandlerCall::Keyboard {
            to: t,
            window_id: id,
            state: s,
            key: k,
            code: c,
            modifiers: m,
            repeat,
        } && t == to && id == window_id && k@ == name@ && c@ == code@ && m == mask && !repeat && s
            == (if down {
            0i32
        } else {
            1i32
        }),
{
    assert(0u32 & 0x4 == 0 && 0u32 & 0x20 == 0 && 0u32 & 0x100 == 0 && 0u32 & 0x800 == 0 && 0x4u32
        & 0x4 != 0 && 0x4u32 & 0x20 == 0 && 0x4u32 & 0x100 == 0 && 0x4u32 & 0x800 == 0)
        by (bit_vector);
    let told = ToldModifiers::none();
    let edges = keyboard::edges_between(before, after);
    let only = (
        down,
        "Shift"@,
        if right {
            "ShiftRight"@
        } else {
            "ShiftLeft"@
        },
    );
    assert(edges =~= seq![only]);
    reveal_with_fuel(ToldModifiers::told_edges, 2);
    assert(edges.drop_last() =~= Seq::empty());
    assert(told.told_between(before, after) =~= seq![only]);
}

/// Shift is active, and the key of the given side is known to be held.
pub open spec fn shift_held(right: bool) -> Modifiers {
    Modifiers {
        lshift: if right {
            ModifiersKeyState::Unknown
        } else {
            ModifiersKeyState::Pressed
        },
        rshift: if right {
            ModifiersKeyState::Pressed
        } else {
            ModifiersKeyState::Unknown
        },
        ..Modifiers::sides_unknown(ModifiersState { bits: 0x4 })
    }
}

/// A button that has no number tells nobody, and breaks no run of presses.
pub proof fn unknown_buttons_are_not_told(
    state: &mut Backend,
    app: &mut App,
    handles: &mut WindowHandles,
    winit_id: u64,
    window_id: u32,
    pressed: bool,
    number: u16,
    nearby: bool,
    now: u64,
    r: EventOutcome,
)
    requires
        is_open(*old(app), *old(state), winit_id, window_id),
        call_ensures(
            App::window_event,
            (
                app,
                state,
                handles,
                winit_id,
                WindowEvent::MouseInput {
                    pressed,
                    button: MouseButton::Other(number),
                    pointer: None,
                    nearby,
                    now,
                },
            ),
            r,
        ),
    ensures
        only_calls(r, seq![]),
        final(state).common.windows@[window_id] == old(state).common.windows@[window_id],
{
}

/// A pointer that has been seen in a window is told to enter it at once, at the
/// place where it was seen last.
pub proof fn a_seen_pointer_enters_at_once(
    registering: &mut Backend,
    moving: &mut Backend,
    entering: &mut Backend,
    app0: &mut App,
    app1: &mut App,
    handles0: &mut WindowHandles,
    handles1: &mut WindowHandles,
    winit_id: u64,
    window_id: u32,
    to: Option<Callback>,
    x: Float64,
    y: Float64,
    mask: u32,
    moved: EventOutcome,
    r: EventOutcome,
)
    requires
        call_ensures(Backend::backend_set_cursor_enter_leave_handler, (registering, to), ()),
        *old(moving) == *final(registering),
        is_open(*old(app0), *old(moving), winit_id, window_id),
        call_ensures(
            App::window_event,
            (app0, moving, handles0, winit_id, WindowEvent::CursorMoved { x, y }),
            moved,
        ),
        *old(entering) == *final(moving) && *old(app1) == *final(app0),
        call_ensures(
            App::window_event,
            (app1, entering, handles1, winit_id, WindowEvent::CursorEntered),
            r,
        ),
        call_ensures(modifiers_to_laufey, (old(app0).windows@[window_id].modifiers.state,), mask),
    ensures
        to matches Some(cb) ==> only_calls(
            r,
            seq![
                HandlerCall::CursorEnterLeave {
                    to: cb,
                    window_id,
                    entered: 1,
                    x,
                    y,
                    modifiers: mask,
                },
            ],
        ),
        to is None ==> only_calls(r, seq![]),
{
}

/// The steps that a report of an input method brings. Text starts a composition
/// or updates the one there is, with that text; committed text ends it, and is a
/// composition of its own where there is none; a composition that is put an end to
/// otherwise ends without text, and so does one whose text was cleared once nothing
/// follows. Nothing else brings a step.
pub proof fn composition_steps_are_these(
    c: &mut Composition,
    input: ImeInput,
    s: String,
    r: Vec<(ImeState, String)>,
)
    requires
        call_ensures(ime_step, (c, input), r),
    ensures
        input == ImeInput::Preedit(s) && s@.len() > 0 && *old(c) is Idle ==> r@.len() == 2 && r@[0].0
            is Start && r@[0].1@.len() == 0 && r@[1].0 is Update && r@[1].1@ == s@ && *final(c)
            is Composing,
        input == ImeInput::Preedit(s) && s@.len() > 0 && !(*old(c) is Idle) ==> r@.len() == 1
            && r@[0].0 is Update && r@[0].1@ == s@ && *final(c) is Composing,
        input == ImeInput::Preedit(s) && s@.len() == 0 ==> r@.len() == 0 && (*old(c) is Idle
            ==> *final(c) is Idle) && (!(*old(c) is Idle) ==> *final(c) is Cleared),
        input == ImeInput::Commit(s) ==> *final(c) is Idle,
        input == ImeInput::Commit(s) && !(*old(c) is Idle) ==> r@.len() == 1 && r@[0].0 is End
            && r@[0].1@ == s@,
        input == ImeInput::Commit(s) && *old(c) is Idle && s@.len() > 0 ==> r@.len() == 3 && r@[0].0
            is Start && r@[0].1@.len() == 0 && r@[1].0 is Update && r@[1].1@ == s@ && r@[2].0 is End
            && r@[2].1@ == s@,
        input == ImeInput::Commit(s) && *old(c) is Idle && s@.len() == 0 ==> r@.len() == 0,
        input is Enabled || input is Disabled ==> *final(c) is Idle,
        (input is Enabled || input is Disabled) && *old(c) is Idle ==> r@.len() == 0,
        (input is Enabled || input is Disabled) && !(*old(c) is Idle) ==> r@.len() == 1 && r@[0].0
            is End && r@[0].1@.len() == 0,
        input is Settled && *old(c) is Cleared ==> r@.len() == 1 && r@[0].0 is End
            && r@[0].1@.len() == 0 && *final(c) is Idle,
        input is Settled && !(*old(c) is Cleared) ==> r@.len() == 0 && *final(c) == *old(c),
{
    let view = composition::steps_view(r@);
    assert(view.len() == r@.len());
    assert(forall|i: int|
        0 <= i < view.len() ==> view[i] == composition::step_view(#[trigger] r@[i]));
}

/// No resize is told while a window is being created, whatever its size.
pub proof fn resizes_of_a_new_window_are_silent(
    creating: &mut Backend,
    taking: &mut Backend,
    state: &mut Backend,
    app0: &mut App,
    app1: &mut App,
    handles0: &mut WindowHandles,
    handles1: &mut WindowHandles,
    flags: u32,
    scale: Option<Float64>,
    id: u32,
    winit_id: u64,
    geometry: Geometry,
    platform: Platform,
    native: Option<NativeWindow>,
    display: Option<NativeDisplay>,
    ops: Vec<WindowOp>,
    width: i32,
    height: i32,
    r: EventOutcome,
)
    requires
        call_ensures(Backend::backend_create_window_ex, (creating, flags, scale), id),
        *old(taking) == *final(creating),
        call_ensures(
            App::create_window,
            (app0, taking, handles0, id, winit_id, geometry, platform, native, display),
            ops,
        ),
        *old(state) == *final(taking) && *old(app1) == *final(app0),
        call_ensures(
            App::window_event,
            (app1, state, handles1, winit_id, WindowEvent::Resized { width, height }),
            r,
        ),
    ensures
        only_calls(r, seq![]),
{
}

/// The window that stands for the focus is the one that has it, if it exists; while
/// none has it, it is one that exists, and none only where there is none.
pub proof fn some_window_stands_for_the_focus(app: App, r: Option<u32>, any: u32)
    requires
        call_ensures(App::focused_window, (&app,), r),
    ensures
        app.focused_laufey_id is Some && app.windows@.contains_key(app.focused_laufey_id->0) ==> r
            == app.focused_laufey_id,
        app.focused_laufey_id is Some && !app.windows@.contains_key(app.focused_laufey_id->0) ==> r
            is None,
        app.focused_laufey_id is None && r is Some ==> app.windows@.contains_key(r->0),
        app.focused_laufey_id is None && app.windows@.contains_key(any) ==> r is Some,
{
}

/// No modifier is active in a native window that was just created, and no modifier
/// key has been told.
pub proof fn new_native_windows_have_no_modifiers(
    app: &mut App,
    taking: &mut Backend,
    handles: &mut WindowHandles,
    id: u32,
    winit_id: u64,
    geometry: Geometry,
    platform: Platform,
    native: Option<NativeWindow>,
    display: Option<NativeDisplay>,
    ops: Vec<WindowOp>,
    other: u32,
    mask: u32,
)
    requires
        call_ensures(
            App::create_window,
            (app, taking, handles, id, winit_id, geometry, platform, native, display),
            ops,
        ),
        call_ensures(modifiers_to_laufey, (final(app).windows@[id].modifiers.state,), mask),
        other != id,
    ensures
        final(app).windows@.contains_key(id) && final(app).windows@[id].winit_id == winit_id,
        mask == 0,
        final(app).windows@[id].told == ToldModifiers::none(),
        final(app).focused_laufey_id == old(app).focused_laufey_id,
        old(app).windows@.contains_key(other) ==> final(app).windows@.contains_key(other)
            && final(app).windows@[other] == old(app).windows@[other],
{
    assert(0u32 & 0x4 == 0 && 0u32 & 0x20 == 0 && 0u32 & 0x100 == 0 && 0u32 & 0x800 == 0
        && 0u32 | 0 | 0 | 0 == 0) by (bit_vector);
}

} // verus!
