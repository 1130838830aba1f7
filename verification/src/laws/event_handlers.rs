//! Events: each kind goes to the handler that was registered for it.

use crate::events;
use crate::events::{close_requested_trampoline, event_handler};
use crate::ime;
use crate::runtime::{BackendCall, EventKind, HandlerId, Runtime};
use crate::window::Window;
use vstd::prelude::*;

verus! {

/// Registering a handler for one kind of event of one window: that kind of event
/// of that window goes to it, and every other goes where it went. The backend is
/// told where to send events of the kind the first time, if it can be told.
pub open spec fn is_registered(
    before: Runtime,
    after: Runtime,
    kind: EventKind,
    window_id: u32,
    handler: HandlerId,
    told_before: bool,
    can_be_told: bool,
    any_kind: EventKind,
    any_window: u32,
    was: Option<HandlerId>,
    is: Option<HandlerId>,
) -> bool {
    &&& is == (if any_kind == kind && any_window == window_id {
        Some(handler)
    } else {
        was
    })
    &&& after.calls@ =~= (if !told_before && can_be_told {
        before.calls@.push(BackendCall::SetEventHandler { kind })
    } else {
        before.calls@
    })
    &&& after.api == before.api
}

/// Keys go to the handler that a window registered for them last; all other events
/// go where they went. The backend is told once.
pub proof fn keyboard_event_handlers_are_found(
    first: &mut Runtime,
    rt: &mut Runtime,
    window_id: u32,
    handler: HandlerId,
    earlier: HandlerId,
    any_kind: EventKind,
    any_window: u32,
    was: Option<HandlerId>,
    is: Option<HandlerId>,
    window: Window,
)
    requires
        old(rt).api is Some,
        call_ensures(events::on_keyboard_event, (rt, window_id, handler), ()) || call_ensures(
            Window::on_keyboard_event,
            (Window { id: window_id }, rt, handler),
            window,
        ),
        call_ensures(event_handler, (&*old(rt), any_kind, any_window), was),
        call_ensures(event_handler, (&*final(rt), any_kind, any_window), is),
        *old(rt) == *final(first) && old(first).api == old(rt).api,
    ensures
        is_registered(
            *old(rt),
            *final(rt),
            EventKind::Keyboard,
            window_id,
            handler,
            old(rt).keyboard.registered,
            (old(rt).api->0).set_keyboard_event_handler,
            any_kind,
            any_window,
            was,
            is,
        ),
        call_ensures(events::on_keyboard_event, (first, any_window, earlier), ()) ==> final(rt).calls@ == old(
            rt,
        ).calls@,
{
}

/// Compositions go to the handler that a window registered for them last; all other events
/// go where they went. The backend is told once.
pub proof fn ime_event_handlers_are_found(
    first: &mut Runtime,
    rt: &mut Runtime,
    window_id: u32,
    handler: HandlerId,
    earlier: HandlerId,
    any_kind: EventKind,
    any_window: u32,
    was: Option<HandlerId>,
    is: Option<HandlerId>,
    window: Window,
)
    requires
        old(rt).api is Some,
        call_ensures(ime::on_ime_event, (rt, window_id, handler), ()) || call_ensures(
            Window::on_ime_event,
            (Window { id: window_id }, rt, handler),
            window,
        ),
        call_ensures(event_handler, (&*old(rt), any_kind, any_window), was),
        call_ensures(event_handler, (&*final(rt), any_kind, any_window), is),
        *old(rt) == *final(first) && old(first).api == old(rt).api,
    ensures
        is_registered(
            *old(rt),
            *final(rt),
            EventKind::Ime,
            window_id,
            handler,
            old(rt).ime.registered,
            (old(rt).api->0).set_ime_event_handler,
            any_kind,
            any_window,
            was,
            is,
        ),
        call_ensures(ime::on_ime_event, (first, any_window, earlier), ()) ==> final(rt).calls@ == old(
            rt,
        ).calls@,
{
}

/// Mouse buttons go to the handler that a window registered for them last; all other events
/// go where they went. The backend is told once.
pub proof fn mouse_click_handlers_are_found(
    first: &mut Runtime,
    rt: &mut Runtime,
    window_id: u32,
    handler: HandlerId,
    earlier: HandlerId,
    any_kind: EventKind,
    any_window: u32,
    was: Option<HandlerId>,
    is: Option<HandlerId>,
    window: Window,
)
    requires
        old(rt).api is Some,
        call_ensures(events::on_mouse_click, (rt, window_id, handler), ()) || call_ensures(
            Window::on_mouse_click,
            (Window { id: window_id }, rt, handler),
            window,
        ),
        call_ensures(event_handler, (&*old(rt), any_kind, any_window), was),
        call_ensures(event_handler, (&*final(rt), any_kind, any_window), is),
        *old(rt) == *final(first) && old(first).api == old(rt).api,
    ensures
        is_registered(
            *old(rt),
            *final(rt),
            EventKind::MouseClick,
            window_id,
            handler,
            old(rt).mouse_click.registered,
            (old(rt).api->0).set_mouse_click_handler,
            any_kind,
            any_window,
            was,
            is,
        ),
        call_ensures(events::on_mouse_click, (first, any_window, earlier), ()) ==> final(rt).calls@ == old(
            rt,
        ).calls@,
{
}

/// Mouse moves go to the handler that a window registered for them last; all other events
/// go where they went. The backend is told once.
pub proof fn mouse_move_handlers_are_found(
    first: &mut Runtime,
    rt: &mut Runtime,
    window_id: u32,
    handler: HandlerId,
    earlier: HandlerId,
    any_kind: EventKind,
    any_window: u32,
    was: Option<HandlerId>,
    is: Option<HandlerId>,
    window: Window,
)
    requires
        old(rt).api is Some,
        call_ensures(events::on_mouse_move, (rt, window_id, handler), ()) || call_ensures(
            Window::on_mouse_move,
            (Window { id: window_id }, rt, handler),
            window,
        ),
        call_ensures(event_handler, (&*old(rt), any_kind, any_window), was),
        call_ensures(event_handler, (&*final(rt), any_kind, any_window), is),
        *old(rt) == *final(first) && old(first).api == old(rt).api,
    ensures
        is_registered(
            *old(rt),
            *final(rt),
            EventKind::MouseMove,
            window_id,
            handler,
            old(rt).mouse_move.registered,
            (old(rt).api->0).set_mouse_move_handler,
            any_kind,
            any_window,
            was,
            is,
        ),
        call_ensures(events::on_mouse_move, (first, any_window, earlier), ()) ==> final(rt).calls@ == old(
            rt,
        ).calls@,
{
}

/// Turns of the wheel go to the handler that a window registered for them last; all other events
/// go where they went. The backend is told once.
pub proof fn wheel_handlers_are_found(
    first: &mut Runtime,
    rt: &mut Runtime,
    window_id: u32,
    handler: HandlerId,
    earlier: HandlerId,
    any_kind: EventKind,
    any_window: u32,
    was: Option<HandlerId>,
    is: Option<HandlerId>,
    window: Window,
)
    requires
        old(rt).api is Some,
        call_ensures(events::on_wheel, (rt, window_id, handler), ()) || call_ensures(
            Window::on_wheel,
            (Window { id: window_id }, rt, handler),
            window,
        ),
        call_ensures(event_handler, (&*old(rt), any_kind, any_window), was),
        call_ensures(event_handler, (&*final(rt), any_kind, any_window), is),
        *old(rt) == *final(first) && old(first).api == old(rt).api,
    ensures
        is_registered(
            *old(rt),
            *final(rt),
            EventKind::Wheel,
            window_id,
            handler,
            old(rt).wheel.registered,
            (old(rt).api->0).set_wheel_handler,
            any_kind,
            any_window,
            was,
            is,
        ),
        call_ensures(events::on_wheel, (first, any_window, earlier), ()) ==> final(rt).calls@ == old(
            rt,
        ).calls@,
{
}

/// Entries and exits of the pointer go to the handler that a window registered for them last; all other events
/// go where they went. The backend is told once.
pub proof fn cursor_enter_leave_handlers_are_found(
    first: &mut Runtime,
    rt: &mut Runtime,
    window_id: u32,
    handler: HandlerId,
    earlier: HandlerId,
    any_kind: EventKind,
    any_window: u32,
    was: Option<HandlerId>,
    is: Option<HandlerId>,
    window: Window,
)
    requires
        old(rt).api is Some,
        call_ensures(events::on_cursor_enter_leave, (rt, window_id, handler), ()) || call_ensures(
            Window::on_cursor_enter_leave,
            (Window { id: window_id }, rt, handler),
            window,
        ),
        call_ensures(event_handler, (&*old(rt), any_kind, any_window), was),
        call_ensures(event_handler, (&*final(rt), any_kind, any_window), is),
        *old(rt) == *final(first) && old(first).api == old(rt).api,
    ensures
        is_registered(
            *old(rt),
            *final(rt),
            EventKind::CursorEnterLeave,
            window_id,
            handler,
            old(rt).cursor_enter_leave.registered,
            (old(rt).api->0).set_cursor_enter_leave_handler,
            any_kind,
            any_window,
            was,
            is,
        ),
        call_ensures(events::on_cursor_enter_leave, (first, any_window, earlier), ()) ==> final(rt).calls@ == old(
            rt,
        ).calls@,
{
}

/// Changes of the focus go to the handler that a window registered for them last; all other events
/// go where they went. The backend is told once.
pub proof fn focused_handlers_are_found(
    first: &mut Runtime,
    rt: &mut Runtime,
    window_id: u32,
    handler: HandlerId,
    earlier: HandlerId,
    any_kind: EventKind,
    any_window: u32,
    was: Option<HandlerId>,
    is: Option<HandlerId>,
    window: Window,
)
    requires
        old(rt).api is Some,
        call_ensures(events::on_focused, (rt, window_id, handler), ()) || call_ensures(
            Window::on_focused,
            (Window { id: window_id }, rt, handler),
            window,
        ),
        call_ensures(event_handler, (&*old(rt), any_kind, any_window), was),
        call_ensures(event_handler, (&*final(rt), any_kind, any_window), is),
        *old(rt) == *final(first) && old(first).api == old(rt).api,
    ensures
        is_registered(
            *old(rt),
            *final(rt),
            EventKind::Focused,
            window_id,
            handler,
            old(rt).focused.registered,
            (old(rt).api->0).set_focused_handler,
            any_kind,
            any_window,
            was,
            is,
        ),
        call_ensures(events::on_focused, (first, any_window, earlier), ()) ==> final(rt).calls@ == old(
            rt,
        ).calls@,
{
}

/// Resizes go to the handler that a window registered for them last; all other events
/// go where they went. The backend is told once.
pub proof fn resize_handlers_are_found(
    first: &mut Runtime,
    rt: &mut Runtime,
    window_id: u32,
    handler: HandlerId,
    earlier: HandlerId,
    any_kind: EventKind,
    any_window: u32,
    was: Option<HandlerId>,
    is: Option<HandlerId>,
    window: Window,
)
    requires
        old(rt).api is Some,
        call_ensures(events::on_resize, (rt, window_id, handler), ()) || call_ensures(
            Window::on_resize,
            (Window { id: window_id }, rt, handler),
            window,
        ),
        call_ensures(event_handler, (&*old(rt), any_kind, any_window), was),
        call_ensures(event_handler, (&*final(rt), any_kind, any_window), is),
        *old(rt) == *final(first) && old(first).api == old(rt).api,
    ensures
        is_registered(
            *old(rt),
            *final(rt),
            EventKind::Resize,
            window_id,
            handler,
            old(rt).resize.registered,
            (old(rt).api->0).set_resize_handler,
            any_kind,
            any_window,
            was,
            is,
        ),
        call_ensures(events::on_resize, (first, any_window, earlier), ()) ==> final(rt).calls@ == old(
            rt,
        ).calls@,
{
}

/// Moves go to the handler that a window registered for them last; all other events
/// go where they went. The backend is told once.
pub proof fn move_handlers_are_found(
    first: &mut Runtime,
    rt: &mut Runtime,
    window_id: u32,
    handler: HandlerId,
    earlier: HandlerId,
    any_kind: EventKind,
    any_window: u32,
    was: Option<HandlerId>,
    is: Option<HandlerId>,
    window: Window,
)
    requires
        old(rt).api is Some,
        call_ensures(events::on_move, (rt, window_id, handler), ()) || call_ensures(
            Window::on_move,
            (Window { id: window_id }, rt, handler),
            window,
        ),
        call_ensures(event_handler, (&*old(rt), any_kind, any_window), was),
        call_ensures(event_handler, (&*final(rt), any_kind, any_window), is),
        *old(rt) == *final(first) && old(first).api == old(rt).api,
    ensures
        is_registered(
            *old(rt),
            *final(rt),
            EventKind::Move,
            window_id,
            handler,
            old(rt).moved.registered,
            (old(rt).api->0).set_move_handler,
            any_kind,
            any_window,
            was,
            is,
        ),
        call_ensures(events::on_move, (first, any_window, earlier), ()) ==> final(rt).calls@ == old(
            rt,
        ).calls@,
{
}

/// Close requests go to the handler that a window registered for them last; all other events
/// go where they went. The backend is told once.
pub proof fn close_requested_handlers_are_found(
    first: &mut Runtime,
    rt: &mut Runtime,
    window_id: u32,
    handler: HandlerId,
    earlier: HandlerId,
    any_kind: EventKind,
    any_window: u32,
    was: Option<HandlerId>,
    is: Option<HandlerId>,
    window: Window,
)
    requires
        old(rt).api is Some,
        call_ensures(events::on_close_requested, (rt, window_id, handler), ()) || call_ensures(
            Window::on_close_requested,
            (Window { id: window_id }, rt, handler),
            window,
        ),
        call_ensures(event_handler, (&*old(rt), any_kind, any_window), was),
        call_ensures(event_handler, (&*final(rt), any_kind, any_window), is),
        *old(rt) == *final(first) && old(first).api == old(rt).api,
    ensures
        is_registered(
            *old(rt),
            *final(rt),
            EventKind::CloseRequested,
            window_id,
            handler,
            old(rt).close_requested.registered,
            (old(rt).api->0).set_close_requested_handler,
            any_kind,
            any_window,
            was,
            is,
        ),
        call_ensures(events::on_close_requested, (first, any_window, earlier), ()) ==> final(rt).calls@ == old(
            rt,
        ).calls@,
{
}

/// Page loads go to the handler that a window registered for them last; all other events
/// go where they went. The backend is told once.
pub proof fn page_load_handlers_are_found(
    first: &mut Runtime,
    rt: &mut Runtime,
    window_id: u32,
    handler: HandlerId,
    earlier: HandlerId,
    any_kind: EventKind,
    any_window: u32,
    was: Option<HandlerId>,
    is: Option<HandlerId>,
    window: Window,
)
    requires
        old(rt).api is Some,
        call_ensures(events::on_page_load, (rt, window_id, handler), ()) || call_ensures(
            Window::on_page_load,
            (Window { id: window_id }, rt, handler),
            window,
        ),
        call_ensures(event_handler, (&*old(rt), any_kind, any_window), was),
        call_ensures(event_handler, (&*final(rt), any_kind, any_window), is),
        *old(rt) == *final(first) && old(first).api == old(rt).api,
    ensures
        is_registered(
            *old(rt),
            *final(rt),
            EventKind::PageLoad,
            window_id,
            handler,
            old(rt).page_load.registered,
            (old(rt).api->0).set_page_load_handler,
            any_kind,
            any_window,
            was,
            is,
        ),
        call_ensures(events::on_page_load, (first, any_window, earlier), ()) ==> final(rt).calls@ == old(
            rt,
        ).calls@,
{
}

/// Nothing is registered with a new runtime, whatever the kind of event.
pub proof fn a_new_runtime_has_no_handlers(
    rt: Runtime,
    kind: EventKind,
    window_id: u32,
    r: Option<HandlerId>,
)
    requires
        call_ensures(Runtime::new, (), rt),
        call_ensures(event_handler, (&rt, kind, window_id), r),
    ensures
        r is None,
        rt.calls@.len() == 0,
        rt.api is None,
        !rt.shutdown_requested,
{
}

/// A close request goes to the handler that the window registered, and the window
/// stays. A window without one is closed in its stead; no other window is.
pub proof fn close_requests_are_for_the_window_to_decide(
    registering: &mut Runtime,
    asking: &mut Runtime,
    window_id: u32,
    asked: u32,
    handler: HandlerId,
    r: Option<HandlerId>,
    was: Option<HandlerId>,
)
    requires
        old(registering).api is Some && (old(registering).api->0).close_window,
        call_ensures(events::on_close_requested, (registering, window_id, handler), ()),
        call_ensures(
            event_handler,
            (&*old(registering), EventKind::CloseRequested, asked),
            was,
        ),
        *old(asking) == *final(registering),
        call_ensures(close_requested_trampoline, (asking, asked), r),
    ensures
        asked == window_id ==> r == Some(handler) && final(asking).calls@ == old(asking).calls@,
        asked != window_id && was is Some ==> r == was && final(asking).calls@ == old(asking).calls@,
        asked != window_id && was is None ==> r is None && final(asking).calls@ == old(
            asking,
        ).calls@.push(BackendCall::CloseWindow { window_id: asked }),
{
}

} // verus!
