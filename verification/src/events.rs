//! Event handlers of windows. The backend knows one callback per kind of event;
//! the runtime finds the window's own handler.

use crate::runtime;
use crate::runtime::{BackendCall, EventKind, EventSlot, HandlerId, Runtime};
use vstd::prelude::*;

verus! {

broadcast use vstd::std_specs::hash::group_hash_axioms;

/// The handlers once a window has registered one: it replaces the window's
/// earlier one.
pub open spec fn handler_added(
    before: EventSlot,
    after: EventSlot,
    window_id: u32,
    handler: HandlerId,
) -> bool {
    after.registered && after.handlers@ == before.handlers@.insert(window_id, handler)
}

/// The calls once a handler of a kind has been registered: the first time, the
/// backend is told where to send events of that kind, if it can be.
pub open spec fn calls_after_registering(rt: Runtime, slot: EventSlot, kind: EventKind) -> Seq<
    BackendCall,
> {
    if !slot.registered && runtime::event_entry(rt.table(), kind) {
        rt.calls@.push(BackendCall::SetEventHandler { kind })
    } else {
        rt.calls@
    }
}

/// Registers a window's handler for keyboard events.
pub fn on_keyboard_event(rt: &mut Runtime, window_id: u32, handler: HandlerId)
    requires
        old(rt).ready() || old(rt).keyboard.registered,
    ensures
        *final(rt) == (Runtime { keyboard: final(rt).keyboard, calls: final(rt).calls, ..*old(rt) }),
        handler_added(old(rt).keyboard, final(rt).keyboard, window_id, handler),
        final(rt).calls@ == calls_after_registering(
            *old(rt),
            old(rt).keyboard,
            EventKind::Keyboard,
        ),
{
    if !rt.keyboard.registered {
        rt.keyboard.registered = true;
        let present = rt.api().set_keyboard_event_handler;
        rt.call_if(present, BackendCall::SetEventHandler { kind: EventKind::Keyboard });
    }
    rt.keyboard.handlers.insert(window_id, handler);
}

/// Registers a window's handler for mouse buttons.
pub fn on_mouse_click(rt: &mut Runtime, window_id: u32, handler: HandlerId)
    requires
        old(rt).ready() || old(rt).mouse_click.registered,
    ensures
        *final(rt) == (Runtime { mouse_click: final(rt).mouse_click, calls: final(rt).calls, ..*old(rt) }),
        handler_added(old(rt).mouse_click, final(rt).mouse_click, window_id, handler),
        final(rt).calls@ == calls_after_registering(
            *old(rt),
            old(rt).mouse_click,
            EventKind::MouseClick,
        ),
{
    if !rt.mouse_click.registered {
        rt.mouse_click.registered = true;
        let present = rt.api().set_mouse_click_handler;
        rt.call_if(present, BackendCall::SetEventHandler { kind: EventKind::MouseClick });
    }
    rt.mouse_click.handlers.insert(window_id, handler);
}

/// Registers a window's handler for mouse moves.
pub fn on_mouse_move(rt: &mut Runtime, window_id: u32, handler: HandlerId)
    requires
        old(rt).ready() || old(rt).mouse_move.registered,
    ensures
        *final(rt) == (Runtime { mouse_move: final(rt).mouse_move, calls: final(rt).calls, ..*old(rt) }),
        handler_added(old(rt).mouse_move, final(rt).mouse_move, window_id, handler),
        final(rt).calls@ == calls_after_registering(
            *old(rt),
            old(rt).mouse_move,
            EventKind::MouseMove,
        ),
{
    if !rt.mouse_move.registered {
        rt.mouse_move.registered = true;
        let present = rt.api().set_mouse_move_handler;
        rt.call_if(present, BackendCall::SetEventHandler { kind: EventKind::MouseMove });
    }
    rt.mouse_move.handlers.insert(window_id, handler);
}

/// Registers a window's handler for scrolling.
pub fn on_wheel(rt: &mut Runtime, window_id: u32, handler: HandlerId)
    requires
        old(rt).ready() || old(rt).wheel.registered,
    ensures
        *final(rt) == (Runtime { wheel: final(rt).wheel, calls: final(rt).calls, ..*old(rt) }),
        handler_added(old(rt).wheel, final(rt).wheel, window_id, handler),
        final(rt).calls@ == calls_after_registering(
            *old(rt),
            old(rt).wheel,
            EventKind::Wheel,
        ),
{
    if !rt.wheel.registered {
        rt.wheel.registered = true;
        let present = rt.api().set_wheel_handler;
        rt.call_if(present, BackendCall::SetEventHandler { kind: EventKind::Wheel });
    }
    rt.wheel.handlers.insert(window_id, handler);
}

/// Registers a window's handler for the cursor entering or leaving.
pub fn on_cursor_enter_leave(rt: &mut Runtime, window_id: u32, handler: HandlerId)
    requires
        old(rt).ready() || old(rt).cursor_enter_leave.registered,
    ensures
        *final(rt) == (Runtime { cursor_enter_leave: final(rt).cursor_enter_leave, calls: final(rt).calls, ..*old(rt) }),
        handler_added(old(rt).cursor_enter_leave, final(rt).cursor_enter_leave, window_id, handler),
        final(rt).calls@ == calls_after_registering(
            *old(rt),
            old(rt).cursor_enter_leave,
            EventKind::CursorEnterLeave,
        ),
{
    if !rt.cursor_enter_leave.registered {
        rt.cursor_enter_leave.registered = true;
        let present = rt.api().set_cursor_enter_leave_handler;
        rt.call_if(present, BackendCall::SetEventHandler { kind: EventKind::CursorEnterLeave });
    }
    rt.cursor_enter_leave.handlers.insert(window_id, handler);
}

/// Registers a window's handler for gaining or losing the focus.
pub fn on_focused(rt: &mut Runtime, window_id: u32, handler: HandlerId)
    requires
        old(rt).ready() || old(rt).focused.registered,
    ensures
        *final(rt) == (Runtime { focused: final(rt).focused, calls: final(rt).calls, ..*old(rt) }),
        handler_added(old(rt).focused, final(rt).focused, window_id, handler),
        final(rt).calls@ == calls_after_registering(
            *old(rt),
            old(rt).focused,
            EventKind::Focused,
        ),
{
    if !rt.focused.registered {
        rt.focused.registered = true;
        let present = rt.api().set_focused_handler;
        rt.call_if(present, BackendCall::SetEventHandler { kind: EventKind::Focused });
    }
    rt.focused.handlers.insert(window_id, handler);
}

/// Registers a window's handler for resizes.
pub fn on_resize(rt: &mut Runtime, window_id: u32, handler: HandlerId)
    requires
        old(rt).ready() || old(rt).resize.registered,
    ensures
        *final(rt) == (Runtime { resize: final(rt).resize, calls: final(rt).calls, ..*old(rt) }),
        handler_added(old(rt).resize, final(rt).resize, window_id, handler),
        final(rt).calls@ == calls_after_registering(
            *old(rt),
            old(rt).resize,
            EventKind::Resize,
        ),
{
    if !rt.resize.registered {
        rt.resize.registered = true;
        let present = rt.api().set_resize_handler;
        rt.call_if(present, BackendCall::SetEventHandler { kind: EventKind::Resize });
    }
    rt.resize.handlers.insert(window_id, handler);
}

/// Registers a window's handler for moves.
pub fn on_move(rt: &mut Runtime, window_id: u32, handler: HandlerId)
    requires
        old(rt).ready() || old(rt).moved.registered,
    ensures
        *final(rt) == (Runtime { moved: final(rt).moved, calls: final(rt).calls, ..*old(rt) }),
        handler_added(old(rt).moved, final(rt).moved, window_id, handler),
        final(rt).calls@ == calls_after_registering(
            *old(rt),
            old(rt).moved,
            EventKind::Move,
        ),
{
    if !rt.moved.registered {
        rt.moved.registered = true;
        let present = rt.api().set_move_handler;
        rt.call_if(present, BackendCall::SetEventHandler { kind: EventKind::Move });
    }
    rt.moved.handlers.insert(window_id, handler);
}

/// Registers a window's handler for close requests, which it then holds open.
pub fn on_close_requested(rt: &mut Runtime, window_id: u32, handler: HandlerId)
    requires
        old(rt).ready() || old(rt).close_requested.registered,
    ensures
        *final(rt) == (Runtime { close_requested: final(rt).close_requested, calls: final(rt).calls, ..*old(rt) }),
        handler_added(old(rt).close_requested, final(rt).close_requested, window_id, handler),
        final(rt).calls@ == calls_after_registering(
            *old(rt),
            old(rt).close_requested,
            EventKind::CloseRequested,
        ),
{
    if !rt.close_requested.registered {
        rt.close_requested.registered = true;
        let present = rt.api().set_close_requested_handler;
        rt.call_if(present, BackendCall::SetEventHandler { kind: EventKind::CloseRequested });
    }
    rt.close_requested.handlers.insert(window_id, handler);
}

/// Registers a window's handler for page loads.
pub fn on_page_load(rt: &mut Runtime, window_id: u32, handler: HandlerId)
    requires
        old(rt).ready() || old(rt).page_load.registered,
    ensures
        *final(rt) == (Runtime { page_load: final(rt).page_load, calls: final(rt).calls, ..*old(rt) }),
        handler_added(old(rt).page_load, final(rt).page_load, window_id, handler),
        final(rt).calls@ == calls_after_registering(
            *old(rt),
            old(rt).page_load,
            EventKind::PageLoad,
        ),
{
    if !rt.page_load.registered {
        rt.page_load.registered = true;
        let present = rt.api().set_page_load_handler;
        rt.call_if(present, BackendCall::SetEventHandler { kind: EventKind::PageLoad });
    }
    rt.page_load.handlers.insert(window_id, handler);
}

/// The handlers of a kind of event.
pub open spec fn slot_of(rt: Runtime, kind: EventKind) -> EventSlot {
    match kind {
        EventKind::Keyboard => rt.keyboard,
        EventKind::Ime => rt.ime,
        EventKind::MouseClick => rt.mouse_click,
        EventKind::MouseMove => rt.mouse_move,
        EventKind::Wheel => rt.wheel,
        EventKind::CursorEnterLeave => rt.cursor_enter_leave,
        EventKind::Focused => rt.focused,
        EventKind::Resize => rt.resize,
        EventKind::Move => rt.moved,
        EventKind::CloseRequested => rt.close_requested,
        EventKind::PageLoad => rt.page_load,
    }
}

/// The handler that an event of a window goes to.
pub fn event_handler(rt: &Runtime, kind: EventKind, window_id: u32) -> (r: Option<HandlerId>)
    ensures
        r == slot_of(*rt, kind).of(window_id),
{
    match kind {
        EventKind::Keyboard => rt.keyboard.handler(window_id),
        EventKind::Ime => rt.ime.handler(window_id),
        EventKind::MouseClick => rt.mouse_click.handler(window_id),
        EventKind::MouseMove => rt.mouse_move.handler(window_id),
        EventKind::Wheel => rt.wheel.handler(window_id),
        EventKind::CursorEnterLeave => rt.cursor_enter_leave.handler(window_id),
        EventKind::Focused => rt.focused.handler(window_id),
        EventKind::Resize => rt.resize.handler(window_id),
        EventKind::Move => rt.moved.handler(window_id),
        EventKind::CloseRequested => rt.close_requested.handler(window_id),
        EventKind::PageLoad => rt.page_load.handler(window_id),
    }
}

/// Takes in a close request. The backend holds every window open once it knows
/// a handler; for a window without a handler of its own, the runtime completes
/// the close on its behalf.
pub fn close_requested_trampoline(rt: &mut Runtime, window_id: u32) -> (r: Option<HandlerId>)
    ensures
        r == old(rt).close_requested.of(window_id),
        final(rt).called(
            *old(rt),
            if r is None && old(rt).ready() && old(rt).table().close_window {
                Some(BackendCall::CloseWindow { window_id })
            } else {
                None
            },
        ),
{
    let handler = rt.close_requested.handler(window_id);
    if handler.is_none() {
        if let Some(api) = rt.api {
            rt.call_if(api.close_window, BackendCall::CloseWindow { window_id });
        }
    }
    handler
}

/// A window's events go to the handler it registered last, and registering one
/// leaves the other windows' handlers alone.
pub proof fn registered_handler_is_found(
    before: EventSlot,
    after: EventSlot,
    window_id: u32,
    handler: HandlerId,
    other: u32,
)
    requires
        handler_added(before, after, window_id, handler),
    ensures
        after.of(window_id) == Some(handler),
        other != window_id ==> after.of(other) == before.of(other),
{
}

} // verus!
