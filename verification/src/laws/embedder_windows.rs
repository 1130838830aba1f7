//! An embedder's windows: each method asks the backend for what it says.

use crate::dialog;
use crate::float::Float64;
use crate::runtime::{BackendCall, HandlerId, Query, Runtime};
use crate::window::{
    context_menu_click_callback, menu_click_callback, reported_pair, Window, WindowOptions,
};
use crate::menu;
use crate::menu::{parse_menu_template, template_values, MenuItem, ParsedMenuItem};
use crate::convert;
use crate::laws::menus::is_entry_of;
use crate::laws::menus;
use vstd::prelude::*;

verus! {

/// One call has been made, and nothing else has happened.
pub open spec fn one_call(before: Runtime, after: Runtime, call: BackendCall) -> bool {
    &&& after == (Runtime { calls: after.calls, ..before })
    &&& after.calls@ =~= before.calls@.push(call)
}

/// One call has been made where the backend has the entry for it, and nothing
/// else has happened.
pub open spec fn asks(before: Runtime, after: Runtime, has_entry: bool, call: BackendCall) -> bool {
    if has_entry {
        one_call(before, after, call)
    } else {
        after == (Runtime { calls: after.calls, ..before }) && after.calls@ =~= before.calls@
    }
}

/// What is asked of a window is asked of the backend, with the window's id and
/// the values that were given, where the backend can be asked for it. The builder
/// forms ask for the same and give the window back.
pub proof fn windows_ask_the_backend(
    rt: &mut Runtime,
    w: Window,
    r: Window,
    a: i32,
    b: i32,
    flag: bool,
    x: Float64,
    y: Float64,
    width: Float64,
    height: Float64,
)
    requires
        old(rt).api is Some,
    ensures
        call_ensures(Window::set_size, (&w, rt, a, b), ()) ==> asks(
            *old(rt),
            *final(rt),
            (old(rt).api->0).set_window_size,
            BackendCall::SetWindowSize { window_id: w.id, width: a, height: b },
        ),
        call_ensures(Window::size, (w, rt, a, b), r) ==> r == w && asks(
            *old(rt),
            *final(rt),
            (old(rt).api->0).set_window_size,
            BackendCall::SetWindowSize { window_id: w.id, width: a, height: b },
        ),
        call_ensures(Window::set_position, (&w, rt, a, b), ()) ==> asks(
            *old(rt),
            *final(rt),
            (old(rt).api->0).set_window_position,
            BackendCall::SetWindowPosition { window_id: w.id, x: a, y: b },
        ),
        call_ensures(Window::position, (w, rt, a, b), r) ==> r == w && asks(
            *old(rt),
            *final(rt),
            (old(rt).api->0).set_window_position,
            BackendCall::SetWindowPosition { window_id: w.id, x: a, y: b },
        ),
        call_ensures(Window::set_resizable, (&w, rt, flag), ()) ==> asks(
            *old(rt),
            *final(rt),
            (old(rt).api->0).set_resizable,
            BackendCall::SetResizable { window_id: w.id, resizable: flag },
        ),
        call_ensures(Window::resizable, (w, rt, flag), r) ==> r == w && asks(
            *old(rt),
            *final(rt),
            (old(rt).api->0).set_resizable,
            BackendCall::SetResizable { window_id: w.id, resizable: flag },
        ),
        call_ensures(Window::set_always_on_top, (&w, rt, flag), ()) ==> asks(
            *old(rt),
            *final(rt),
            (old(rt).api->0).set_always_on_top,
            BackendCall::SetAlwaysOnTop { window_id: w.id, always_on_top: flag },
        ),
        call_ensures(Window::always_on_top, (w, rt, flag), r) ==> r == w && asks(
            *old(rt),
            *final(rt),
            (old(rt).api->0).set_always_on_top,
            BackendCall::SetAlwaysOnTop { window_id: w.id, always_on_top: flag },
        ),
        call_ensures(Window::set_click_passthrough, (&w, rt, flag), ()) ==> asks(
            *old(rt),
            *final(rt),
            (old(rt).api->0).set_click_passthrough,
            BackendCall::SetClickPassthrough { window_id: w.id, passthrough: flag },
        ),
        call_ensures(Window::click_passthrough, (w, rt, flag), r) ==> r == w && asks(
            *old(rt),
            *final(rt),
            (old(rt).api->0).set_click_passthrough,
            BackendCall::SetClickPassthrough { window_id: w.id, passthrough: flag },
        ),
        call_ensures(Window::set_click_passthrough_forward, (&w, rt, flag), ()) ==> asks(
            *old(rt),
            *final(rt),
            (old(rt).api->0).set_click_passthrough_forward,
            BackendCall::SetClickPassthroughForward { window_id: w.id, forward: flag },
        ),
        call_ensures(Window::click_passthrough_forward, (w, rt, flag), r) ==> r == w && asks(
            *old(rt),
            *final(rt),
            (old(rt).api->0).set_click_passthrough_forward,
            BackendCall::SetClickPassthroughForward { window_id: w.id, forward: flag },
        ),
        call_ensures(Window::set_ime_allowed, (&w, rt, flag), ()) ==> asks(
            *old(rt),
            *final(rt),
            (old(rt).api->0).set_ime_allowed,
            BackendCall::SetImeAllowed { window_id: w.id, allowed: flag },
        ),
        call_ensures(Window::set_ime_cursor_area, (&w, rt, x, y, width, height), ()) ==> asks(
            *old(rt),
            *final(rt),
            (old(rt).api->0).set_ime_cursor_area,
            BackendCall::SetImeCursorArea { window_id: w.id, x, y, width, height },
        ),
        call_ensures(Window::show, (&w, rt), ()) ==> asks(
            *old(rt),
            *final(rt),
            (old(rt).api->0).show,
            BackendCall::Show { window_id: w.id },
        ),
        call_ensures(Window::hide_window, (&w, rt), ()) ==> asks(
            *old(rt),
            *final(rt),
            (old(rt).api->0).hide,
            BackendCall::Hide { window_id: w.id },
        ),
        call_ensures(Window::focus, (&w, rt), ()) ==> asks(
            *old(rt),
            *final(rt),
            (old(rt).api->0).focus,
            BackendCall::Focus { window_id: w.id },
        ),
        call_ensures(Window::close, (&w, rt), ()) ==> asks(
            *old(rt),
            *final(rt),
            (old(rt).api->0).close_window,
            BackendCall::CloseWindow { window_id: w.id },
        ),
        call_ensures(Window::open_devtools, (&w, rt), ()) ==> asks(
            *old(rt),
            *final(rt),
            (old(rt).api->0).open_devtools,
            BackendCall::OpenDevtools { window_id: w.id },
        ),
        call_ensures(Window::new, (rt, w.id, a, b), r) ==> r == w && asks(
            *old(rt),
            *final(rt),
            (old(rt).api->0).set_window_size,
            BackendCall::SetWindowSize { window_id: w.id, width: a, height: b },
        ),
        call_ensures(dialog::quit, (rt,), ()) ==> asks(
            *old(rt),
            *final(rt),
            (old(rt).api->0).quit,
            BackendCall::Quit,
        ),
{
}

/// What a window is asked about is asked of the backend, with the window's id.
/// Where the backend cannot say, the window has no extent and lies at the origin,
/// has a scale of one, can be resized, does not stay on top, is opaque, takes
/// clicks, is visible, and has no handle.
pub proof fn windows_are_asked_about(
    rt: Runtime,
    w: Window,
    get_size: Query<(i32, i32)>,
    get_position: Query<(i32, i32)>,
    get_scale_factor: Query<Float64>,
    get_resizable: Query<bool>,
    get_always_on_top: Query<bool>,
    get_opacity: Query<Float64>,
    get_click_passthrough: Query<bool>,
    get_click_passthrough_forward: Query<bool>,
    get_visible: Query<bool>,
    get_window_handle: Query<usize>,
    get_display_handle: Query<usize>,
    get_window_handle_type: Query<i32>,
)
    requires
        rt.api is Some,
        call_ensures(Window::get_size, (&w, &rt), get_size),
        call_ensures(Window::get_position, (&w, &rt), get_position),
        call_ensures(Window::get_scale_factor, (&w, &rt), get_scale_factor),
        call_ensures(Window::get_resizable, (&w, &rt), get_resizable),
        call_ensures(Window::get_always_on_top, (&w, &rt), get_always_on_top),
        call_ensures(Window::get_opacity, (&w, &rt), get_opacity),
        call_ensures(Window::get_click_passthrough, (&w, &rt), get_click_passthrough),
        call_ensures(Window::get_click_passthrough_forward, (&w, &rt), get_click_passthrough_forward),
        call_ensures(Window::get_visible, (&w, &rt), get_visible),
        call_ensures(Window::get_window_handle, (&w, &rt), get_window_handle),
        call_ensures(Window::get_display_handle, (&w, &rt), get_display_handle),
        call_ensures(Window::get_window_handle_type, (&w, &rt), get_window_handle_type),
    ensures
        get_size == (if (rt.api->0).get_window_size {
            Query::Ask(BackendCall::GetWindowSize { window_id: w.id })
        } else {
            Query::Known((0i32, 0i32))
        }),
        get_position == (if (rt.api->0).get_window_position {
            Query::Ask(BackendCall::GetWindowPosition { window_id: w.id })
        } else {
            Query::Known((0i32, 0i32))
        }),
        get_scale_factor == (if (rt.api->0).get_window_scale_factor {
            Query::Ask(BackendCall::GetWindowScaleFactor { window_id: w.id })
        } else {
            Query::Known((Float64 { bits: 0x3ff0_0000_0000_0000 }))
        }),
        get_resizable == (if (rt.api->0).is_resizable {
            Query::Ask(BackendCall::IsResizable { window_id: w.id })
        } else {
            Query::Known(true)
        }),
        get_always_on_top == (if (rt.api->0).is_always_on_top {
            Query::Ask(BackendCall::IsAlwaysOnTop { window_id: w.id })
        } else {
            Query::Known(false)
        }),
        get_opacity == (if (rt.api->0).get_window_opacity {
            Query::Ask(BackendCall::GetWindowOpacity { window_id: w.id })
        } else {
            Query::Known((Float64 { bits: 0x3ff0_0000_0000_0000 }))
        }),
        get_click_passthrough == (if (rt.api->0).is_click_passthrough {
            Query::Ask(BackendCall::IsClickPassthrough { window_id: w.id })
        } else {
            Query::Known(false)
        }),
        get_click_passthrough_forward == (if (rt.api->0).is_click_passthrough_forward {
            Query::Ask(BackendCall::IsClickPassthroughForward { window_id: w.id })
        } else {
            Query::Known(false)
        }),
        get_visible == (if (rt.api->0).is_visible {
            Query::Ask(BackendCall::IsVisible { window_id: w.id })
        } else {
            Query::Known(true)
        }),
        get_window_handle == (if (rt.api->0).get_window_handle {
            Query::Ask(BackendCall::GetWindowHandle { window_id: w.id })
        } else {
            Query::Known(0usize)
        }),
        get_display_handle == (if (rt.api->0).get_display_handle {
            Query::Ask(BackendCall::GetDisplayHandle { window_id: w.id })
        } else {
            Query::Known(0usize)
        }),
        get_window_handle_type == (if (rt.api->0).get_window_handle_type {
            Query::Ask(BackendCall::GetWindowHandleType { window_id: w.id })
        } else {
            Query::Known(0i32)
        }),
{
}

/// An opacity is asked for as it was given if it lies between zero and one, and as
/// the nearer of the two otherwise.
pub proof fn opacity_is_kept_in_range(rt: &mut Runtime, w: Window, r: Window, opacity: Float64)
    requires
        old(rt).api is Some && (old(rt).api->0).set_window_opacity,
        call_ensures(Window::set_opacity, (&w, rt, opacity), ()) || call_ensures(
            Window::opacity,
            (w, rt, opacity),
            r,
        ),
    ensures
        opacity.bits <= 0x3ff0_0000_0000_0000 ==> one_call(
            *old(rt),
            *final(rt),
            BackendCall::SetWindowOpacity { window_id: w.id, opacity },
        ),
        0x3ff0_0000_0000_0000 < opacity.bits <= 0x7ff0_0000_0000_0000 ==> one_call(
            *old(rt),
            *final(rt),
            BackendCall::SetWindowOpacity {
                window_id: w.id,
                opacity: Float64 { bits: 0x3ff0_0000_0000_0000 },
            },
        ),
        0x8000_0000_0000_0000 < opacity.bits <= 0xfff0_0000_0000_0000 ==> one_call(
            *old(rt),
            *final(rt),
            BackendCall::SetWindowOpacity { window_id: w.id, opacity: Float64 { bits: 0 } },
        ),
{
}

/// Titles, addresses and scripts reach the backend as they were given, with the
/// window's id, and a script with the handler that is told its result.
pub proof fn texts_reach_the_backend(
    rt: &mut Runtime,
    w: Window,
    r: Window,
    text: &str,
    callback: Option<HandlerId>,
)
    requires
        old(rt).api is Some,
    ensures
        (old(rt).api->0).set_title && (call_ensures(Window::set_title, (&w, rt, text), ())
            || call_ensures(Window::title, (w, rt, text), r)) ==> {
            &&& *final(rt) == (Runtime { calls: final(rt).calls, ..*old(rt) })
            &&& final(rt).calls@.len() == old(rt).calls@.len() + 1
            &&& final(rt).calls@.drop_last() =~= old(rt).calls@
            &&& final(rt).calls@.last() matches BackendCall::SetTitle { window_id, title }
                && window_id == w.id && title@ == text@
        },
        (old(rt).api->0).navigate && (call_ensures(Window::navigate, (&w, rt, text), ())
            || call_ensures(Window::load, (w, rt, text), r)) ==> {
            &&& *final(rt) == (Runtime { calls: final(rt).calls, ..*old(rt) })
            &&& final(rt).calls@.len() == old(rt).calls@.len() + 1
            &&& final(rt).calls@.drop_last() =~= old(rt).calls@
            &&& final(rt).calls@.last() matches BackendCall::Navigate { window_id, url }
                && window_id == w.id && url@ == text@
        },
        (old(rt).api->0).execute_js && call_ensures(
            Window::execute_js,
            (&w, rt, text, callback),
            (),
        ) ==> {
            &&& *final(rt) == (Runtime { calls: final(rt).calls, ..*old(rt) })
            &&& final(rt).calls@.len() == old(rt).calls@.len() + 1
            &&& final(rt).calls@.drop_last() =~= old(rt).calls@
            &&& final(rt).calls@.last() matches BackendCall::ExecuteJs {
                window_id,
                script,
                callback: cb,
            } && window_id == w.id && script@ == text@ && cb == callback
        },
        !(old(rt).api->0).set_title && call_ensures(Window::set_title, (&w, rt, text), ())
            ==> *final(rt) == *old(rt),
        !(old(rt).api->0).navigate && call_ensures(Window::navigate, (&w, rt, text), ())
            ==> *final(rt) == *old(rt),
        !(old(rt).api->0).execute_js && call_ensures(
            Window::execute_js,
            (&w, rt, text, callback),
            (),
        ) ==> *final(rt) == *old(rt),
{
}

/// A window is created with one flag for each of its options. Without options, or
/// where the backend takes none, a plain window is created; where it creates none,
/// the window has the id 0.
pub proof fn options_become_flags(
    rt: Runtime,
    options: WindowOptions,
    flags: u32,
    r: Query<u32>,
)
    requires
        rt.api is Some,
        call_ensures(WindowOptions::to_flags, (options,), flags),
        call_ensures(Window::new_with_options, (&rt, options), r),
    ensures
        (flags & 1 != 0) == options.frameless,
        (flags & 2 != 0) == options.no_activate,
        (flags & 4 != 0) == options.transparent_titlebar,
        (flags & 8 != 0) == options.hidden,
        (flags & 16 != 0) == options.transparent,
        flags < 32,
        (rt.api->0).create_window_ex && flags != 0 ==> r == Query::<u32>::Ask(
            BackendCall::CreateWindowEx { flags },
        ),
        (rt.api->0).create_window && (flags == 0 || !(rt.api->0).create_window_ex) ==> r == Query::<
            u32,
        >::Ask(BackendCall::CreateWindow),
        !(rt.api->0).create_window && (flags == 0 || !(rt.api->0).create_window_ex) ==> r
            == Query::Known(0u32),
{
    let a: u32 = if options.frameless { 1 } else { 0 };
    let b: u32 = if options.no_activate { 2 } else { 0 };
    let c: u32 = if options.transparent_titlebar { 4 } else { 0 };
    let d: u32 = if options.hidden { 8 } else { 0 };
    let e: u32 = if options.transparent { 16 } else { 0 };
    assert(flags == a | b | c | d | e);
    assert(((a | b | c | d | e) & 1 != 0) == (a == 1) && ((a | b | c | d | e) & 2 != 0) == (b == 2)
        && ((a | b | c | d | e) & 4 != 0) == (c == 4) && ((a | b | c | d | e) & 8 != 0) == (d == 8)
        && ((a | b | c | d | e) & 16 != 0) == (e == 16) && (a | b | c | d | e) < 32) by (bit_vector)
        requires
            a == 0 || a == 1,
            b == 0 || b == 2,
            c == 0 || c == 4,
            d == 0 || d == 8,
            e == 0 || e == 16,
    ;
}

/// A pair of numbers that the backend reports is taken as it is, and as zeros if
/// it reports none.
pub proof fn reported_pairs_are_taken(reply: Option<(i32, i32)>, r: (i32, i32))
    requires
        call_ensures(reported_pair, (reply,), r),
    ensures
        reply matches Some(p) ==> r.0 == p.0 && r.1 == p.1,
        reply is None ==> r == (0i32, 0i32),
{
}

/// A window's menu bar, and a context menu at the place that was asked for, reach
/// the backend as the template that was given; and clicks on their items go to the
/// handler that came with them, each with the id of the item. Other windows' menus
/// keep their handlers.
pub proof fn menus_of_windows_reach_the_backend(
    rt: &mut Runtime,
    w: Window,
    x: i32,
    y: i32,
    template: &[MenuItem],
    on_click: HandlerId,
    parsed: Vec<ParsedMenuItem>,
    context: bool,
    any: u32,
    item: String,
    was: Option<(HandlerId, String)>,
    is: Option<(HandlerId, String)>,
    context_was: Option<(HandlerId, String)>,
    context_is: Option<(HandlerId, String)>,
)
    requires
        old(rt).api matches Some(t) && t.builds_values() && t.set_application_menu
            && t.show_context_menu,
        !context ==> call_ensures(Window::set_menu, (&w, rt, template, on_click), ()),
        context ==> call_ensures(
            Window::show_context_menu,
            (&w, rt, x, y, template, on_click),
            (),
        ),
        call_ensures(menu_click_callback, (&*old(rt), any, Some(item)), was),
        call_ensures(menu_click_callback, (&*final(rt), any, Some(item)), is),
        call_ensures(context_menu_click_callback, (&*old(rt), any, Some(item)), context_was),
        call_ensures(context_menu_click_callback, (&*final(rt), any, Some(item)), context_is),
        final(rt).calls@.last() matches BackendCall::SetApplicationMenu { template: Some(v), .. }
            ==> call_ensures(parse_menu_template, (Some(&*v),), parsed),
        final(rt).calls@.last() matches BackendCall::ShowContextMenu { template: Some(v), .. }
            ==> call_ensures(parse_menu_template, (Some(&*v),), parsed),
    ensures
        final(rt).calls@.len() == old(rt).calls@.len() + 1,
        final(rt).calls@.drop_last() =~= old(rt).calls@,
        !context ==> (final(rt).calls@.last() matches BackendCall::SetApplicationMenu {
            window_id,
            template: Some(_),
        } && window_id == w.id),
        context ==> (final(rt).calls@.last() matches BackendCall::ShowContextMenu {
            window_id,
            x: a,
            y: b,
            template: Some(_),
        } && window_id == w.id && a == x && b == y),
        parsed@.len() == template@.len(),
        forall|i: int| 0 <= i < template@.len() ==> is_entry_of(template@[i], #[trigger] parsed@[i]),
        !context && any == w.id ==> is == Some((on_click, item)),
        context && any == w.id ==> context_is == Some((on_click, item)),
        context || any != w.id ==> is == was,
        !context || any != w.id ==> context_is == context_was,
{
    let t = old(rt).api->0;
    convert::building_is_exact(t, menu::template_value(template@));
    menu::template_reaches_the_backend(t, template@);
    menus::entries_are_read(template@, parsed@);
}

} // verus!
