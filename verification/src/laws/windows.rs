//! What is asked of a window: it reads back, and it reaches the native window.

use crate::backend;
use crate::backend::{Backend, CommonEvent, FrameChrome};
use crate::event_loop::{settle_creation_geometry, App, Geometry, LoopAction};
use crate::float::Float64;
use crate::dispatch::HandlerCall;
use crate::handles::{
    backend_get_display_handle, backend_get_window_handle, NativeDisplay, NativeWindow,
    WindowHandles,
};
use crate::platform::Platform;
use crate::window_ops::{handle_common_event, WindowAttributes, WindowOp};
use crate::window_state::{Callback, EventHandlers, ImeCursorArea, WindowState};
use vstd::prelude::*;

verus! {

/// The operation that handling an event for a window comes to is the one, and the
/// event loop is told to carry out the same on the same window.
pub open spec fn comes_to(
    window_id: u32,
    handled: (bool, Option<WindowOp>),
    action: LoopAction,
    op: WindowOp,
) -> bool {
    handled == (true, Some(op)) && action == (LoopAction::Operate { window_id, op: Some(op) })
}

/// What is set on a window is what its native window is asked for when the event
/// that this queues is handled: a size with its width and height, a position with
/// its coordinates, and each setting as it was given. A window that lets clicks
/// through is one that the cursor does not hit.
pub proof fn settings_reach_the_native_window(
    setting: &mut Backend,
    handling: &mut Backend,
    looping: &mut Backend,
    app: &mut App,
    handles: &mut WindowHandles,
    window_id: u32,
    event: CommonEvent,
    platform: Platform,
    handled: (bool, Option<WindowOp>),
    action: LoopAction,
    a: i32,
    b: i32,
    flag: bool,
    title: String,
    area: ImeCursorArea,
)
    requires
        old(setting).common.windows@.contains_key(window_id),
        *old(handling) == *final(setting),
        *old(looping) == *final(setting),
        event == final(setting).queue@.last(),
        call_ensures(handle_common_event, (handling, &event, window_id, platform), handled),
        old(app).windows@.contains_key(window_id),
        call_ensures(App::user_event, (app, looping, handles, event, platform), action),
    ensures
        call_ensures(Backend::backend_set_window_size, (setting, window_id, a, b), ()) ==> comes_to(
            window_id,
            handled,
            action,
            WindowOp::RequestInnerSize { width: a, height: b },
        ),
        call_ensures(Backend::backend_set_window_position, (setting, window_id, a, b), ())
            ==> comes_to(window_id, handled, action, WindowOp::SetOuterPosition { x: a, y: b }),
        call_ensures(Backend::backend_set_resizable, (setting, window_id, flag), ()) ==> comes_to(
            window_id,
            handled,
            action,
            WindowOp::SetResizable(flag),
        ),
        call_ensures(Backend::backend_set_always_on_top, (setting, window_id, flag), ())
            ==> comes_to(
            window_id,
            handled,
            action,
            WindowOp::SetWindowLevel { always_on_top: flag },
        ),
        call_ensures(Backend::backend_set_click_passthrough, (setting, window_id, flag), ())
            ==> comes_to(window_id, handled, action, WindowOp::SetCursorHittest(!flag)),
        call_ensures(Backend::backend_show, (setting, window_id), ()) ==> comes_to(
            window_id,
            handled,
            action,
            WindowOp::SetVisible(true),
        ),
        call_ensures(Backend::backend_hide, (setting, window_id), ()) ==> comes_to(
            window_id,
            handled,
            action,
            WindowOp::SetVisible(false),
        ),
        call_ensures(Backend::backend_focus, (setting, window_id), ()) ==> comes_to(
            window_id,
            handled,
            action,
            WindowOp::FocusWindow,
        ),
        call_ensures(Backend::backend_set_ime_allowed, (setting, window_id, flag), ()) ==> comes_to(
            window_id,
            handled,
            action,
            WindowOp::SetImeAllowed(flag),
        ),
        call_ensures(Backend::backend_set_ime_cursor_area, (setting, window_id, area), ())
            ==> comes_to(window_id, handled, action, WindowOp::SetImeCursorArea(area)),
        call_ensures(Backend::backend_set_title, (setting, window_id, Some(title)), ()) ==> comes_to(
            window_id,
            handled,
            action,
            WindowOp::SetTitle(title),
        ),
{
}

/// An event that sets something on a window is handled by that window alone, and
/// what it sets on a window that does not exist waits.
pub proof fn settings_reach_no_other_window(
    setting: &mut Backend,
    handling: &mut Backend,
    looping: &mut Backend,
    app: &mut App,
    handles: &mut WindowHandles,
    window_id: u32,
    other: u32,
    event: CommonEvent,
    platform: Platform,
    handled: (bool, Option<WindowOp>),
    action: LoopAction,
    a: i32,
    b: i32,
    flag: bool,
    title: Option<String>,
    area: ImeCursorArea,
)
    requires
        other != window_id,
        *old(handling) == *final(setting),
        *old(looping) == *final(setting),
        final(setting).queue@.len() > old(setting).queue@.len(),
        event == final(setting).queue@.last(),
        call_ensures(handle_common_event, (handling, &event, other, platform), handled),
        !old(app).windows@.contains_key(window_id),
        call_ensures(App::user_event, (app, looping, handles, event, platform), action),
        call_ensures(Backend::backend_set_window_size, (setting, window_id, a, b), ())
            || call_ensures(Backend::backend_set_window_position, (setting, window_id, a, b), ())
            || call_ensures(Backend::backend_set_resizable, (setting, window_id, flag), ())
            || call_ensures(Backend::backend_set_always_on_top, (setting, window_id, flag), ())
            || call_ensures(Backend::backend_set_click_passthrough, (setting, window_id, flag), ())
            || call_ensures(Backend::backend_show, (setting, window_id), ())
            || call_ensures(Backend::backend_hide, (setting, window_id), ())
            || call_ensures(Backend::backend_focus, (setting, window_id), ())
            || call_ensures(Backend::backend_set_ime_allowed, (setting, window_id, flag), ())
            || call_ensures(Backend::backend_set_ime_cursor_area, (setting, window_id, area), ())
            || call_ensures(Backend::backend_set_title, (setting, window_id, title), ()),
    ensures
        !handled.0 && handled.1 is None,
        *final(handling) == *old(handling),
        action is Nothing,
        *final(looping) == *old(looping),
        *final(app) == *old(app),
{
}

/// What the getters report of a window.
pub struct Readings {
    pub size: Option<(i32, i32)>,
    pub position: Option<(i32, i32)>,
    pub scale: Float64,
    pub inner: (i32, i32),
    pub resizable: bool,
    pub always_on_top: bool,
    pub click_passthrough: bool,
    pub visible: bool,
}

/// The getters report these of a window, on a platform with the given chrome.
pub open spec fn reads(b: Backend, window_id: u32, chrome: FrameChrome, r: Readings) -> bool {
    &&& call_ensures(Backend::backend_get_window_size, (&b, window_id), r.size)
    &&& call_ensures(Backend::backend_get_window_position, (&b, window_id), r.position)
    &&& call_ensures(Backend::backend_get_window_scale_factor, (&b, window_id), r.scale)
    &&& call_ensures(Backend::backend_get_window_inner_position, (&b, window_id, chrome), r.inner)
    &&& call_ensures(Backend::backend_is_resizable, (&b, window_id), r.resizable)
    &&& call_ensures(Backend::backend_is_always_on_top, (&b, window_id), r.always_on_top)
    &&& call_ensures(Backend::backend_is_click_passthrough, (&b, window_id), r.click_passthrough)
    &&& call_ensures(Backend::backend_is_visible, (&b, window_id), r.visible)
}

/// A size that is set on a window shows until the window has a real one, and
/// changes nothing else that is reported of it or of any other window.
pub proof fn a_size_reads_back(
    setting: &mut Backend,
    window_id: u32,
    other: u32,
    chrome: FrameChrome,
    before: Readings,
    after: Readings,
    elsewhere_before: Readings,
    elsewhere_after: Readings,
    width: i32,
    height: i32,
)
    requires
        old(setting).common.windows@.contains_key(window_id),
        other != window_id,
        reads(*old(setting), window_id, chrome, before),
        reads(*final(setting), window_id, chrome, after),
        reads(*old(setting), other, chrome, elsewhere_before),
        reads(*final(setting), other, chrome, elsewhere_after),
        call_ensures(Backend::backend_set_window_size, (setting, window_id, width, height), ()),
    ensures
        after == (Readings { size: after.size, ..before }),
        after.size == (if old(setting).common.windows@[window_id].current_size is Some {
            before.size
        } else {
            Some((width, height))
        }),
        elsewhere_after == elsewhere_before,
{
}

/// A position that is set on a window is reported, moves the content that has no
/// real place yet by as much, and changes nothing else that is reported of it or
/// of any other window.
pub proof fn a_position_reads_back(
    setting: &mut Backend,
    window_id: u32,
    other: u32,
    chrome: FrameChrome,
    before: Readings,
    after: Readings,
    elsewhere_before: Readings,
    elsewhere_after: Readings,
    x: i32,
    y: i32,
)
    requires
        old(setting).common.windows@.contains_key(window_id),
        other != window_id,
        reads(*old(setting), window_id, chrome, before),
        reads(*final(setting), window_id, chrome, after),
        reads(*old(setting), other, chrome, elsewhere_before),
        reads(*final(setting), other, chrome, elsewhere_after),
        call_ensures(Backend::backend_set_window_position, (setting, window_id, x, y), ()),
    ensures
        after == (Readings { position: Some((x, y)), inner: after.inner, ..before }),
        old(setting).common.windows@[window_id].current_inner_position is Some ==> after.inner
            == before.inner,
        old(setting).common.windows@[window_id].current_inner_position is None && before.position
            is Some ==> after.inner.0 - x == before.inner.0 - (before.position->0).0 && after.inner.1
            - y == before.inner.1 - (before.position->0).1,
        elsewhere_after == elsewhere_before,
{
}

/// Whether a window can be resized reads back as it was set, and setting it changes
/// nothing else that is reported of it or of any other window.
pub proof fn resizable_reads_back(
    setting: &mut Backend,
    window_id: u32,
    other: u32,
    chrome: FrameChrome,
    before: Readings,
    after: Readings,
    elsewhere_before: Readings,
    elsewhere_after: Readings,
    flag: bool,
)
    requires
        old(setting).common.windows@.contains_key(window_id),
        other != window_id,
        reads(*old(setting), window_id, chrome, before),
        reads(*final(setting), window_id, chrome, after),
        reads(*old(setting), other, chrome, elsewhere_before),
        reads(*final(setting), other, chrome, elsewhere_after),
        call_ensures(Backend::backend_set_resizable, (setting, window_id, flag), ()),
    ensures
        after == (Readings { resizable: flag, ..before }),
        elsewhere_after == elsewhere_before,
{
}

/// Whether a window stays on top reads back as it was set, and setting it changes
/// nothing else that is reported of it or of any other window.
pub proof fn always_on_top_reads_back(
    setting: &mut Backend,
    window_id: u32,
    other: u32,
    chrome: FrameChrome,
    before: Readings,
    after: Readings,
    elsewhere_before: Readings,
    elsewhere_after: Readings,
    flag: bool,
)
    requires
        old(setting).common.windows@.contains_key(window_id),
        other != window_id,
        reads(*old(setting), window_id, chrome, before),
        reads(*final(setting), window_id, chrome, after),
        reads(*old(setting), other, chrome, elsewhere_before),
        reads(*final(setting), other, chrome, elsewhere_after),
        call_ensures(Backend::backend_set_always_on_top, (setting, window_id, flag), ()),
    ensures
        after == (Readings { always_on_top: flag, ..before }),
        elsewhere_after == elsewhere_before,
{
}

/// Whether a window lets clicks through reads back as it was set, and setting it changes
/// nothing else that is reported of it or of any other window.
pub proof fn click_passthrough_reads_back(
    setting: &mut Backend,
    window_id: u32,
    other: u32,
    chrome: FrameChrome,
    before: Readings,
    after: Readings,
    elsewhere_before: Readings,
    elsewhere_after: Readings,
    flag: bool,
)
    requires
        old(setting).common.windows@.contains_key(window_id),
        other != window_id,
        reads(*old(setting), window_id, chrome, before),
        reads(*final(setting), window_id, chrome, after),
        reads(*old(setting), other, chrome, elsewhere_before),
        reads(*final(setting), other, chrome, elsewhere_after),
        call_ensures(Backend::backend_set_click_passthrough, (setting, window_id, flag), ()),
    ensures
        after == (Readings { click_passthrough: flag, ..before }),
        elsewhere_after == elsewhere_before,
{
}

/// A window is visible once it is shown, which changes nothing else that is
/// reported of it or of any other window.
pub proof fn showing_reads_back(
    setting: &mut Backend,
    window_id: u32,
    other: u32,
    chrome: FrameChrome,
    before: Readings,
    after: Readings,
    elsewhere_before: Readings,
    elsewhere_after: Readings,
)
    requires
        old(setting).common.windows@.contains_key(window_id),
        other != window_id,
        reads(*old(setting), window_id, chrome, before),
        reads(*final(setting), window_id, chrome, after),
        reads(*old(setting), other, chrome, elsewhere_before),
        reads(*final(setting), other, chrome, elsewhere_after),
        call_ensures(Backend::backend_show, (setting, window_id), ()),
    ensures
        after == (Readings { visible: true, ..before }),
        elsewhere_after == elsewhere_before,
{
    assert(1u32 & 8 == 0) by (bit_vector);
    backend::showing_keeps_the_other_flags(
        old(setting).common.windows@[window_id].pending_flags,
        1,
    );
}

/// A window is not visible once it is hidden, which changes nothing else that is
/// reported of it or of any other window.
pub proof fn hiding_reads_back(
    setting: &mut Backend,
    window_id: u32,
    other: u32,
    chrome: FrameChrome,
    before: Readings,
    after: Readings,
    elsewhere_before: Readings,
    elsewhere_after: Readings,
)
    requires
        old(setting).common.windows@.contains_key(window_id),
        other != window_id,
        reads(*old(setting), window_id, chrome, before),
        reads(*final(setting), window_id, chrome, after),
        reads(*old(setting), other, chrome, elsewhere_before),
        reads(*final(setting), other, chrome, elsewhere_after),
        call_ensures(Backend::backend_hide, (setting, window_id), ()),
    ensures
        after == (Readings { visible: false, ..before }),
        elsewhere_after == elsewhere_before,
{
}

/// Titles and the set-up of an input method are reported by no getter.
pub proof fn titles_and_input_methods_are_not_reported(
    setting: &mut Backend,
    window_id: u32,
    other: u32,
    chrome: FrameChrome,
    before: Readings,
    after: Readings,
    elsewhere_before: Readings,
    elsewhere_after: Readings,
    flag: bool,
    title: Option<String>,
    area: ImeCursorArea,
)
    requires
        old(setting).common.windows@.contains_key(window_id),
        other != window_id,
        reads(*old(setting), window_id, chrome, before),
        reads(*final(setting), window_id, chrome, after),
        reads(*old(setting), other, chrome, elsewhere_before),
        reads(*final(setting), other, chrome, elsewhere_after),
        call_ensures(Backend::backend_set_title, (setting, window_id, title), ()) || call_ensures(
            Backend::backend_set_ime_allowed,
            (setting, window_id, flag),
            (),
        ) || call_ensures(Backend::backend_set_ime_cursor_area, (setting, window_id, area), ()),
    ensures
        after == before,
        elsewhere_after == elsewhere_before,
{
}

/// A new window can be resized, does not stay on top, takes clicks, and has no
/// size or place yet; it is visible unless it was created hidden. A window that
/// nobody knows has no extent, and lies at the origin.
pub proof fn fresh_windows_read_as_defaults(
    creating: &mut Backend,
    unknown: u32,
    chrome: FrameChrome,
    flags: u32,
    scale: Option<Float64>,
    r: u32,
    readings: Readings,
    stray: Readings,
)
    requires
        call_ensures(Backend::backend_create_window_ex, (creating, flags, scale), r)
            || flags == 0 && call_ensures(Backend::backend_create_window, (creating, scale), r),
        reads(*final(creating), r, chrome, readings),
        unknown != r && !old(creating).common.windows@.contains_key(unknown),
        reads(*final(creating), unknown, chrome, stray),
    ensures
        readings.size is None && readings.position is None && readings.inner == (0i32, 0i32),
        readings.resizable && !readings.always_on_top && !readings.click_passthrough,
        readings.visible == (flags & 8 == 0),
        scale matches Some(s) && 0 < s.bits <= 0x7ff0_0000_0000_0000 ==> readings.scale == scale->0,
        !(scale matches Some(s) && 0 < s.bits <= 0x7ff0_0000_0000_0000) ==> readings.scale.bits
            == 0x3ff0_0000_0000_0000,
        stray.size == Some((0i32, 0i32)) && stray.position == Some((0i32, 0i32)),
        stray.inner == (0i32, 0i32) && stray.scale.bits == 0x3ff0_0000_0000_0000,
        stray.resizable && !stray.always_on_top && !stray.click_passthrough && stray.visible,
{
    assert(0u32 & 8 == 0) by (bit_vector);
}

/// Creating a window queues its creation, under an id that the next window does
/// not get; the flags that it was created with, and what was set on it since,
/// shape the native window.
pub proof fn windows_are_created_as_asked(
    creating: &mut Backend,
    setting: &mut Backend,
    looping: &mut Backend,
    app: &mut App,
    handles: &mut WindowHandles,
    flags: u32,
    scale: Option<Float64>,
    r: u32,
    a: i32,
    b: i32,
    flag: bool,
    title: String,
    platform: Platform,
    action: LoopAction,
    attributes: WindowAttributes,
)
    requires
        call_ensures(Backend::backend_create_window_ex, (creating, flags, scale), r),
        *old(setting) == *final(creating),
        *old(looping) == *final(setting),
        call_ensures(
            App::user_event,
            (app, looping, handles, final(creating).queue@.last(), platform),
            action,
        ),
        action matches LoopAction::Create { window_id, attributes: given } ==> given == attributes,
    ensures
        final(creating).queue@ == old(creating).queue@.push(
            CommonEvent::CreateWindow { window_id: r },
        ),
        action == (LoopAction::Create { window_id: r, attributes }),
        *final(setting) == *old(setting) ==> {
            &&& attributes.inner_size is None && attributes.position is None
            &&& attributes.resizable is None && attributes.title is None
            &&& attributes.decorations == (if flags & 1 != 0 {
                Some(false)
            } else {
                None
            })
            &&& attributes.active == (if flags & 2 != 0 {
                Some(false)
            } else {
                None
            })
            &&& attributes.visible == (if flags & 8 != 0 {
                Some(false)
            } else {
                None
            })
            &&& attributes.transparent == (if flags & 16 != 0 {
                Some(true)
            } else {
                None
            })
        },
        call_ensures(Backend::backend_set_window_size, (setting, r, a, b), ())
            ==> attributes.inner_size == Some((a, b)) && attributes.position is None
            && attributes.resizable is None && attributes.title is None,
        call_ensures(Backend::backend_set_window_position, (setting, r, a, b), ())
            ==> attributes.position == Some((a, b)) && attributes.inner_size is None
            && attributes.resizable is None && attributes.title is None,
        call_ensures(Backend::backend_set_resizable, (setting, r, flag), ())
            ==> attributes.resizable == Some(flag) && attributes.inner_size is None
            && attributes.position is None && attributes.title is None,
        call_ensures(Backend::backend_set_title, (setting, r, Some(title)), ())
            ==> attributes.title == Some(title) && attributes.inner_size is None
            && attributes.position is None && attributes.resizable is None,
        call_ensures(Backend::backend_show, (setting, r), ()) ==> attributes.visible is None,
        call_ensures(Backend::backend_focus, (setting, r), ()) ==> attributes.visible is None,
{
}

/// Once the native window exists it is kept on top where that was asked for or
/// where it may not be activated, lets clicks through where that was asked for,
/// and is hidden where it was created hidden; nothing else is done with it.
pub proof fn a_native_window_is_set_up_as_asked(
    creating: &mut Backend,
    setting: &mut Backend,
    taking: &mut Backend,
    app: &mut App,
    handles: &mut WindowHandles,
    flags: u32,
    scale: Option<Float64>,
    r: u32,
    flag: bool,
    winit_id: u64,
    geometry: Geometry,
    platform: Platform,
    native: Option<NativeWindow>,
    display: Option<NativeDisplay>,
    ops: Vec<WindowOp>,
)
    requires
        call_ensures(Backend::backend_create_window_ex, (creating, flags, scale), r),
        *old(setting) == *final(creating),
        *old(taking) == *final(setting),
        call_ensures(
            App::create_window,
            (app, taking, handles, r, winit_id, geometry, platform, native, display),
            ops,
        ),
    ensures
        *final(setting) == *old(setting) ==> {
            &&& ops@.contains(WindowOp::SetWindowLevel { always_on_top: true }) == (flags & 2 != 0)
            &&& !ops@.contains(WindowOp::SetCursorHittest(false))
            &&& ops@.contains(WindowOp::SetVisible(false)) == (flags & 8 != 0)
        },
        call_ensures(Backend::backend_set_always_on_top, (setting, r, flag), ()) ==> {
            &&& ops@.contains(WindowOp::SetWindowLevel { always_on_top: true }) == (flag || flags
                & 2 != 0)
            &&& !ops@.contains(WindowOp::SetCursorHittest(false))
        },
        call_ensures(Backend::backend_set_click_passthrough, (setting, r, flag), ()) ==> {
            &&& ops@.contains(WindowOp::SetCursorHittest(false)) == flag
            &&& ops@.contains(WindowOp::SetWindowLevel { always_on_top: true }) == (flags & 2 != 0)
        },
        *final(setting) == *old(setting) || call_ensures(
            Backend::backend_set_always_on_top,
            (setting, r, flag),
            (),
        ) || call_ensures(Backend::backend_set_click_passthrough, (setting, r, flag), ())
            ==> forall|i: int|
            0 <= i < ops@.len() ==> {
                ||| #[trigger] ops@[i] == (WindowOp::SetWindowLevel { always_on_top: true })
                ||| ops@[i] == WindowOp::SetCursorHittest(false)
                ||| ops@[i] == WindowOp::SetVisible(false)
            },
{
    let level = WindowOp::SetWindowLevel { always_on_top: true };
    let through = WindowOp::SetCursorHittest(false);
    let hidden = WindowOp::SetVisible(false);
    if ops@.len() > 0 {
        assert(ops@.contains(ops@[0]));
    }
    if ops@.len() > 1 {
        assert(ops@.contains(ops@[1]));
    }
    if ops@.len() > 2 {
        assert(ops@.contains(ops@[2]));
    }
    if ops@.len() > 3 {
        assert(ops@.contains(ops@[3]));
    }
}

/// The geometry that a native window turns out to have is what its getters report
/// from then on, and what was asked for before no longer counts.
pub proof fn real_geometry_is_reported(
    taking: &mut Backend,
    app: &mut App,
    handles: &mut WindowHandles,
    window_id: u32,
    winit_id: u64,
    size: (i32, i32),
    scale: Float64,
    inner: (i32, i32),
    platform: Platform,
    native: Option<NativeWindow>,
    display: Option<NativeDisplay>,
    ops: Vec<WindowOp>,
    chrome: FrameChrome,
    before: Readings,
    after: Readings,
)
    requires
        old(taking).common.windows@.contains_key(window_id),
        call_ensures(
            App::create_window,
            (
                app,
                taking,
                handles,
                window_id,
                winit_id,
                Geometry { size: Some(size), scale, inner: Some(inner) },
                platform,
                native,
                display,
            ),
            ops,
        ),
        reads(*old(taking), window_id, chrome, before),
        reads(*final(taking), window_id, chrome, after),
        0 < scale.bits <= 0x7ff0_0000_0000_0000,
    ensures
        after == (Readings { size: Some(size), scale, inner, ..before }),
{
}

/// The content of a window that has no real place yet lies where the window was
/// put, offset by the chrome that the platform reports; a frameless window has no
/// chrome, and macOS reports none that is negative.
pub proof fn content_is_offset_by_the_chrome(
    creating: &mut Backend,
    setting: &mut Backend,
    flags: u32,
    scale: Option<Float64>,
    id: u32,
    x: i32,
    y: i32,
    dx: i32,
    dy: i32,
    chrome: FrameChrome,
    inner: (i32, i32),
)
    requires
        call_ensures(Backend::backend_create_window_ex, (creating, flags, scale), id),
        *old(setting) == *final(creating),
        call_ensures(Backend::backend_set_window_position, (setting, id, x, y), ()),
        call_ensures(
            Backend::backend_get_window_inner_position,
            (&*final(setting), id, chrome),
            inner,
        ),
    ensures
        flags & 1 != 0 || chrome is Unmeasured ==> inner == (x, y),
        flags & 1 == 0 && chrome == (FrameChrome::Windows { dx, dy }) ==> inner.0 == x + dx
            && inner.1 == y + dy,
        flags & 1 == 0 && chrome == (FrameChrome::MacOs { dx, dy }) && dx >= 0 && dy >= 0
            ==> inner.0 == x + dx && inner.1 == y + dy,
        flags & 1 == 0 && chrome == (FrameChrome::MacOs { dx, dy }) && dx < 0 ==> inner.0 == x,
        flags & 1 == 0 && chrome == (FrameChrome::MacOs { dx, dy }) && dy < 0 ==> inner.1 == y,
{
}

/// Nothing that is set on a window that nobody knows changes any window.
pub proof fn unknown_windows_stay_unknown(
    setting: &mut Backend,
    window_id: u32,
    a: i32,
    b: i32,
    flag: bool,
    title: Option<String>,
    area: ImeCursorArea,
)
    requires
        !old(setting).common.windows@.contains_key(window_id),
        call_ensures(Backend::backend_set_window_size, (setting, window_id, a, b), ())
            || call_ensures(Backend::backend_set_window_position, (setting, window_id, a, b), ())
            || call_ensures(Backend::backend_set_resizable, (setting, window_id, flag), ())
            || call_ensures(Backend::backend_set_always_on_top, (setting, window_id, flag), ())
            || call_ensures(Backend::backend_set_click_passthrough, (setting, window_id, flag), ())
            || call_ensures(Backend::backend_show, (setting, window_id), ())
            || call_ensures(Backend::backend_hide, (setting, window_id), ())
            || call_ensures(Backend::backend_focus, (setting, window_id), ())
            || call_ensures(Backend::backend_set_ime_allowed, (setting, window_id, flag), ())
            || call_ensures(Backend::backend_set_ime_cursor_area, (setting, window_id, area), ())
            || call_ensures(Backend::backend_set_title, (setting, window_id, title), ()),
    ensures
        final(setting).common.windows@ =~= old(setting).common.windows@,
        final(setting).common.handlers == old(setting).common.handlers,
        final(setting).next_window_id == old(setting).next_window_id,
{
}

/// A window that was created hidden is shown by the first focus, which is asked
/// for after that; once it has been shown, and for any other window, the focus is
/// all that is asked for.
pub proof fn the_first_focus_shows_a_hidden_window(
    creating: &mut Backend,
    focusing: &mut Backend,
    hiding: &mut Backend,
    again: &mut Backend,
    flags: u32,
    scale: Option<Float64>,
    id: u32,
    visible: bool,
    at_last: bool,
)
    requires
        call_ensures(Backend::backend_create_window_ex, (creating, flags, scale), id),
        *old(focusing) == *final(creating),
        call_ensures(Backend::backend_focus, (focusing, id), ()),
        call_ensures(Backend::backend_is_visible, (&*final(focusing), id), visible),
        *old(hiding) == *final(focusing),
        call_ensures(Backend::backend_hide, (hiding, id), ()),
        *old(again) == *final(hiding),
        call_ensures(Backend::backend_focus, (again, id), ()),
        call_ensures(Backend::backend_is_visible, (&*final(again), id), at_last),
    ensures
        visible,
        flags & 8 != 0 ==> final(focusing).queue@ =~= old(focusing).queue@.push(
            CommonEvent::Show { window_id: id },
        ).push(CommonEvent::Focus { window_id: id }),
        flags & 8 == 0 ==> final(focusing).queue@ =~= old(focusing).queue@.push(
            CommonEvent::Focus { window_id: id },
        ),
        final(again).queue@ =~= old(again).queue@.push(CommonEvent::Focus { window_id: id }),
        !at_last,
{
    assert((flags & !8) & 8 == 0) by (bit_vector);
}

/// A native window is found under its own id, with its handles, from its creation
/// until it is closed.
pub proof fn native_windows_are_found_until_they_close(
    app: &mut App,
    taking: &mut Backend,
    handles: &mut WindowHandles,
    closing: &mut App,
    closing_state: &mut Backend,
    closing_handles: &mut WindowHandles,
    window_id: u32,
    winit_id: u64,
    geometry: Geometry,
    window: usize,
    display: usize,
    ops: Vec<WindowOp>,
    found: Option<u32>,
    handle: usize,
    shown_on: usize,
    action: LoopAction,
    gone: Option<u32>,
    no_handle: usize,
)
    requires
        call_ensures(
            App::create_window,
            (
                app,
                taking,
                handles,
                window_id,
                winit_id,
                geometry,
                Platform::Linux,
                Some(NativeWindow::Xlib { window }),
                Some(NativeDisplay::Xlib { display: Some(display) }),
            ),
            ops,
        ),
        call_ensures(App::laufey_id, (&*final(app), winit_id), found),
        call_ensures(backend_get_window_handle, (&*final(handles), window_id), handle),
        call_ensures(backend_get_display_handle, (&*final(handles), window_id), shown_on),
        *old(closing) == *final(app) && *old(closing_state) == *final(taking)
            && *old(closing_handles) == *final(handles),
        call_ensures(
            App::user_event,
            (
                closing,
                closing_state,
                closing_handles,
                CommonEvent::CloseWindow { window_id },
                Platform::Linux,
            ),
            action,
        ),
        call_ensures(App::laufey_id, (&*final(closing), winit_id), gone),
        call_ensures(backend_get_window_handle, (&*final(closing_handles), window_id), no_handle),
    ensures
        found == Some(window_id),
        handle == window && shown_on == display,
        gone is None,
        no_handle == 0,
{
}

/// A request to close a window that a test makes is told to the handler for it,
/// and else closes the window as any other.
pub proof fn tests_can_ask_to_close(
    registering: &mut Backend,
    asking: &mut Backend,
    to: Option<Callback>,
    window_id: u32,
    r: (bool, Option<HandlerCall>),
)
    requires
        call_ensures(Backend::backend_set_close_requested_handler, (registering, to), ()),
        *old(asking) == *final(registering),
        call_ensures(Backend::backend_test_trigger_close_requested, (asking, window_id), r),
    ensures
        to matches Some(cb) ==> r == (true, Some(HandlerCall::CloseRequested { to: cb, window_id }))
            && *final(asking) == *old(asking),
        to is None ==> r == (false, None::<HandlerCall>) && final(asking).queue@ =~= old(
            asking,
        ).queue@.push(CommonEvent::CloseWindow { window_id }),
{
}

/// Setting anything on a window asks the event loop for one thing more, and leaves
/// the handlers, the ids that are handed out next, the registered menus, and the
/// requests to the dock and the tray as they were.
pub proof fn settings_leave_the_rest_alone(
    setting: &mut Backend,
    window_id: u32,
    a: i32,
    b: i32,
    flag: bool,
    title: String,
    area: ImeCursorArea,
)
    ensures
        ({
            let rest = final(setting).common.handlers == old(setting).common.handlers && final(
                setting).next_window_id == old(setting).next_window_id && final(setting).menu_clicks
                == old(setting).menu_clicks && final(setting).next_tray_id == old(
                setting,
            ).next_tray_id && final(setting).dock_ops == old(setting).dock_ops && final(
                setting).tray_ops == old(setting).tray_ops && final(
                setting).common.windows@.dom() =~= old(setting).common.windows@.dom();
            let asks_for = |e: CommonEvent|
                rest && final(setting).queue@ =~= old(setting).queue@.push(e);
            &&& call_ensures(Backend::backend_set_window_size, (setting, window_id, a, b), ())
                ==> asks_for(CommonEvent::SetWindowSize { window_id })
            &&& call_ensures(Backend::backend_set_window_position, (setting, window_id, a, b), ())
                ==> asks_for(CommonEvent::SetWindowPosition { window_id })
            &&& call_ensures(Backend::backend_set_resizable, (setting, window_id, flag), ())
                ==> asks_for(CommonEvent::SetResizable { window_id })
            &&& call_ensures(Backend::backend_set_always_on_top, (setting, window_id, flag), ())
                ==> asks_for(CommonEvent::SetAlwaysOnTop { window_id })
            &&& call_ensures(
                Backend::backend_set_click_passthrough,
                (setting, window_id, flag),
                (),
            ) ==> asks_for(CommonEvent::SetClickPassthrough { window_id })
            &&& call_ensures(Backend::backend_show, (setting, window_id), ()) ==> asks_for(
                CommonEvent::Show { window_id },
            )
            &&& call_ensures(Backend::backend_hide, (setting, window_id), ()) ==> asks_for(
                CommonEvent::Hide { window_id },
            )
            &&& call_ensures(Backend::backend_set_ime_allowed, (setting, window_id, flag), ())
                ==> asks_for(CommonEvent::SetImeAllowed { window_id })
            &&& call_ensures(Backend::backend_set_ime_cursor_area, (setting, window_id, area), ())
                ==> asks_for(CommonEvent::SetImeCursorArea { window_id })
            &&& call_ensures(Backend::backend_set_title, (setting, window_id, Some(title)), ())
                ==> asks_for(CommonEvent::SetTitle { window_id })
            &&& call_ensures(Backend::backend_set_title, (setting, window_id, None), ())
                ==> *final(setting) == *old(setting)
            &&& call_ensures(Backend::backend_focus, (setting, window_id), ()) ==> rest
        }),
{
}

/// Registering a handler of one kind with the backend changes that one, and
/// nothing else.
pub proof fn handlers_are_registered_one_by_one(b: &mut Backend, to: Option<Callback>)
    ensures
        ({
            let h = old(b).common.handlers;
            let now = |handlers: EventHandlers|
                final(b).common.handlers == handlers && final(b).common.windows == old(
                    b,
                ).common.windows && final(b).queue == old(b).queue && final(b).next_window_id
                    == old(b).next_window_id && final(b).menu_clicks == old(b).menu_clicks;
            &&& call_ensures(Backend::backend_set_keyboard_event_handler, (b, to), ()) ==> now(
                EventHandlers { keyboard_handler: to, ..h },
            )
            &&& call_ensures(Backend::backend_set_mouse_click_handler, (b, to), ()) ==> now(
                EventHandlers { mouse_click_handler: to, ..h },
            )
            &&& call_ensures(Backend::backend_set_mouse_move_handler, (b, to), ()) ==> now(
                EventHandlers { mouse_move_handler: to, ..h },
            )
            &&& call_ensures(Backend::backend_set_wheel_handler, (b, to), ()) ==> now(
                EventHandlers { wheel_handler: to, ..h },
            )
            &&& call_ensures(Backend::backend_set_cursor_enter_leave_handler, (b, to), ()) ==> now(
                EventHandlers { cursor_enter_leave_handler: to, ..h },
            )
            &&& call_ensures(Backend::backend_set_focused_handler, (b, to), ()) ==> now(
                EventHandlers { focused_handler: to, ..h },
            )
            &&& call_ensures(Backend::backend_set_resize_handler, (b, to), ()) ==> now(
                EventHandlers { resize_handler: to, ..h },
            )
            &&& call_ensures(Backend::backend_set_move_handler, (b, to), ()) ==> now(
                EventHandlers { move_handler: to, ..h },
            )
            &&& call_ensures(Backend::backend_set_close_requested_handler, (b, to), ()) ==> now(
                EventHandlers { close_requested_handler: to, ..h },
            )
            &&& call_ensures(Backend::backend_set_ime_event_handler, (b, to), ()) ==> now(
                EventHandlers { ime_handler: to, ..h },
            )
        }),
{
}

/// A new window has nothing behind it: no pointer has been seen, no button has
/// been pressed, no text is being composed, and its resizes are not told yet.
pub proof fn new_windows_start_afresh(
    creating: &mut Backend,
    flags: u32,
    scale: Option<Float64>,
    id: u32,
)
    requires
        call_ensures(Backend::backend_create_window_ex, (creating, flags, scale), id)
            || call_ensures(Backend::backend_create_window, (creating, scale), id),
    ensures
        id == old(creating).next_window_id,
        ({
            let ws = final(creating).common.windows@[id];
            &&& !ws.cursor_seen && !ws.pending_enter
            &&& ws.last_press_time is None && ws.last_press_button is None && ws.last_press_position
                is None && ws.click_count == 0
            &&& ws.composition is Idle && ws.pending_ime_allowed is None
                && ws.pending_ime_cursor_area is None
            &&& !ws.resize_reporting_armed
            &&& ws.pending_title is None && ws.pending_app_menu is None && ws.pending_context_menu
                is None
        }),
{
}

/// Once the loop first goes idle, the geometry that a window then has is what its
/// getters report; this happens once.
pub proof fn geometry_settles_once(
    settling: &mut Backend,
    again: &mut Backend,
    window_id: u32,
    size: (i32, i32),
    scale: Float64,
    inner: (i32, i32),
    later: Geometry,
    chrome: FrameChrome,
    first: bool,
    second: bool,
    after: Readings,
    at_last: Readings,
)
    requires
        old(settling).common.windows@.contains_key(window_id),
        !old(settling).common.windows@[window_id].resize_reporting_armed,
        call_ensures(
            settle_creation_geometry,
            (settling, window_id, Geometry { size: Some(size), scale, inner: Some(inner) }),
            first,
        ),
        *old(again) == *final(settling),
        call_ensures(settle_creation_geometry, (again, window_id, later), second),
        reads(*final(settling), window_id, chrome, after),
        reads(*final(again), window_id, chrome, at_last),
        0 < scale.bits <= 0x7ff0_0000_0000_0000,
    ensures
        first && !second,
        after.size == Some(size) && after.scale == scale && after.inner == inner,
        at_last == after,
        final(settling).common.windows@[window_id].resize_reporting_armed,
{
}

/// Handling an event takes from the window's state the one thing that it hands
/// over, and leaves all the rest, and every other window, as it was.
pub proof fn handling_takes_one_thing(
    handling: &mut Backend,
    window_id: u32,
    other: u32,
    event: CommonEvent,
    platform: Platform,
    r: (bool, Option<WindowOp>),
)
    requires
        old(handling).common.windows@.contains_key(window_id),
        call_ensures(handle_common_event, (handling, &event, window_id, platform), r),
        other != window_id,
    ensures
        ({
            let before = old(handling).common.windows@[window_id];
            let after = final(handling).common.windows@[window_id];
            &&& event == (CommonEvent::SetTitle { window_id }) ==> after == (WindowState {
                pending_title: None,
                ..before
            })
            &&& event == (CommonEvent::SetWindowSize { window_id }) ==> after == (WindowState {
                pending_size: None,
                ..before
            })
            &&& event == (CommonEvent::SetWindowPosition { window_id }) ==> after == (WindowState {
                pending_position: None,
                ..before
            })
            &&& event == (CommonEvent::SetApplicationMenu { window_id }) ==> after == (WindowState {
                pending_app_menu: None,
                ..before
            })
            &&& event == (CommonEvent::ShowContextMenu { window_id }) ==> after == (WindowState {
                pending_context_menu: None,
                ..before
            })
            &&& event is SetResizable || event is SetAlwaysOnTop || event is SetClickPassthrough
                || event is Show || event is Hide || event is Focus || event is SetImeAllowed
                || event is SetImeCursorArea || event is UiTask ==> after == before
        }),
        old(handling).common.windows@.contains_key(other) ==> final(
            handling).common.windows@.contains_key(other) && final(
            handling).common.windows@[other] == old(handling).common.windows@[other],
        final(handling).common.handlers == old(handling).common.handlers,
        final(handling).queue == old(handling).queue,
{
}

} // verus!
