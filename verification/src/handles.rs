//! Native handles of windows, kept per window from the moment it exists.

use crate::platform::Platform;
use std::collections::HashMap;
use vstd::prelude::*;

verus! {

broadcast use vstd::std_specs::hash::group_hash_axioms;

pub const LAUFEY_WINDOW_HANDLE_UNKNOWN: i32 = 0;

pub const LAUFEY_WINDOW_HANDLE_APPKIT: i32 = 1;

pub const LAUFEY_WINDOW_HANDLE_WIN32: i32 = 2;

pub const LAUFEY_WINDOW_HANDLE_X11: i32 = 3;

pub const LAUFEY_WINDOW_HANDLE_WAYLAND: i32 = 4;

/// How long a getter waits for a window that does not exist yet, in
/// milliseconds.
pub const HANDLE_WAIT_MILLIS: u64 = 5000;

/// The handles of one window. A missing handle is zero.
#[derive(Clone, Copy, Debug, PartialEq, Eq, Structural)]
pub struct WindowHandleInfo {
    pub handle: usize,
    pub display: usize,
    pub handle_type: i32,
}

/// A window handle as the windowing system gives it.
#[derive(Clone, Copy, Debug, PartialEq, Eq, Structural)]
pub enum NativeWindow {
    AppKit { ns_view: usize },
    Win32 { hwnd: usize },
    Xlib { window: usize },
    Wayland { surface: usize },
    Other,
}

/// A display handle as the windowing system gives it.
#[derive(Clone, Copy, Debug, PartialEq, Eq, Structural)]
pub enum NativeDisplay {
    Xlib { display: Option<usize> },
    Wayland { display: usize },
    Other,
}

/// The handles to keep. Each platform knows its own kinds only; anything else,
/// or no handle at all, is unknown.
pub open spec fn handle_info(
    platform: Platform,
    window: Option<NativeWindow>,
    display: Option<NativeDisplay>,
) -> WindowHandleInfo {
    let (handle, handle_type) = match (platform, window) {
        (Platform::MacOs, Some(NativeWindow::AppKit { ns_view })) => (
            ns_view,
            LAUFEY_WINDOW_HANDLE_APPKIT,
        ),
        (Platform::Windows, Some(NativeWindow::Win32 { hwnd })) => (
            hwnd,
            LAUFEY_WINDOW_HANDLE_WIN32,
        ),
        (Platform::Linux, Some(NativeWindow::Xlib { window })) => (
            window,
            LAUFEY_WINDOW_HANDLE_X11,
        ),
        (Platform::Linux, Some(NativeWindow::Wayland { surface })) => (
            surface,
            LAUFEY_WINDOW_HANDLE_WAYLAND,
        ),
        _ => (0, LAUFEY_WINDOW_HANDLE_UNKNOWN),
    };
    let display = match (platform, display) {
        (Platform::Linux, Some(NativeDisplay::Xlib { display: Some(d) })) => d,
        (Platform::Linux, Some(NativeDisplay::Wayland { display: d })) => d,
        _ => 0,
    };
    WindowHandleInfo { handle, display, handle_type }
}

/// The native handles of the windows that exist.
pub struct WindowHandles {
    pub map: HashMap<u32, WindowHandleInfo>,
}

impl WindowHandles {
    pub open spec fn view(&self) -> Map<u32, WindowHandleInfo> {
        self.map@
    }

    pub fn new() -> (r: WindowHandles)
        ensures
            r@ == Map::<u32, WindowHandleInfo>::empty(),
    {
        WindowHandles { map: HashMap::new() }
    }
}

impl Default for WindowHandles {
    fn default() -> (r: WindowHandles)
        ensures
            r@ == Map::<u32, WindowHandleInfo>::empty(),
    {
        WindowHandles::new()
    }
}

/// Keeps the handles of a window that now exists.
pub fn store_window_handles(
    handles: &mut WindowHandles,
    window_id: u32,
    platform: Platform,
    window: Option<NativeWindow>,
    display: Option<NativeDisplay>,
)
    ensures
        final(handles)@ == old(handles)@.insert(window_id, handle_info(platform, window, display)),
{
    let mut handle: usize = 0;
    let mut handle_type: i32 = LAUFEY_WINDOW_HANDLE_UNKNOWN;
    let mut display_ptr: usize = 0;
    match (platform, window) {
        (Platform::MacOs, Some(NativeWindow::AppKit { ns_view })) => {
            handle = ns_view;
            handle_type = LAUFEY_WINDOW_HANDLE_APPKIT;
        },
        (Platform::Windows, Some(NativeWindow::Win32 { hwnd })) => {
            handle = hwnd;
            handle_type = LAUFEY_WINDOW_HANDLE_WIN32;
        },
        (Platform::Linux, Some(NativeWindow::Xlib { window })) => {
            handle = window;
            handle_type = LAUFEY_WINDOW_HANDLE_X11;
        },
        (Platform::Linux, Some(NativeWindow::Wayland { surface })) => {
            handle = surface;
            handle_type = LAUFEY_WINDOW_HANDLE_WAYLAND;
        },
        _ => {},
    }
    match (platform, display) {
        (Platform::Linux, Some(NativeDisplay::Xlib { display: Some(d) })) => {
            display_ptr = d;
        },
        (Platform::Linux, Some(NativeDisplay::Wayland { display: d })) => {
            display_ptr = d;
        },
        _ => {},
    }
    handles.map.insert(
        window_id,
        WindowHandleInfo { handle, display: display_ptr, handle_type },
    );
}

/// Forgets the handles of a window that is gone.
pub fn remove_window_handles(handles: &mut WindowHandles, window_id: u32)
    ensures
        final(handles)@ == old(handles)@.remove(window_id),
{
    handles.map.remove(&window_id);
}

/// Whether a getter that has waited this long goes on waiting: the window's
/// handles are not there yet, and the time is not up. The bound keeps a
/// window that never comes from holding its caller forever.
pub fn wait_for_window_handle(handles: &WindowHandles, window_id: u32, waited_millis: u64) -> (r: bool)
    ensures
        r == (!handles@.contains_key(window_id) && waited_millis < HANDLE_WAIT_MILLIS),
{
    !handles.map.contains_key(&window_id) && waited_millis < HANDLE_WAIT_MILLIS
}

/// The window handle, or zero.
pub fn backend_get_window_handle(handles: &WindowHandles, window_id: u32) -> (r: usize)
    ensures
        r == (if handles@.contains_key(window_id) {
            handles@[window_id].handle
        } else {
            0
        }),
{
    match handles.map.get(&window_id) {
        Some(info) => info.handle,
        None => 0,
    }
}

/// The display handle, or zero.
pub fn backend_get_display_handle(handles: &WindowHandles, window_id: u32) -> (r: usize)
    ensures
        r == (if handles@.contains_key(window_id) {
            handles@[window_id].display
        } else {
            0
        }),
{
    match handles.map.get(&window_id) {
        Some(info) => info.display,
        None => 0,
    }
}

/// The kind of the window handle.
pub fn backend_get_window_handle_type(handles: &WindowHandles, window_id: u32) -> (r: i32)
    ensures
        r == (if handles@.contains_key(window_id) {
            handles@[window_id].handle_type
        } else {
            LAUFEY_WINDOW_HANDLE_UNKNOWN
        }),
{
    match handles.map.get(&window_id) {
        Some(info) => info.handle_type,
        None => LAUFEY_WINDOW_HANDLE_UNKNOWN,
    }
}

/// Each window has handles of its own: storing or removing those of one leaves
/// those of another alone, and removal undoes a store.
pub proof fn handles_are_per_window(
    map: Map<u32, WindowHandleInfo>,
    window_id: u32,
    info: WindowHandleInfo,
    other: u32,
)
    requires
        other != window_id,
    ensures
        map.insert(window_id, info).contains_key(other) == map.contains_key(other),
        map.insert(window_id, info)[other] == map[other],
        map.remove(window_id).contains_key(other) == map.contains_key(other),
        map.insert(window_id, info).remove(window_id) == map.remove(window_id),
{
    assert(map.insert(window_id, info).remove(window_id) =~= map.remove(window_id));
}

/// A window's handle has a known kind exactly on a platform that the handle
/// belongs to.
pub proof fn known_kinds(platform: Platform, window: Option<NativeWindow>, display: Option<
    NativeDisplay,
>)
    ensures
        handle_info(platform, window, display).handle_type != LAUFEY_WINDOW_HANDLE_UNKNOWN <==> {
            ||| platform == Platform::MacOs && window matches Some(NativeWindow::AppKit { .. })
            ||| platform == Platform::Windows && window matches Some(NativeWindow::Win32 { .. })
            ||| platform == Platform::Linux && window matches Some(NativeWindow::Xlib { .. })
            ||| platform == Platform::Linux && window matches Some(NativeWindow::Wayland { .. })
        },
{
}

} // verus!
