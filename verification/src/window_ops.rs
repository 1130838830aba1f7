//! Carrying out what was asked of a window: the operations on the native window
//! that its noted state calls for.

use crate::backend;
use crate::backend::{Backend, CommonEvent};
use crate::float::Float64;
use crate::menu;
use crate::menu_build;
use crate::menu_build::{
    build_muda_context_menu, build_muda_menu, register_menu_callbacks, MenuCallbackInfo, MenuNode,
};
use crate::platform::Platform;
use crate::window_state::{
    CommonState, ImeCursorArea, WindowState, LAUFEY_WINDOW_FLAG_FRAMELESS, LAUFEY_WINDOW_FLAG_NO_ACTIVATE,
    LAUFEY_WINDOW_FLAG_HIDDEN, LAUFEY_WINDOW_FLAG_TRANSPARENT,
};
use vstd::prelude::*;

verus! {

/// An operation on a native window.
pub enum WindowOp {
    SetTitle(String),
    RequestInnerSize { width: i32, height: i32 },
    SetOuterPosition { x: i32, y: i32 },
    SetResizable(bool),
    SetWindowLevel { always_on_top: bool },
    /// Whether the cursor hits the window or falls through to what is below.
    SetCursorHittest(bool),
    SetVisible(bool),
    FocusWindow,
    SetImeAllowed(bool),
    SetImeCursorArea(ImeCursorArea),
    InstallMenu { nodes: Vec<MenuNode> },
    PopupMenu { x: i32, y: i32, nodes: Vec<MenuNode> },
    RunTask { task: usize, data: usize },
}

/// The event is one that this window handles: one that is meant for it, or a
/// task.
pub open spec fn handles(event: CommonEvent, window_id: u32) -> bool {
    match event {
        CommonEvent::SetTitle { window_id: id } => id == window_id,
        CommonEvent::SetWindowSize { window_id: id } => id == window_id,
        CommonEvent::SetWindowPosition { window_id: id } => id == window_id,
        CommonEvent::SetResizable { window_id: id } => id == window_id,
        CommonEvent::SetAlwaysOnTop { window_id: id } => id == window_id,
        CommonEvent::SetClickPassthrough { window_id: id } => id == window_id,
        CommonEvent::Show { window_id: id } => id == window_id,
        CommonEvent::Hide { window_id: id } => id == window_id,
        CommonEvent::Focus { window_id: id } => id == window_id,
        CommonEvent::SetApplicationMenu { window_id: id } => id == window_id,
        CommonEvent::ShowContextMenu { window_id: id } => id == window_id,
        CommonEvent::SetImeAllowed { window_id: id } => id == window_id,
        CommonEvent::SetImeCursorArea { window_id: id } => id == window_id,
        CommonEvent::UiTask { .. } => true,
        _ => false,
    }
}

/// What handling an event leaves of a window's state. Titles, sizes, positions
/// and menus are handed over once; the other settings stay, to be read back.
pub open spec fn consumed(event: CommonEvent, ws: WindowState) -> WindowState {
    match event {
        CommonEvent::SetTitle { .. } => WindowState { pending_title: None, ..ws },
        CommonEvent::SetWindowSize { .. } => WindowState { pending_size: None, ..ws },
        CommonEvent::SetWindowPosition { .. } => WindowState { pending_position: None, ..ws },
        CommonEvent::SetApplicationMenu { .. } => WindowState { pending_app_menu: None, ..ws },
        CommonEvent::ShowContextMenu { .. } => WindowState { pending_context_menu: None, ..ws },
        _ => ws,
    }
}

/// The operation is the one that an event calls for, given the state noted for
/// the window (`None` for a window without one).
pub open spec fn op_called_for(
    event: CommonEvent,
    noted: Option<WindowState>,
    platform: Platform,
    op: Option<WindowOp>,
) -> bool {
    match event {
        CommonEvent::SetTitle { .. } => match noted {
            Some(ws) if ws.pending_title is Some => op == Some(
                WindowOp::SetTitle(ws.pending_title->0),
            ),
            _ => op is None,
        },
        CommonEvent::SetWindowSize { .. } => match noted {
            Some(WindowState { pending_size: Some((width, height)), .. }) => op == Some(
                WindowOp::RequestInnerSize { width, height },
            ),
            _ => op is None,
        },
        CommonEvent::SetWindowPosition { .. } => match noted {
            Some(WindowState { pending_position: Some((x, y)), .. }) => op == Some(
                WindowOp::SetOuterPosition { x, y },
            ),
            _ => op is None,
        },
        CommonEvent::SetResizable { .. } => match noted {
            Some(ws) if ws.pending_resizable is Some => op == Some(
                WindowOp::SetResizable(ws.pending_resizable->0),
            ),
            _ => op is None,
        },
        CommonEvent::SetAlwaysOnTop { .. } => match noted {
            Some(ws) if ws.pending_always_on_top is Some => op == Some(
                WindowOp::SetWindowLevel { always_on_top: ws.pending_always_on_top->0 },
            ),
            _ => op is None,
        },
        CommonEvent::SetClickPassthrough { .. } => match noted {
            Some(ws) if ws.pending_click_passthrough is Some => op == Some(
                WindowOp::SetCursorHittest(!ws.pending_click_passthrough->0),
            ),
            _ => op is None,
        },
        CommonEvent::Show { .. } => op == Some(WindowOp::SetVisible(true)),
        CommonEvent::Hide { .. } => op == Some(WindowOp::SetVisible(false)),
        CommonEvent::Focus { .. } => op == Some(WindowOp::FocusWindow),
        CommonEvent::SetApplicationMenu { .. } => match noted {
            Some(ws) if ws.pending_app_menu is Some => {
                &&& op matches Some(WindowOp::InstallMenu { nodes })
                &&& menu_build::nodes_view(nodes@) == menu_build::built_menu(
                    menu::parsed_view(ws.pending_app_menu->0.items@),
                    platform,
                )
            },
            _ => op is None,
        },
        CommonEvent::ShowContextMenu { .. } => match noted {
            Some(ws) if ws.pending_context_menu is Some => {
                &&& op matches Some(WindowOp::PopupMenu { x, y, nodes })
                &&& x == ws.pending_context_menu->0.x
                &&& y == ws.pending_context_menu->0.y
                &&& menu_build::nodes_view(nodes@) == menu_build::built_menu(
                    menu::parsed_view(ws.pending_context_menu->0.items@),
                    platform,
                )
            },
            _ => op is None,
        },
        CommonEvent::SetImeAllowed { .. } => match noted {
            Some(ws) if ws.pending_ime_allowed is Some => op == Some(
                WindowOp::SetImeAllowed(ws.pending_ime_allowed->0),
            ),
            _ => op is None,
        },
        CommonEvent::SetImeCursorArea { .. } => match noted {
            Some(ws) if ws.pending_ime_cursor_area is Some => op == Some(
                WindowOp::SetImeCursorArea(ws.pending_ime_cursor_area->0),
            ),
            _ => op is None,
        },
        CommonEvent::UiTask { task, data } => op == Some(WindowOp::RunTask { task, data }),
        _ => op is None,
    }
}

/// Who answers menu clicks once an event has been handled: a menu that is
/// installed or shown is registered for its window.
pub open spec fn clicks_after(
    event: CommonEvent,
    noted: Option<WindowState>,
    window_id: u32,
    clicks: Map<Seq<char>, MenuCallbackInfo>,
) -> Map<Seq<char>, MenuCallbackInfo> {
    match (event, noted) {
        (CommonEvent::SetApplicationMenu { .. }, Some(ws)) => match ws.pending_app_menu {
            Some(m) => match m.callback {
                Some(callback) => menu_build::with_menu_ids(
                    clicks,
                    menu::parsed_view(m.items@),
                    MenuCallbackInfo { callback, callback_data: m.callback_data, window_id },
                ),
                None => clicks,
            },
            None => clicks,
        },
        (CommonEvent::ShowContextMenu { .. }, Some(ws)) => match ws.pending_context_menu {
            Some(m) => match m.callback {
                Some(callback) => menu_build::with_menu_ids(
                    clicks,
                    menu::parsed_view(m.items@),
                    MenuCallbackInfo { callback, callback_data: m.callback_data, window_id },
                ),
                None => clicks,
            },
            None => clicks,
        },
        _ => clicks,
    }
}

/// The state noted for a window, if there is any.
pub open spec fn noted_for(windows: Map<u32, WindowState>, window_id: u32) -> Option<WindowState> {
    if windows.contains_key(window_id) {
        Some(windows[window_id])
    } else {
        None
    }
}

/// Handles an event for one window: says whether it was meant for it, and
/// what is to be done with the native window.
#[verifier::rlimit(40)]
pub fn handle_common_event(
    state: &mut Backend,
    event: &CommonEvent,
    window_id: u32,
    platform: Platform,
) -> (r: (bool, Option<WindowOp>))
    ensures
        r.0 == handles(*event, window_id),
        !r.0 ==> r.1 is None && *final(state) == *old(state),
        r.0 ==> op_called_for(
            *event,
            noted_for(old(state).windows(), window_id),
            platform,
            r.1,
        ),
        r.0 ==> final(state).windows() == backend::updated(
            old(state).windows(),
            window_id,
            |ws: WindowState| consumed(*event, ws),
        ),
        r.0 ==> final(state).menu_clicks@ == clicks_after(
            *event,
            noted_for(old(state).windows(), window_id),
            window_id,
            old(state).menu_clicks@,
        ),
        *final(state) == (Backend {
            common: CommonState {
                windows: final(state).common.windows,
                ..old(state).common
            },
            menu_clicks: final(state).menu_clicks,
            ..*old(state)
        }),
{
    let ghost windows = state.windows();
    let ghost after = backend::updated(
        windows,
        window_id,
        |ws: WindowState| consumed(*event, ws),
    );
    match *event {
        CommonEvent::SetTitle { window_id: id } => {
            if id != window_id {
                return (false, None);
            }
            let op = match state.common.take_window(window_id) {
                Some(mut ws) => {
                    let title = ws.pending_title.take();
                    state.common.put_window(window_id, ws);
                    match title {
                        Some(t) => Some(WindowOp::SetTitle(t)),
                        None => None,
                    }
                },
                None => None,
            };
            assert(state.windows() =~= after);
            (true, op)
        },
        CommonEvent::SetWindowSize { window_id: id } => {
            if id != window_id {
                return (false, None);
            }
            let op = match state.common.take_window(window_id) {
                Some(mut ws) => {
                    let size = ws.pending_size.take();
                    state.common.put_window(window_id, ws);
                    match size {
                        Some((width, height)) => Some(
                            WindowOp::RequestInnerSize { width, height },
                        ),
                        None => None,
                    }
                },
                None => None,
            };
            assert(state.windows() =~= after);
            (true, op)
        },
        CommonEvent::SetWindowPosition { window_id: id } => {
            if id != window_id {
                return (false, None);
            }
            let op = match state.common.take_window(window_id) {
                Some(mut ws) => {
                    let position = ws.pending_position.take();
                    state.common.put_window(window_id, ws);
                    match position {
                        Some((x, y)) => Some(WindowOp::SetOuterPosition { x, y }),
                        None => None,
                    }
                },
                None => None,
            };
            assert(state.windows() =~= after);
            (true, op)
        },
        CommonEvent::SetResizable { window_id: id } => {
            if id != window_id {
                return (false, None);
            }
            let op = match state.common.window(window_id) {
                Some(ws) => match ws.pending_resizable {
                    Some(resizable) => Some(WindowOp::SetResizable(resizable)),
                    None => None,
                },
                None => None,
            };
            assert(state.windows() =~= after);
            (true, op)
        },
        CommonEvent::SetAlwaysOnTop { window_id: id } => {
            if id != window_id {
                return (false, None);
            }
            let op = match state.common.window(window_id) {
                Some(ws) => match ws.pending_always_on_top {
                    Some(on_top) => Some(WindowOp::SetWindowLevel { always_on_top: on_top }),
                    None => None,
                },
                None => None,
            };
            assert(state.windows() =~= after);
            (true, op)
        },
        CommonEvent::SetClickPassthrough { window_id: id } => {
            if id != window_id {
                return (false, None);
            }
            let op = match state.common.window(window_id) {
                Some(ws) => match ws.pending_click_passthrough {
                    Some(passthrough) => Some(WindowOp::SetCursorHittest(!passthrough)),
                    None => None,
                },
                None => None,
            };
            assert(state.windows() =~= after);
            (true, op)
        },
        CommonEvent::Show { window_id: id } => {
            if id != window_id {
                return (false, None);
            }
            assert(state.windows() =~= after);
            (true, Some(WindowOp::SetVisible(true)))
        },
        CommonEvent::Hide { window_id: id } => {
            if id != window_id {
                return (false, None);
            }
            assert(state.windows() =~= after);
            (true, Some(WindowOp::SetVisible(false)))
        },
        CommonEvent::Focus { window_id: id } => {
            if id != window_id {
                return (false, None);
            }
            assert(state.windows() =~= after);
            (true, Some(WindowOp::FocusWindow))
        },
        CommonEvent::SetApplicationMenu { window_id: id } => {
            if id != window_id {
                return (false, None);
            }
            let op = match state.common.take_window(window_id) {
                Some(mut ws) => {
                    let pending = ws.pending_app_menu.take();
                    state.common.put_window(window_id, ws);
                    match pending {
                        Some(m) => {
                            register_menu_callbacks(
                                &mut state.menu_clicks,
                                m.items.as_slice(),
                                m.callback,
                                m.callback_data,
                                window_id,
                            );
                            let nodes = build_muda_menu(m.items.as_slice(), platform);
                            Some(WindowOp::InstallMenu { nodes })
                        },
                        None => None,
                    }
                },
                None => None,
            };
            assert(state.windows() =~= after);
            (true, op)
        },
        CommonEvent::ShowContextMenu { window_id: id } => {
            if id != window_id {
                return (false, None);
            }
            let op = match state.common.take_window(window_id) {
                Some(mut ws) => {
                    let pending = ws.pending_context_menu.take();
                    state.common.put_window(window_id, ws);
                    match pending {
                        Some(m) => {
                            register_menu_callbacks(
                                &mut state.menu_clicks,
                                m.items.as_slice(),
                                m.callback,
                                m.callback_data,
                                window_id,
                            );
                            let nodes = build_muda_context_menu(m.items.as_slice(), platform);
                            Some(WindowOp::PopupMenu { x: m.x, y: m.y, nodes })
                        },
                        None => None,
                    }
                },
                None => None,
            };
            assert(state.windows() =~= after);
            (true, op)
        },
        CommonEvent::SetImeAllowed { window_id: id } => {
            if id != window_id {
                return (false, None);
            }
            let op = match state.common.window(window_id) {
                Some(ws) => match ws.pending_ime_allowed {
                    Some(allowed) => Some(WindowOp::SetImeAllowed(allowed)),
                    None => None,
                },
                None => None,
            };
            assert(state.windows() =~= after);
            (true, op)
        },
        CommonEvent::SetImeCursorArea { window_id: id } => {
            if id != window_id {
                return (false, None);
            }
            let op = match state.common.window(window_id) {
                Some(ws) => match ws.pending_ime_cursor_area {
                    Some(area) => Some(WindowOp::SetImeCursorArea(area)),
                    None => None,
                },
                None => None,
            };
            assert(state.windows() =~= after);
            (true, op)
        },
        CommonEvent::UiTask { task, data } => {
            assert(state.windows() =~= after);
            (true, Some(WindowOp::RunTask { task, data }))
        },
        _ => (false, None),
    }
}

/// How a native window is to be created. What is not given is the platform's
/// default.
pub struct WindowAttributes {
    pub inner_size: Option<(i32, i32)>,
    pub position: Option<(i32, i32)>,
    pub resizable: Option<bool>,
    pub title: Option<String>,
    pub decorations: Option<bool>,
    pub active: Option<bool>,
    pub transparent: Option<bool>,
    pub visible: Option<bool>,
}

impl WindowAttributes {
    pub open spec fn all_default() -> WindowAttributes {
        WindowAttributes {
            inner_size: None,
            position: None,
            resizable: None,
            title: None,
            decorations: None,
            active: None,
            transparent: None,
            visible: None,
        }
    }
}

impl Default for WindowAttributes {
    fn default() -> (r: WindowAttributes)
        ensures
            r == WindowAttributes::all_default(),
    {
        WindowAttributes {
            inner_size: None,
            position: None,
            resizable: None,
            title: None,
            decorations: None,
            active: None,
            transparent: None,
            visible: None,
        }
    }
}

/// `a` if it is there, else `b`.
pub open spec fn first_of<T>(a: Option<T>, b: Option<T>) -> Option<T> {
    if a is Some {
        a
    } else {
        b
    }
}

/// The attributes with what is noted for a window applied: size, position,
/// resizability and title where they were asked for, no decorations for a
/// frameless window, no activation for a non-activating one, a transparent
/// background where that was asked for, and no showing of a window that is created
/// hidden.
pub open spec fn with_noted(ws: WindowState, attrs: WindowAttributes) -> WindowAttributes {
    WindowAttributes {
        inner_size: first_of(ws.pending_size, attrs.inner_size),
        position: first_of(ws.pending_position, attrs.position),
        resizable: first_of(ws.pending_resizable, attrs.resizable),
        title: first_of(ws.pending_title, attrs.title),
        decorations: if backend::has_flag(ws.pending_flags, LAUFEY_WINDOW_FLAG_FRAMELESS) {
            Some(false)
        } else {
            attrs.decorations
        },
        active: if backend::has_flag(ws.pending_flags, LAUFEY_WINDOW_FLAG_NO_ACTIVATE) {
            Some(false)
        } else {
            attrs.active
        },
        transparent: if backend::has_flag(ws.pending_flags, LAUFEY_WINDOW_FLAG_TRANSPARENT) {
            Some(true)
        } else {
            attrs.transparent
        },
        visible: if backend::awaits_first_show(ws) {
            Some(false)
        } else {
            attrs.visible
        },
    }
}

/// Applies what is noted for a window to the attributes it is created with.
pub fn apply_pending_attrs(ws: &WindowState, attrs: WindowAttributes) -> (r: WindowAttributes)
    ensures
        r == with_noted(*ws, attrs),
{
    let mut attrs = attrs;
    if let Some(size) = ws.pending_size {
        attrs.inner_size = Some(size);
    }
    if let Some(position) = ws.pending_position {
        attrs.position = Some(position);
    }
    if let Some(resizable) = ws.pending_resizable {
        attrs.resizable = Some(resizable);
    }
    if let Some(title) = &ws.pending_title {
        attrs.title = Some(title.clone());
    }
    let flags: u32 = ws.pending_flags;
    if flags & LAUFEY_WINDOW_FLAG_FRAMELESS != 0 {
        attrs.decorations = Some(false);
    }
    if flags & LAUFEY_WINDOW_FLAG_NO_ACTIVATE != 0 {
        attrs.active = Some(false);
    }
    if flags & LAUFEY_WINDOW_FLAG_TRANSPARENT != 0 {
        attrs.transparent = Some(true);
    }
    if flags & LAUFEY_WINDOW_FLAG_HIDDEN != 0 && ws.pending_visible == Some(false) {
        attrs.visible = Some(false);
    }
    attrs
}

/// The state with the geometry of the real window, as far as the platform could
/// tell it. The scale counts only together with a size.
pub open spec fn with_geometry(
    ws: WindowState,
    size: Option<(i32, i32)>,
    scale: Float64,
    inner: Option<(i32, i32)>,
) -> WindowState {
    WindowState {
        current_size: first_of(size, ws.current_size),
        current_scale: if size is Some {
            scale
        } else {
            ws.current_scale
        },
        current_inner_position: first_of(inner, ws.current_inner_position),
        ..ws
    }
}

/// The operation, if it is called for.
pub open spec fn op_if(called_for: bool, op: WindowOp) -> Seq<WindowOp> {
    if called_for {
        seq![op]
    } else {
        Seq::empty()
    }
}

/// What is left to do once the native window exists: staying on top and passing
/// clicks through where that was asked for; a non-activating window floats
/// above the others too; and a window that is created hidden is hidden, also where
/// the platform has shown it meanwhile.
pub open spec fn post_create_ops(ws: WindowState) -> Seq<WindowOp> {
    op_if(
        ws.pending_always_on_top == Some(true),
        WindowOp::SetWindowLevel { always_on_top: true },
    ) + op_if(ws.pending_click_passthrough == Some(true), WindowOp::SetCursorHittest(false))
        + op_if(
        backend::has_flag(ws.pending_flags, LAUFEY_WINDOW_FLAG_NO_ACTIVATE),
        WindowOp::SetWindowLevel { always_on_top: true },
    ) + op_if(backend::awaits_first_show(ws), WindowOp::SetVisible(false))
}

fn push_op_if(ops: &mut Vec<WindowOp>, called_for: bool, op: WindowOp)
    ensures
        final(ops)@ == old(ops)@ + op_if(called_for, op),
{
    let ghost before = ops@;
    let ghost pushed = op;
    if called_for {
        ops.push(op);
    }
    assert(ops@ =~= before + op_if(called_for, pushed));
}

/// Notes the geometry of a window that was just created and says what is left
/// to do. `size` and `inner` are in logical pixels, and absent where the
/// platform could not tell (a window without extent has no size).
pub fn apply_pending_post_create(
    ws: &mut WindowState,
    size: Option<(i32, i32)>,
    scale: Float64,
    inner: Option<(i32, i32)>,
) -> (r: Vec<WindowOp>)
    ensures
        *final(ws) == with_geometry(*old(ws), size, scale, inner),
        r@ == post_create_ops(*old(ws)),
{
    if size.is_some() {
        ws.current_size = size;
        ws.current_scale = scale;
    }
    if inner.is_some() {
        ws.current_inner_position = inner;
    }
    let mut ops: Vec<WindowOp> = Vec::new();
    push_op_if(
        &mut ops,
        ws.pending_always_on_top == Some(true),
        WindowOp::SetWindowLevel { always_on_top: true },
    );
    push_op_if(
        &mut ops,
        ws.pending_click_passthrough == Some(true),
        WindowOp::SetCursorHittest(false),
    );
    push_op_if(
        &mut ops,
        ws.pending_flags & LAUFEY_WINDOW_FLAG_NO_ACTIVATE != 0,
        WindowOp::SetWindowLevel { always_on_top: true },
    );
    push_op_if(
        &mut ops,
        ws.pending_flags & LAUFEY_WINDOW_FLAG_HIDDEN != 0 && ws.pending_visible == Some(false),
        WindowOp::SetVisible(false),
    );
    assert(ops@ =~= post_create_ops(*ws));
    ops
}

/// The state once resize reporting has been armed.
pub open spec fn armed(
    ws: WindowState,
    size: Option<(i32, i32)>,
    scale: Float64,
    inner: Option<(i32, i32)>,
) -> WindowState {
    if ws.resize_reporting_armed {
        ws
    } else {
        WindowState { resize_reporting_armed: true, ..with_geometry(ws, size, scale, inner) }
    }
}

/// Arms resize reporting, with the geometry that the window really has. Only
/// the first call does anything, and it says so.
pub fn arm_resize_reporting(
    ws: &mut WindowState,
    size: Option<(i32, i32)>,
    scale: Float64,
    inner: Option<(i32, i32)>,
) -> (r: bool)
    ensures
        r == !old(ws).resize_reporting_armed,
        *final(ws) == armed(*old(ws), size, scale, inner),
{
    if ws.resize_reporting_armed {
        return false;
    }
    if size.is_some() {
        ws.current_size = size;
        ws.current_scale = scale;
    }
    if inner.is_some() {
        ws.current_inner_position = inner;
    }
    ws.resize_reporting_armed = true;
    true
}

/// Arming happens once: whatever is reported later changes nothing any more.
pub proof fn arming_happens_once(
    ws: WindowState,
    size: Option<(i32, i32)>,
    scale: Float64,
    inner: Option<(i32, i32)>,
    size2: Option<(i32, i32)>,
    scale2: Float64,
    inner2: Option<(i32, i32)>,
)
    ensures
        armed(ws, size, scale, inner).resize_reporting_armed,
        armed(armed(ws, size, scale, inner), size2, scale2, inner2) == armed(
            ws,
            size,
            scale,
            inner,
        ),
{
}

/// An event that hands something over does so once: handled a second time, it
/// calls for nothing.
pub proof fn handed_over_once(event: CommonEvent, ws: WindowState, platform: Platform)
    requires
        event is SetTitle || event is SetWindowSize || event is SetWindowPosition
            || event is SetApplicationMenu || event is ShowContextMenu,
    ensures
        op_called_for(event, Some(consumed(event, ws)), platform, None),
        consumed(event, consumed(event, ws)) == consumed(event, ws),
{
}

/// The settings of a window and its real geometry are the same before and after
/// an event is handled.
pub proof fn settings_stay(event: CommonEvent, ws: WindowState)
    ensures
        consumed(event, ws).pending_resizable == ws.pending_resizable,
        consumed(event, ws).pending_always_on_top == ws.pending_always_on_top,
        consumed(event, ws).pending_click_passthrough == ws.pending_click_passthrough,
        consumed(event, ws).pending_visible == ws.pending_visible,
        consumed(event, ws).pending_ime_allowed == ws.pending_ime_allowed,
        consumed(event, ws).pending_ime_cursor_area == ws.pending_ime_cursor_area,
        consumed(event, ws).composition == ws.composition,
        consumed(event, ws).current_size == ws.current_size,
        consumed(event, ws).current_scale == ws.current_scale,
        consumed(event, ws).current_inner_position == ws.current_inner_position,
{
}

/// A window that is created hidden reads back as hidden, is built without being
/// shown, and stays so: nothing but the event that `show` queues calls for
/// showing it.
pub proof fn hidden_until_shown(
    before: Backend,
    after: Backend,
    flags: u32,
    scale: Option<Float64>,
    attrs: WindowAttributes,
    event: CommonEvent,
    noted: Option<WindowState>,
    platform: Platform,
    op: Option<WindowOp>,
)
    requires
        after.window_added(before, flags, scale),
        backend::has_flag(flags, LAUFEY_WINDOW_FLAG_HIDDEN),
        op_called_for(event, noted, platform, op),
    ensures
        ({
            let id = before.next_window_id;
            let ws = after.windows()[id];
            &&& !after.setting(id, |ws: WindowState| ws.pending_visible, true)
            &&& with_noted(ws, attrs).visible == Some(false)
            &&& post_create_ops(ws).contains(WindowOp::SetVisible(false))
            &&& !post_create_ops(ws).contains(WindowOp::SetVisible(true))
            &&& backend::awaits_first_show(ws)
        }),
        op == Some(WindowOp::SetVisible(true)) <==> event is Show,
{
    let ws = after.windows()[before.next_window_id];
    let ops = post_create_ops(ws);
    assert(ops.last() == WindowOp::SetVisible(false));
    assert(ops.contains(WindowOp::SetVisible(false)));
}

/// The first showing ends it, whether by `show` or by `focus`: a window that was
/// created hidden is an ordinary one from then on, also once it is hidden again.
pub proof fn shown_once_and_for_all(ws: WindowState, visible: Option<bool>)
    ensures
        ({
            let after = WindowState { pending_visible: visible, ..backend::shown(ws) };
            &&& !backend::awaits_first_show(after)
            &&& with_noted(after, WindowAttributes::all_default()).visible is None
            &&& !post_create_ops(after).contains(WindowOp::SetVisible(false))
        }),
{
    let hidden: u32 = LAUFEY_WINDOW_FLAG_HIDDEN;
    assert(2u32 & hidden == 0) by (bit_vector)
        requires
            hidden == 8,
    ;
    backend::showing_keeps_the_other_flags(ws.pending_flags, LAUFEY_WINDOW_FLAG_NO_ACTIVATE);
}

} // verus!
