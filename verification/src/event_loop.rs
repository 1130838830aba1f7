//! The event loop's decisions: what queued requests and native window events do
//! to the state, and what is to be done about them.

use crate::backend;
use crate::backend::{Backend, CommonEvent};
use crate::composition;
use crate::composition::{dispatch_ime_event, ImeInput};
use crate::dispatch;
use crate::dispatch::{
    dispatch_close_requested_event, dispatch_cursor_enter_leave_event, dispatch_focused_event,
    dispatch_keyboard_event, dispatch_mouse_click_event, dispatch_mouse_move_event,
    dispatch_move_event, dispatch_raw_keyboard_event, dispatch_resize_event, dispatch_wheel_event,
    HandlerCall, KeyEvent,
};
use crate::float::Float64;
use crate::handles;
use crate::handles::{
    remove_window_handles, store_window_handles, NativeDisplay, NativeWindow, WindowHandles,
};
use crate::keyboard;
use crate::keyboard::{
    is_modifier_named_key, modifier_key_edges, winit_code_to_string, winit_key_to_string, Modifiers,
    ModifiersState,
};
use crate::modifier_keys;
use crate::modifier_keys::ToldModifiers;
use crate::mouse::{MouseButton, ScrollDelta};
use crate::platform::Platform;
use crate::window_ops;
use crate::window_ops::{
    apply_pending_attrs, apply_pending_post_create, arm_resize_reporting, handle_common_event,
    WindowAttributes, WindowOp,
};
use crate::window_state::{CommonState, EventHandlers, WindowState};
use std::collections::HashMap;
use vstd::prelude::*;

verus! {

broadcast use vstd::std_specs::hash::group_hash_axioms;

/// A native window: its id with the windowing system, its modifiers, and how
/// far its modifier keys have been told.
#[derive(Clone, Copy)]
pub struct WindowInfo {
    pub winit_id: u64,
    pub modifiers: Modifiers,
    pub told: ToldModifiers,
}

/// The native windows that exist.
pub struct App {
    pub windows: HashMap<u32, WindowInfo>,
    /// From the windowing system's id to ours.
    pub winit_to_laufey: HashMap<u64, u32>,
    /// The window that has the focus.
    pub focused_laufey_id: Option<u32>,
}

impl Backend {
    /// Relative to `before`: the window, if known, has been changed, and nothing
    /// else has happened.
    pub open spec fn only_window(
        self,
        before: Backend,
        window_id: u32,
        change: spec_fn(WindowState) -> WindowState,
    ) -> bool {
        &&& self == (Backend {
            common: CommonState { windows: self.common.windows, ..before.common },
            ..before
        })
        &&& self.windows() == backend::updated(before.windows(), window_id, change)
    }
}

impl App {
    /// The two ways between ids agree: every window is found under its native
    /// id, and every native id leads to a window that has it.
    pub open spec fn wf(self) -> bool {
        &&& forall|id: u32| #[trigger]
            self.windows@.contains_key(id) ==> self.winit_to_laufey@.contains_key(
                self.windows@[id].winit_id,
            ) && self.winit_to_laufey@[self.windows@[id].winit_id] == id
        &&& forall|w: u64| #[trigger]
            self.winit_to_laufey@.contains_key(w) ==> self.windows@.contains_key(
                self.winit_to_laufey@[w],
            ) && self.windows@[self.winit_to_laufey@[w]].winit_id == w
    }

    pub fn new() -> (r: App)
        ensures
            r.windows@ == Map::<u32, WindowInfo>::empty(),
            r.winit_to_laufey@ == Map::<u64, u32>::empty(),
            r.focused_laufey_id is None,
            r.wf(),
    {
        App { windows: HashMap::new(), winit_to_laufey: HashMap::new(), focused_laufey_id: None }
    }

    /// Our id of a native window.
    pub fn laufey_id(&self, winit_id: u64) -> (r: Option<u32>)
        ensures
            r == (if self.winit_to_laufey@.contains_key(winit_id) {
                Some(self.winit_to_laufey@[winit_id])
            } else {
                None
            }),
    {
        match self.winit_to_laufey.get(&winit_id) {
            Some(id) => Some(*id),
            None => None,
        }
    }

    /// The window is one that app-wide operations go to: the one that has the
    /// focus if it exists, and while none has it, any one of them.
    pub open spec fn is_focus_target(self, target: Option<u32>) -> bool {
        match self.focused_laufey_id {
            Some(f) => target == (if self.windows@.contains_key(f) {
                Some(f)
            } else {
                None
            }),
            None => match target {
                Some(id) => self.windows@.contains_key(id),
                None => self.windows@.dom() == Set::<u32>::empty(),
            },
        }
    }

    /// A window that app-wide operations go to.
    pub fn focused_window(&self) -> (r: Option<u32>)
        ensures
            self.is_focus_target(r),
    {
        match self.focused_laufey_id {
            Some(f) => if self.windows.contains_key(&f) {
                Some(f)
            } else {
                None
            },
            None => {
                let mut found: Option<u32> = None;
                for key in it: self.windows.keys()
                    invariant
                        it.seq().unref().to_set() == self.windows@.dom(),
                        found is None ==> it.index() == 0,
                        found matches Some(id) ==> self.windows@.contains_key(id),
                {
                    proof {
                        let open = it.seq().unref();
                        assert(open[it.index()] == *key);
                        assert(open.to_set().contains(*key));
                    }
                    found = Some(*key);
                }
                proof {
                    if found is None {
                        assert(self.windows@.dom() =~= Set::<u32>::empty());
                    }
                }
                found
            },
        }
    }
}

/// The geometry of a native window in logical pixels, as far as the platform
/// can tell it.
#[derive(Clone, Copy)]
pub struct Geometry {
    pub size: Option<(i32, i32)>,
    pub scale: Float64,
    pub inner: Option<(i32, i32)>,
}

/// How a window is to be created: as was asked of it, or by default for one
/// that nothing is known of.
pub open spec fn creation_attributes_of(
    windows: Map<u32, WindowState>,
    window_id: u32,
) -> WindowAttributes {
    match window_ops::noted_for(windows, window_id) {
        Some(ws) => window_ops::with_noted(ws, WindowAttributes::all_default()),
        None => WindowAttributes::all_default(),
    }
}

impl App {
    /// How a window is to be created.
    pub fn creation_attributes(&self, state: &Backend, window_id: u32) -> (r: WindowAttributes)
        ensures
            r == creation_attributes_of(state.windows(), window_id),
    {
        match state.common.window(window_id) {
            Some(ws) => apply_pending_attrs(ws, WindowAttributes::default()),
            None => WindowAttributes::default(),
        }
    }

    /// Takes in a native window that was just created, and says what is left to
    /// do with it.
    pub fn create_window(
        &mut self,
        state: &mut Backend,
        handles: &mut WindowHandles,
        window_id: u32,
        winit_id: u64,
        geometry: Geometry,
        platform: Platform,
        native: Option<NativeWindow>,
        display: Option<NativeDisplay>,
    ) -> (r: Vec<WindowOp>)
        ensures
            final(self).windows@ == old(self).windows@.insert(
                window_id,
                WindowInfo {
                    winit_id,
                    modifiers: Modifiers::sides_unknown(ModifiersState { bits: 0 }),
                    told: ToldModifiers::none(),
                },
            ),
            final(self).winit_to_laufey@ == old(self).winit_to_laufey@.insert(winit_id, window_id),
            final(self).focused_laufey_id == old(self).focused_laufey_id,
            final(state).only_window(
                *old(state),
                window_id,
                |ws: WindowState|
                    window_ops::with_geometry(ws, geometry.size, geometry.scale, geometry.inner),
            ),
            final(handles)@ == old(handles)@.insert(
                window_id,
                handles::handle_info(platform, native, display),
            ),
            r@ == (match window_ops::noted_for(old(state).windows(), window_id) {
                Some(ws) => window_ops::post_create_ops(ws),
                None => Seq::empty(),
            }),
            old(self).wf() && !old(self).windows@.contains_key(window_id)
                && !old(self).winit_to_laufey@.contains_key(winit_id) ==> final(self).wf(),
    {
        let ghost before = *state;
        let ops = match state.common.take_window(window_id) {
            Some(mut ws) => {
                let ops = apply_pending_post_create(
                    &mut ws,
                    geometry.size,
                    geometry.scale,
                    geometry.inner,
                );
                state.common.put_window(window_id, ws);
                ops
            },
            None => Vec::new(),
        };
        assert(state.windows() =~= backend::updated(
            before.windows(),
            window_id,
            |ws: WindowState|
                window_ops::with_geometry(ws, geometry.size, geometry.scale, geometry.inner),
        ));
        store_window_handles(handles, window_id, platform, native, display);
        self.winit_to_laufey.insert(winit_id, window_id);
        self.windows.insert(
            window_id,
            WindowInfo { winit_id, modifiers: Modifiers::default(), told: ToldModifiers::new() },
        );
        ops
    }

    /// Relative to `before`: the window, if it exists, is gone, with its native
    /// id, its handles and what was noted for it. Otherwise nothing has
    /// happened.
    pub open spec fn window_closed(
        before: (App, Backend, WindowHandles),
        after: (App, Backend, WindowHandles),
        window_id: u32,
    ) -> bool {
        let (app0, state0, handles0) = before;
        let (app1, state1, handles1) = after;
        &&& app1.focused_laufey_id == app0.focused_laufey_id
        &&& app1.windows@ == app0.windows@.remove(window_id)
        &&& state1 == (Backend {
            common: CommonState { windows: state1.common.windows, ..state0.common },
            ..state0
        })
        &&& if app0.windows@.contains_key(window_id) {
            &&& app1.winit_to_laufey@ == app0.winit_to_laufey@.remove(
                app0.windows@[window_id].winit_id,
            )
            &&& state1.windows() == state0.windows().remove(window_id)
            &&& handles1@ == handles0@.remove(window_id)
        } else {
            &&& app1.winit_to_laufey@ == app0.winit_to_laufey@
            &&& state1.windows() == state0.windows()
            &&& handles1@ == handles0@
        }
    }

    /// Lets go of a window.
    pub fn close_window(
        &mut self,
        state: &mut Backend,
        handles: &mut WindowHandles,
        window_id: u32,
    )
        ensures
            App::window_closed(
                (*old(self), *old(state), *old(handles)),
                (*final(self), *final(state), *final(handles)),
                window_id,
            ),
            old(self).wf() ==> final(self).wf(),
    {
        if let Some(info) = self.windows.remove(&window_id) {
            self.winit_to_laufey.remove(&info.winit_id);
            remove_window_handles(handles, window_id);
            state.common.remove_window(window_id);
        }
        assert(self.windows@ =~= old(self).windows@.remove(window_id));
    }
}

/// What the event loop is to do about a queued event.
pub enum LoopAction {
    Nothing,
    Exit,
    /// Build the native window, then take it in with `App::create_window`.
    Create { window_id: u32, attributes: WindowAttributes },
    /// The window was let go of; drop the native one, and exit if asked to.
    Closed { window_id: u32, exit: bool },
    RunTask { task: usize, data: usize },
    DrainDock { focused: Option<u32> },
    DrainTray,
    Operate { window_id: u32, op: Option<WindowOp> },
}

/// The window that an event sets something on.
pub open spec fn target_of(event: CommonEvent) -> Option<u32> {
    match event {
        CommonEvent::SetTitle { window_id } => Some(window_id),
        CommonEvent::SetWindowSize { window_id } => Some(window_id),
        CommonEvent::SetWindowPosition { window_id } => Some(window_id),
        CommonEvent::SetResizable { window_id } => Some(window_id),
        CommonEvent::SetAlwaysOnTop { window_id } => Some(window_id),
        CommonEvent::SetClickPassthrough { window_id } => Some(window_id),
        CommonEvent::Show { window_id } => Some(window_id),
        CommonEvent::Hide { window_id } => Some(window_id),
        CommonEvent::Focus { window_id } => Some(window_id),
        CommonEvent::SetApplicationMenu { window_id } => Some(window_id),
        CommonEvent::ShowContextMenu { window_id } => Some(window_id),
        CommonEvent::SetImeAllowed { window_id } => Some(window_id),
        CommonEvent::SetImeCursorArea { window_id } => Some(window_id),
        _ => None,
    }
}

fn target_window(event: &CommonEvent) -> (r: Option<u32>)
    ensures
        r == target_of(*event),
{
    match *event {
        CommonEvent::SetTitle { window_id } => Some(window_id),
        CommonEvent::SetWindowSize { window_id } => Some(window_id),
        CommonEvent::SetWindowPosition { window_id } => Some(window_id),
        CommonEvent::SetResizable { window_id } => Some(window_id),
        CommonEvent::SetAlwaysOnTop { window_id } => Some(window_id),
        CommonEvent::SetClickPassthrough { window_id } => Some(window_id),
        CommonEvent::Show { window_id } => Some(window_id),
        CommonEvent::Hide { window_id } => Some(window_id),
        CommonEvent::Focus { window_id } => Some(window_id),
        CommonEvent::SetApplicationMenu { window_id } => Some(window_id),
        CommonEvent::ShowContextMenu { window_id } => Some(window_id),
        CommonEvent::SetImeAllowed { window_id } => Some(window_id),
        CommonEvent::SetImeCursorArea { window_id } => Some(window_id),
        _ => None,
    }
}

impl App {
    /// Carries out a queued event. Quitting and closing the last window end the
    /// loop. What is set on a window that does not exist is left for later.
    pub fn user_event(
        &mut self,
        state: &mut Backend,
        handles: &mut WindowHandles,
        event: CommonEvent,
        platform: Platform,
    ) -> (r: LoopAction)
        ensures
            match event {
                CommonEvent::CloseWindow { window_id } => {
                    &&& App::window_closed(
                        (*old(self), *old(state), *old(handles)),
                        (*final(self), *final(state), *final(handles)),
                        window_id,
                    )
                    &&& r == (LoopAction::Closed {
                        window_id,
                        exit: final(self).windows@.dom() == Set::<u32>::empty(),
                    })
                },
                _ => *final(self) == *old(self) && *final(handles) == *old(handles),
            },
            match event {
                CommonEvent::Quit => r == LoopAction::Exit,
                CommonEvent::CreateWindow { window_id } => r == (LoopAction::Create {
                    window_id,
                    attributes: creation_attributes_of(old(state).windows(), window_id),
                }),
                CommonEvent::UiTask { task, data } => r == (LoopAction::RunTask { task, data }),
                CommonEvent::DockTask => r matches LoopAction::DrainDock { focused } && old(
                    self,
                ).is_focus_target(focused),
                CommonEvent::TrayTask => r == LoopAction::DrainTray,
                _ => true,
            },
            match target_of(event) {
                Some(window_id) if old(self).windows@.contains_key(window_id) => {
                    &&& r matches LoopAction::Operate { window_id: id, op }
                    &&& id == window_id
                    &&& window_ops::op_called_for(
                        event,
                        window_ops::noted_for(old(state).windows(), window_id),
                        platform,
                        op,
                    )
                    &&& final(state).windows() == backend::updated(
                        old(state).windows(),
                        window_id,
                        |ws: WindowState| window_ops::consumed(event, ws),
                    )
                    &&& final(state).menu_clicks@ == window_ops::clicks_after(
                        event,
                        window_ops::noted_for(old(state).windows(), window_id),
                        window_id,
                        old(state).menu_clicks@,
                    )
                    &&& *final(state) == (Backend {
                        common: CommonState {
                            windows: final(state).common.windows,
                            ..old(state).common
                        },
                        menu_clicks: final(state).menu_clicks,
                        ..*old(state)
                    })
                },
                Some(_) => r == LoopAction::Nothing && *final(state) == *old(state),
                None => event is CloseWindow || *final(state) == *old(state),
            },
            old(self).wf() ==> final(self).wf(),
    {
        match event {
            CommonEvent::Quit => LoopAction::Exit,
            CommonEvent::CreateWindow { window_id } => {
                let attributes = self.creation_attributes(state, window_id);
                LoopAction::Create { window_id, attributes }
            },
            CommonEvent::CloseWindow { window_id } => {
                self.close_window(state, handles, window_id);
                let exit = self.windows.is_empty();
                proof {
                    if exit {
                        assert(self.windows@.dom() =~= Set::<u32>::empty());
                    }
                }
                LoopAction::Closed { window_id, exit }
            },
            CommonEvent::UiTask { task, data } => LoopAction::RunTask { task, data },
            CommonEvent::DockTask => LoopAction::DrainDock { focused: self.focused_window() },
            CommonEvent::TrayTask => LoopAction::DrainTray,
            _ => match target_window(&event) {
                Some(window_id) => if self.windows.contains_key(&window_id) {
                    let (_handled, op) = handle_common_event(state, &event, window_id, platform);
                    LoopAction::Operate { window_id, op }
                } else {
                    LoopAction::Nothing
                },
                None => LoopAction::Nothing,
            },
        }
    }
}

/// Something that happened to a native window. Positions and sizes are in
/// logical pixels. `inner` is where the top left corner of the content is on the
/// screen now, if the platform can say.
pub enum WindowEvent {
    CloseRequested,
    Resized { width: i32, height: i32 },
    Moved { x: i32, y: i32, inner: Option<(i32, i32)> },
    ModifiersChanged(Modifiers),
    KeyboardInput(KeyEvent),
    CursorMoved { x: Float64, y: Float64 },
    /// A button, with where the pointer is now if the platform can be asked,
    /// whether that is within four pixels of the last press, and the time in
    /// nanoseconds.
    MouseInput {
        pressed: bool,
        button: MouseButton,
        pointer: Option<(Float64, Float64)>,
        nearby: bool,
        now: u64,
    },
    MouseWheel { delta: ScrollDelta },
    CursorEntered,
    CursorLeft,
    Focused(bool),
    ScaleFactorChanged { scale: Float64, inner: Option<(i32, i32)> },
    Ime(ImeInput),
    /// Anything that no one is told of.
    Ignored,
}

/// The state once the pointer has been read from the platform.
pub open spec fn with_pointer(ws: WindowState, pointer: Option<(Float64, Float64)>) -> WindowState {
    match pointer {
        Some(p) => WindowState { cursor_position: p, cursor_seen: true, ..ws },
        None => ws,
    }
}

/// Takes over where the pointer is, if the platform could be asked.
pub fn refresh_cursor_position(ws: &mut WindowState, pointer: Option<(Float64, Float64)>)
    ensures
        *final(ws) == with_pointer(*old(ws), pointer),
{
    if let Some(p) = pointer {
        ws.cursor_position = p;
        ws.cursor_seen = true;
    }
}

/// A resize is worth reporting: reporting is armed, and the size is not the one
/// the window had.
pub open spec fn reports_resize(ws: WindowState, width: i32, height: i32) -> bool {
    ws.resize_reporting_armed && ws.current_size != Some((width, height))
}

/// Notes a window's new size and tells the resize handler, unless the resize is
/// part of the window's creation or changes nothing.
pub fn note_resized(state: &mut Backend, window_id: u32, width: i32, height: i32) -> (r: Option<
    HandlerCall,
>)
    ensures
        final(state).only_window(
            *old(state),
            window_id,
            |ws: WindowState| WindowState { current_size: Some((width, height)), ..ws },
        ),
        r == (match (
            window_ops::noted_for(old(state).windows(), window_id),
            old(state).common.handlers.resize_handler,
        ) {
            (Some(ws), Some(to)) if reports_resize(ws, width, height) => Some(
                HandlerCall::Resize { to, window_id, width, height },
            ),
            _ => None,
        }),
{
    let ghost before = *state;
    let handlers = state.common.handlers;
    let r = match state.common.take_window(window_id) {
        Some(mut ws) => {
            let same = match ws.current_size {
                Some((w, h)) => w == width && h == height,
                None => false,
            };
            let report = ws.resize_reporting_armed && !same;
            ws.current_size = Some((width, height));
            state.common.put_window(window_id, ws);
            if report {
                dispatch_resize_event(&handlers, window_id, width, height)
            } else {
                None
            }
        },
        None => None,
    };
    assert(state.windows() =~= backend::updated(
        before.windows(),
        window_id,
        |ws: WindowState| WindowState { current_size: Some((width, height)), ..ws },
    ));
    r
}

/// The state of a window that has moved. Where its content is stays as it was
/// only where the platform cannot say.
pub open spec fn after_window_move(
    ws: WindowState,
    x: i32,
    y: i32,
    inner: Option<(i32, i32)>,
) -> WindowState {
    WindowState {
        pending_position: Some((x, y)),
        current_inner_position: window_ops::first_of(inner, ws.current_inner_position),
        ..ws
    }
}

/// Notes a window's new position, and where its content now is, and tells the
/// move handler.
pub fn note_moved(
    state: &mut Backend,
    window_id: u32,
    x: i32,
    y: i32,
    inner: Option<(i32, i32)>,
) -> (r: Option<HandlerCall>)
    ensures
        final(state).only_window(
            *old(state),
            window_id,
            |ws: WindowState| after_window_move(ws, x, y, inner),
        ),
        r == (match old(state).common.handlers.move_handler {
            Some(to) => Some(HandlerCall::Move { to, window_id, x, y }),
            None => None,
        }),
{
    let ghost before = *state;
    if let Some(mut ws) = state.common.take_window(window_id) {
        ws.pending_position = Some((x, y));
        if inner.is_some() {
            ws.current_inner_position = inner;
        }
        state.common.put_window(window_id, ws);
    }
    assert(state.windows() =~= backend::updated(
        before.windows(),
        window_id,
        |ws: WindowState| after_window_move(ws, x, y, inner),
    ));
    dispatch_move_event(&state.common.handlers, window_id, x, y)
}

/// The calls tell the keyboard handler of a run of modifier edges, in order.
pub open spec fn edge_calls(
    handlers: EventHandlers,
    window_id: u32,
    edges: Seq<keyboard::EdgeView>,
    modifiers: ModifiersState,
    calls: Seq<HandlerCall>,
) -> bool {
    match handlers.keyboard_handler {
        Some(_) => {
            &&& calls.len() == edges.len()
            &&& forall|i: int|
                0 <= i < edges.len() ==> dispatch::keyboard_call(
                    handlers,
                    window_id,
                    edges[i].0,
                    edges[i].1,
                    edges[i].2,
                    modifiers,
                    false,
                    Some(#[trigger] calls[i]),
                )
        },
        None => calls.len() == 0,
    }
}

/// Tells the keyboard handler of the modifier keys that went down or up between
/// two reports, with the modifiers as they are now. What a key event has told
/// already is not told again, and what a key event has to tell, since the report
/// does not know the side, is left to it.
pub fn note_modifiers(
    handlers: &EventHandlers,
    window_id: u32,
    told: &ToldModifiers,
    prev: &Modifiers,
    next: &Modifiers,
) -> (r: Vec<HandlerCall>)
    ensures
        edge_calls(
            *handlers,
            window_id,
            told.told_between(*prev, *next),
            next.state,
            r@,
        ),
{
    let edges = modifier_key_edges(prev, next);
    let ghost view = keyboard::edges_view(edges@);
    let mut calls: Vec<HandlerCall> = Vec::new();
    let mut i: usize = 0;
    while i < edges.len()
        invariant
            i <= edges@.len(),
            view == keyboard::edges_view(edges@),
            edge_calls(
                *handlers,
                window_id,
                told.told_edges(*prev, *next, view.take(i as int)),
                next.state,
                calls@,
            ),
        decreases edges@.len() - i,
    {
        proof {
            assert(view.take(i as int + 1).drop_last() =~= view.take(i as int));
            assert(view[i as int] == keyboard::edge_view(edges@[i as int]));
        }
        let (down, key, code) = edges[i];
        if told.edge_is_told(prev, next, key, down) {
            if let Some(call) = dispatch_raw_keyboard_event(
                handlers,
                window_id,
                down,
                key,
                code,
                next.state,
                false,
            ) {
                calls.push(call);
            }
        }
        i = i + 1;
    }
    assert(view.take(edges@.len() as int) =~= view);
    calls
}

/// The call that tells the enter/leave handler, if there is one.
pub open spec fn enter_leave_call(
    handlers: EventHandlers,
    window_id: u32,
    entered: bool,
    at: (Float64, Float64),
    modifiers: ModifiersState,
) -> Seq<HandlerCall> {
    match handlers.cursor_enter_leave_handler {
        Some(to) => seq![
            HandlerCall::CursorEnterLeave {
                to,
                window_id,
                entered: if entered {
                    1
                } else {
                    0
                },
                x: at.0,
                y: at.1,
                modifiers: modifiers.mask(),
            },
        ],
        None => Seq::empty(),
    }
}

/// The call that tells the mouse-move handler, if there is one.
pub open spec fn move_call(
    handlers: EventHandlers,
    window_id: u32,
    x: Float64,
    y: Float64,
    modifiers: ModifiersState,
) -> Seq<HandlerCall> {
    match handlers.mouse_move_handler {
        Some(to) => seq![
            HandlerCall::MouseMove { to, window_id, x, y, modifiers: modifiers.mask() },
        ],
        None => Seq::empty(),
    }
}

/// Notes where the cursor moved to, and tells of an enter that was put off
/// before it tells of the move.
pub fn note_cursor_moved(
    state: &mut Backend,
    window_id: u32,
    x: Float64,
    y: Float64,
    modifiers: ModifiersState,
) -> (r: Vec<HandlerCall>)
    ensures
        final(state).only_window(
            *old(state),
            window_id,
            |ws: WindowState| ws.after_move(x, y),
        ),
        r@ == (match window_ops::noted_for(old(state).windows(), window_id) {
            Some(ws) if ws.pending_enter => enter_leave_call(
                old(state).common.handlers,
                window_id,
                true,
                (x, y),
                modifiers,
            ),
            _ => Seq::empty(),
        }) + move_call(old(state).common.handlers, window_id, x, y, modifiers),
{
    let ghost before = *state;
    let handlers = state.common.handlers;
    let mut calls: Vec<HandlerCall> = Vec::new();
    if let Some(mut ws) = state.common.take_window(window_id) {
        let enter = ws.note_cursor_move(x, y);
        if enter {
            if let Some(call) = dispatch_cursor_enter_leave_event(
                &handlers,
                &ws,
                window_id,
                true,
                modifiers,
            ) {
                calls.push(call);
            }
        }
        state.common.put_window(window_id, ws);
    }
    assert(state.windows() =~= backend::updated(
        before.windows(),
        window_id,
        |ws: WindowState| ws.after_move(x, y),
    ));
    if let Some(call) = dispatch_mouse_move_event(&handlers, window_id, x, y, modifiers) {
        calls.push(call);
    }
    assert(calls@ =~= (match window_ops::noted_for(before.windows(), window_id) {
        Some(ws) if ws.pending_enter => enter_leave_call(
            before.common.handlers,
            window_id,
            true,
            (x, y),
            modifiers,
        ),
        _ => Seq::empty(),
    }) + move_call(before.common.handlers, window_id, x, y, modifiers));
    calls
}

/// Notes that the cursor entered, and tells of it if the cursor has been seen
/// inside; otherwise the next move tells of it.
pub fn note_cursor_entered(state: &mut Backend, window_id: u32, modifiers: ModifiersState) -> (r:
    Vec<HandlerCall>)
    ensures
        final(state).only_window(*old(state), window_id, |ws: WindowState| ws.after_enter()),
        r@ == (match window_ops::noted_for(old(state).windows(), window_id) {
            Some(ws) if ws.cursor_seen => enter_leave_call(
                old(state).common.handlers,
                window_id,
                true,
                ws.cursor_position,
                modifiers,
            ),
            _ => Seq::empty(),
        }),
{
    let ghost before = *state;
    let handlers = state.common.handlers;
    let mut calls: Vec<HandlerCall> = Vec::new();
    if let Some(mut ws) = state.common.take_window(window_id) {
        let now = ws.note_cursor_entered();
        if now {
            if let Some(call) = dispatch_cursor_enter_leave_event(
                &handlers,
                &ws,
                window_id,
                true,
                modifiers,
            ) {
                calls.push(call);
            }
        }
        state.common.put_window(window_id, ws);
    }
    assert(state.windows() =~= backend::updated(
        before.windows(),
        window_id,
        |ws: WindowState| ws.after_enter(),
    ));
    assert(calls@ =~= (match window_ops::noted_for(before.windows(), window_id) {
        Some(ws) if ws.cursor_seen => enter_leave_call(
            before.common.handlers,
            window_id,
            true,
            ws.cursor_position,
            modifiers,
        ),
        _ => Seq::empty(),
    }));
    calls
}

/// Notes that the cursor left, and tells of it at its last position.
pub fn note_cursor_left(state: &mut Backend, window_id: u32, modifiers: ModifiersState) -> (r: Vec<
    HandlerCall,
>)
    ensures
        final(state).only_window(*old(state), window_id, |ws: WindowState| ws.after_leave()),
        r@ == (match window_ops::noted_for(old(state).windows(), window_id) {
            Some(ws) => enter_leave_call(
                old(state).common.handlers,
                window_id,
                false,
                ws.cursor_position,
                modifiers,
            ),
            None => Seq::empty(),
        }),
{
    let ghost before = *state;
    let handlers = state.common.handlers;
    let mut calls: Vec<HandlerCall> = Vec::new();
    if let Some(mut ws) = state.common.take_window(window_id) {
        ws.note_cursor_left();
        if let Some(call) = dispatch_cursor_enter_leave_event(
            &handlers,
            &ws,
            window_id,
            false,
            modifiers,
        ) {
            calls.push(call);
        }
        state.common.put_window(window_id, ws);
    }
    assert(state.windows() =~= backend::updated(
        before.windows(),
        window_id,
        |ws: WindowState| ws.after_leave(),
    ));
    assert(calls@ =~= (match window_ops::noted_for(before.windows(), window_id) {
        Some(ws) => enter_leave_call(
            before.common.handlers,
            window_id,
            false,
            ws.cursor_position,
            modifiers,
        ),
        None => Seq::empty(),
    }));
    calls
}

/// A window's state after a button event: the pointer is taken over, and a press
/// that someone is told of is remembered.
pub open spec fn after_mouse_input(
    handlers: EventHandlers,
    ws: WindowState,
    pressed: bool,
    button: MouseButton,
    pointer: Option<(Float64, Float64)>,
    nearby: bool,
    now: u64,
) -> WindowState {
    let at = with_pointer(ws, pointer);
    if handlers.mouse_click_handler is Some && crate::mouse::button_number(button) >= 0 {
        dispatch::after_button(at, pressed, button, nearby, now)
    } else {
        at
    }
}

/// The call that tells the mouse-click handler of a button event, if there is a
/// handler and the button is a known one.
pub open spec fn click_call(
    handlers: EventHandlers,
    ws: WindowState,
    window_id: u32,
    pressed: bool,
    button: MouseButton,
    pointer: Option<(Float64, Float64)>,
    nearby: bool,
    now: u64,
    modifiers: ModifiersState,
) -> Seq<HandlerCall> {
    let at = with_pointer(ws, pointer);
    match handlers.mouse_click_handler {
        Some(to) if crate::mouse::button_number(button) >= 0 => seq![
            HandlerCall::MouseClick {
                to,
                window_id,
                state: if pressed {
                    crate::mouse::LAUFEY_MOUSE_PRESSED
                } else {
                    crate::mouse::LAUFEY_MOUSE_RELEASED
                },
                button: crate::mouse::button_number(button),
                x: at.cursor_position.0,
                y: at.cursor_position.1,
                modifiers: modifiers.mask(),
                click_count: dispatch::reported_count(at, pressed, button, nearby, now) as i32,
            },
        ],
        _ => Seq::empty(),
    }
}

/// Takes in a button event and tells the mouse-click handler.
pub fn note_mouse_input(
    state: &mut Backend,
    window_id: u32,
    pressed: bool,
    button: MouseButton,
    pointer: Option<(Float64, Float64)>,
    nearby: bool,
    now: u64,
    modifiers: ModifiersState,
) -> (r: Vec<HandlerCall>)
    requires
        window_ops::noted_for(old(state).windows(), window_id) matches Some(ws)
            ==> dispatch::count_fits(ws, pressed, button, nearby, now),
    ensures
        final(state).only_window(
            *old(state),
            window_id,
            |ws: WindowState|
                after_mouse_input(
                    old(state).common.handlers,
                    ws,
                    pressed,
                    button,
                    pointer,
                    nearby,
                    now,
                ),
        ),
        r@ == (match window_ops::noted_for(old(state).windows(), window_id) {
            Some(ws) => click_call(
                old(state).common.handlers,
                ws,
                window_id,
                pressed,
                button,
                pointer,
                nearby,
                now,
                modifiers,
            ),
            None => Seq::empty(),
        }),
{
    let ghost before = *state;
    let handlers = state.common.handlers;
    let mut calls: Vec<HandlerCall> = Vec::new();
    if let Some(mut ws) = state.common.take_window(window_id) {
        refresh_cursor_position(&mut ws, pointer);
        if let Some(call) = dispatch_mouse_click_event(
            &handlers,
            &mut ws,
            window_id,
            pressed,
            button,
            modifiers,
            nearby,
            now,
        ) {
            calls.push(call);
        }
        state.common.put_window(window_id, ws);
    }
    assert(state.windows() =~= backend::updated(
        before.windows(),
        window_id,
        |ws: WindowState|
            after_mouse_input(
                before.common.handlers,
                ws,
                pressed,
                button,
                pointer,
                nearby,
                now,
            ),
    ));
    assert(calls@ =~= (match window_ops::noted_for(before.windows(), window_id) {
        Some(ws) => click_call(
            before.common.handlers,
            ws,
            window_id,
            pressed,
            button,
            pointer,
            nearby,
            now,
            modifiers,
        ),
        None => Seq::empty(),
    }));
    calls
}

/// The state of a window whose scale has changed, and with it where its content
/// is in logical pixels.
pub open spec fn after_rescale(
    ws: WindowState,
    scale: Float64,
    inner: Option<(i32, i32)>,
) -> WindowState {
    WindowState {
        current_scale: scale,
        current_inner_position: window_ops::first_of(inner, ws.current_inner_position),
        ..ws
    }
}

/// Notes a window's new scale, and where its content now is.
pub fn note_scale(
    state: &mut Backend,
    window_id: u32,
    scale: Float64,
    inner: Option<(i32, i32)>,
)
    ensures
        final(state).only_window(
            *old(state),
            window_id,
            |ws: WindowState| after_rescale(ws, scale, inner),
        ),
{
    let ghost before = *state;
    if let Some(mut ws) = state.common.take_window(window_id) {
        ws.current_scale = scale;
        if inner.is_some() {
            ws.current_inner_position = inner;
        }
        state.common.put_window(window_id, ws);
    }
    assert(state.windows() =~= backend::updated(
        before.windows(),
        window_id,
        |ws: WindowState| after_rescale(ws, scale, inner),
    ));
}

/// Takes in a report of the input method about a window.
pub fn note_ime(state: &mut Backend, window_id: u32, input: ImeInput) -> (r: Vec<HandlerCall>)
    ensures
        final(state).only_window(
            *old(state),
            window_id,
            |ws: WindowState| WindowState { composition: ws.composition.after(input), ..ws },
        ),
        match window_ops::noted_for(old(state).windows(), window_id) {
            Some(ws) => composition::ime_calls(
                old(state).common.handlers,
                window_id,
                ws.composition.steps(input),
                r@,
            ),
            None => r@.len() == 0,
        },
{
    let ghost before = *state;
    let handlers = state.common.handlers;
    let calls = match state.common.take_window(window_id) {
        Some(mut ws) => {
            let calls = dispatch_ime_event(&handlers, &mut ws, window_id, input);
            state.common.put_window(window_id, ws);
            calls
        },
        None => Vec::new(),
    };
    assert(state.windows() =~= backend::updated(
        before.windows(),
        window_id,
        |ws: WindowState| WindowState { composition: ws.composition.after(input), ..ws },
    ));
    calls
}

/// Closes out the creation of a window, once the event loop first goes idle:
/// takes over the geometry the window really has and arms resize reporting.
/// Says whether this was the time it did so.
pub fn settle_creation_geometry(state: &mut Backend, window_id: u32, geometry: Geometry) -> (r: bool)
    ensures
        final(state).only_window(
            *old(state),
            window_id,
            |ws: WindowState|
                window_ops::armed(ws, geometry.size, geometry.scale, geometry.inner),
        ),
        r == (window_ops::noted_for(old(state).windows(), window_id) matches Some(ws)
            && !ws.resize_reporting_armed),
{
    let ghost before = *state;
    let r = match state.common.take_window(window_id) {
        Some(mut ws) => {
            let first = arm_resize_reporting(
                &mut ws,
                geometry.size,
                geometry.scale,
                geometry.inner,
            );
            state.common.put_window(window_id, ws);
            first
        },
        None => false,
    };
    assert(state.windows() =~= backend::updated(
        before.windows(),
        window_id,
        |ws: WindowState| window_ops::armed(ws, geometry.size, geometry.scale, geometry.inner),
    ));
    r
}

/// What an event of a native window comes to: handlers to call, in order, a
/// window that was let go of, and whether the loop ends.
pub struct EventOutcome {
    pub calls: Vec<HandlerCall>,
    pub closed: Option<u32>,
    pub exit: bool,
}

/// An optional call as a sequence.
pub open spec fn call_seq(call: Option<HandlerCall>) -> Seq<HandlerCall> {
    match call {
        Some(c) => seq![c],
        None => Seq::empty(),
    }
}

fn call_vec(call: Option<HandlerCall>) -> (r: Vec<HandlerCall>)
    ensures
        r@ == call_seq(call),
{
    let mut calls: Vec<HandlerCall> = Vec::new();
    if let Some(c) = call {
        calls.push(c);
    }
    assert(calls@ =~= call_seq(call));
    calls
}

/// A window once its modifiers have been reported.
pub open spec fn after_report(info: WindowInfo, next: Modifiers) -> WindowInfo {
    WindowInfo {
        modifiers: next,
        told: info.told.after_report(info.modifiers, next),
        ..info
    }
}

/// The keyboard handler is told of a key event: of each, but for a modifier
/// key's press or release that a report of the modifiers has told under the same
/// code.
pub open spec fn key_is_told(info: WindowInfo, key: KeyEvent) -> bool {
    !keyboard::modifier_named(key.logical_key) || info.told.tells_key(
        keyboard::key_text(key.logical_key),
        keyboard::code_text(key.physical_key),
        key.pressed,
        key.repeat,
    )
}

/// A window once a key event has come.
pub open spec fn after_key(info: WindowInfo, key: KeyEvent) -> WindowInfo {
    WindowInfo {
        told: if keyboard::modifier_named(key.logical_key) {
            info.told.after_key(
                info.modifiers.state,
                keyboard::key_text(key.logical_key),
                keyboard::code_text(key.physical_key),
                key.pressed,
                key.repeat,
            )
        } else {
            info.told
        },
        ..info
    }
}

/// Whether the keyboard handler is told of a key event, and how far the modifier
/// keys have been told after it.
fn note_key_event(info: &WindowInfo, key: &KeyEvent) -> (r: (bool, ToldModifiers))
    ensures
        r.0 == key_is_told(*info, *key),
        r.1 == after_key(*info, *key).told,
{
    if !is_modifier_named_key(&key.logical_key) {
        return (true, info.told);
    }
    let name = winit_key_to_string(&key.logical_key);
    let code = winit_code_to_string(&key.physical_key);
    let tells = info.told.key_event_is_told(name.as_str(), code.as_str(), key.pressed, key.repeat);
    let told = info.told.note_key(
        info.modifiers.state,
        name.as_str(),
        code.as_str(),
        key.pressed,
        key.repeat,
    );
    (tells, told)
}

/// The focus after a window gained or lost it.
pub open spec fn focus_after(focus: Option<u32>, window_id: u32, focused: bool) -> Option<u32> {
    if focused {
        Some(window_id)
    } else if focus == Some(window_id) {
        None
    } else {
        focus
    }
}

impl App {
    /// Our id of a native window that exists.
    pub open spec fn existing(self, winit_id: u64) -> Option<u32> {
        if self.winit_to_laufey@.contains_key(winit_id) && self.windows@.contains_key(
            self.winit_to_laufey@[winit_id],
        ) {
            Some(self.winit_to_laufey@[winit_id])
        } else {
            None
        }
    }

    /// The same native ids lead to the same windows of ours.
    pub open spec fn same_ids(self, before: App) -> bool {
        self.winit_to_laufey@ == before.winit_to_laufey@
    }

    /// What an event does to the windows and the focus (`before` and `self`),
    /// and to the backend's state.
    pub open spec fn event_effect(
        self,
        before: App,
        state0: Backend,
        state1: Backend,
        window_id: u32,
        event: WindowEvent,
    ) -> bool {
        let handlers = state0.common.handlers;
        &&& self.same_ids(before)
        &&& match event {
            WindowEvent::ModifiersChanged(next) => self.windows@ == before.windows@.insert(
                window_id,
                after_report(before.windows@[window_id], next),
            ) && self.focused_laufey_id == before.focused_laufey_id,
            WindowEvent::KeyboardInput(key) => self.windows@ == before.windows@.insert(
                window_id,
                after_key(before.windows@[window_id], key),
            ) && self.focused_laufey_id == before.focused_laufey_id,
            WindowEvent::Focused(focused) => self.windows@ == before.windows@
                && self.focused_laufey_id == focus_after(
                before.focused_laufey_id,
                window_id,
                focused,
            ),
            _ => self.windows@ == before.windows@ && self.focused_laufey_id
                == before.focused_laufey_id,
        }
        &&& match event {
            WindowEvent::Resized { width, height } => state1.only_window(
                state0,
                window_id,
                |ws: WindowState| WindowState { current_size: Some((width, height)), ..ws },
            ),
            WindowEvent::Moved { x, y, inner } => state1.only_window(
                state0,
                window_id,
                |ws: WindowState| after_window_move(ws, x, y, inner),
            ),
            WindowEvent::CursorMoved { x, y } => state1.only_window(
                state0,
                window_id,
                |ws: WindowState| ws.after_move(x, y),
            ),
            WindowEvent::CursorEntered => state1.only_window(
                state0,
                window_id,
                |ws: WindowState| ws.after_enter(),
            ),
            WindowEvent::CursorLeft => state1.only_window(
                state0,
                window_id,
                |ws: WindowState| ws.after_leave(),
            ),
            WindowEvent::MouseInput { pressed, button, pointer, nearby, now } => {
                state1.only_window(
                    state0,
                    window_id,
                    |ws: WindowState|
                        after_mouse_input(handlers, ws, pressed, button, pointer, nearby, now),
                )
            },
            WindowEvent::Ime(input) => state1.only_window(
                state0,
                window_id,
                |ws: WindowState|
                    WindowState { composition: ws.composition.after(input), ..ws },
            ),
            WindowEvent::ScaleFactorChanged { scale, inner } => state1.only_window(
                state0,
                window_id,
                |ws: WindowState| after_rescale(ws, scale, inner),
            ),
            _ => state1 == state0,
        }
    }
}

/// The handlers that an event calls, and with what. `info` is the native window
/// before the event.
pub open spec fn event_calls(
    state: Backend,
    window_id: u32,
    info: WindowInfo,
    event: WindowEvent,
    calls: Seq<HandlerCall>,
) -> bool {
    let modifiers = info.modifiers;
    let handlers = state.common.handlers;
    let noted = window_ops::noted_for(state.windows(), window_id);
    match event {
        WindowEvent::CloseRequested => calls == (match handlers.close_requested_handler {
            Some(to) => seq![HandlerCall::CloseRequested { to, window_id }],
            None => Seq::empty(),
        }),
        WindowEvent::Resized { width, height } => calls == (match (
            noted,
            handlers.resize_handler,
        ) {
            (Some(ws), Some(to)) if reports_resize(ws, width, height) => seq![
                HandlerCall::Resize { to, window_id, width, height },
            ],
            _ => Seq::empty(),
        }),
        WindowEvent::Moved { x, y, .. } => calls == (match handlers.move_handler {
            Some(to) => seq![HandlerCall::Move { to, window_id, x, y }],
            None => Seq::empty(),
        }),
        WindowEvent::ModifiersChanged(next) => edge_calls(
            handlers,
            window_id,
            info.told.told_between(modifiers, next),
            next.state,
            calls,
        ),
        WindowEvent::KeyboardInput(key) => if handlers.keyboard_handler is Some && noted is Some
            && key_is_told(info, key) {
            calls.len() == 1 && dispatch::keyboard_call(
                handlers,
                window_id,
                key.pressed,
                keyboard::key_text(key.logical_key),
                keyboard::code_text(key.physical_key),
                modifiers.state,
                key.repeat,
                Some(calls[0]),
            )
        } else {
            calls.len() == 0
        },
        WindowEvent::CursorMoved { x, y } => calls == (match noted {
            Some(ws) if ws.pending_enter => enter_leave_call(
                handlers,
                window_id,
                true,
                (x, y),
                modifiers.state,
            ),
            _ => Seq::empty(),
        }) + move_call(handlers, window_id, x, y, modifiers.state),
        WindowEvent::MouseInput { pressed, button, pointer, nearby, now } => calls == (
        match noted {
            Some(ws) => click_call(
                handlers,
                ws,
                window_id,
                pressed,
                button,
                pointer,
                nearby,
                now,
                modifiers.state,
            ),
            None => Seq::empty(),
        }),
        WindowEvent::MouseWheel { delta } => calls == (match (noted, handlers.wheel_handler) {
            (Some(ws), Some(to)) => {
                let (dx, dy, mode) = match delta {
                    ScrollDelta::Line(dx, dy) => (dx, dy, crate::mouse::LAUFEY_WHEEL_DELTA_LINE),
                    ScrollDelta::Pixel(dx, dy) => (dx, dy, crate::mouse::LAUFEY_WHEEL_DELTA_PIXEL),
                };
                seq![
                    HandlerCall::Wheel {
                        to,
                        window_id,
                        delta_x: dx,
                        delta_y: dy.negated(),
                        x: ws.cursor_position.0,
                        y: ws.cursor_position.1,
                        modifiers: modifiers.state.mask(),
                        delta_mode: mode,
                    },
                ]
            },
            _ => Seq::empty(),
        }),
        WindowEvent::CursorEntered => calls == (match noted {
            Some(ws) if ws.cursor_seen => enter_leave_call(
                handlers,
                window_id,
                true,
                ws.cursor_position,
                modifiers.state,
            ),
            _ => Seq::empty(),
        }),
        WindowEvent::CursorLeft => calls == (match noted {
            Some(ws) => enter_leave_call(
                handlers,
                window_id,
                false,
                ws.cursor_position,
                modifiers.state,
            ),
            None => Seq::empty(),
        }),
        WindowEvent::Focused(focused) => calls == (match handlers.focused_handler {
            Some(to) => seq![
                HandlerCall::Focused {
                    to,
                    window_id,
                    focused: if focused {
                        1
                    } else {
                        0
                    },
                },
            ],
            None => Seq::empty(),
        }),
        WindowEvent::Ime(input) => match noted {
            Some(ws) => composition::ime_calls(
                handlers,
                window_id,
                ws.composition.steps(input),
                calls,
            ),
            None => calls.len() == 0,
        },
        _ => calls == Seq::<HandlerCall>::empty(),
    }
}

impl App {
    /// Takes in an event of a native window. Events of windows that do not exist
    /// come to nothing. A close request that no handler takes closes the window,
    /// and the last window that closes ends the loop.
    pub fn window_event(
        &mut self,
        state: &mut Backend,
        handles: &mut WindowHandles,
        winit_id: u64,
        event: WindowEvent,
    ) -> (r: EventOutcome)
        requires
            event matches WindowEvent::MouseInput { pressed, button, nearby, now, .. } ==> (old(
                self,
            ).existing(winit_id) matches Some(id) ==> (window_ops::noted_for(
                old(state).windows(),
                id,
            ) matches Some(ws) ==> dispatch::count_fits(ws, pressed, button, nearby, now))),
        ensures
            match old(self).existing(winit_id) {
                None => {
                    &&& *final(self) == *old(self) && *final(state) == *old(state)
                    &&& *final(handles) == *old(handles)
                    &&& r.calls@ == Seq::<HandlerCall>::empty() && r.closed is None && !r.exit
                },
                Some(id) => {
                    &&& event_calls(
                        *old(state),
                        id,
                        old(self).windows@[id],
                        event,
                        r.calls@,
                    )
                    &&& if event is CloseRequested && old(
                        state,
                    ).common.handlers.close_requested_handler is None {
                        &&& App::window_closed(
                            (*old(self), *old(state), *old(handles)),
                            (*final(self), *final(state), *final(handles)),
                            id,
                        )
                        &&& r.closed == Some(id)
                        &&& r.exit == (final(self).windows@.dom() == Set::<u32>::empty())
                    } else {
                        &&& final(self).event_effect(
                            *old(self),
                            *old(state),
                            *final(state),
                            id,
                            event,
                        )
                        &&& *final(handles) == *old(handles)
                        &&& r.closed is None && !r.exit
                    }
                },
            },
            old(self).wf() ==> final(self).wf(),
    {
        let nothing = EventOutcome { calls: Vec::new(), closed: None, exit: false };
        let window_id: u32 = match self.laufey_id(winit_id) {
            Some(id) => id,
            None => {
                return nothing;
            },
        };
        let info = match self.windows.get(&window_id) {
            Some(info) => *info,
            None => {
                return nothing;
            },
        };
        let mods = info.modifiers.state;
        let ghost state0 = *state;
        let calls = match event {
            WindowEvent::CloseRequested => {
                let (proceed, call) = dispatch_close_requested_event(
                    &state.common.handlers,
                    window_id,
                );
                let calls = call_vec(call);
                if proceed {
                    self.close_window(state, handles, window_id);
                    let exit = self.windows.is_empty();
                    proof {
                        if exit {
                            assert(self.windows@.dom() =~= Set::<u32>::empty());
                        }
                    }
                    return EventOutcome { calls, closed: Some(window_id), exit };
                }
                calls
            },
            WindowEvent::Resized { width, height } => call_vec(
                note_resized(state, window_id, width, height),
            ),
            WindowEvent::Moved { x, y, inner } => call_vec(
                note_moved(state, window_id, x, y, inner),
            ),
            WindowEvent::ModifiersChanged(next) => {
                let calls = note_modifiers(
                    &state.common.handlers,
                    window_id,
                    &info.told,
                    &info.modifiers,
                    &next,
                );
                let told = info.told.note_report(&info.modifiers, &next);
                self.windows.insert(
                    window_id,
                    WindowInfo { winit_id: info.winit_id, modifiers: next, told },
                );
                calls
            },
            WindowEvent::KeyboardInput(key) => {
                let (tells, told) = note_key_event(&info, &key);
                self.windows.insert(
                    window_id,
                    WindowInfo { winit_id: info.winit_id, modifiers: info.modifiers, told },
                );
                if tells && state.common.window(window_id).is_some() {
                    call_vec(
                        dispatch_keyboard_event(&state.common.handlers, window_id, &key, mods),
                    )
                } else {
                    Vec::new()
                }
            },
            WindowEvent::CursorMoved { x, y } => note_cursor_moved(state, window_id, x, y, mods),
            WindowEvent::MouseInput { pressed, button, pointer, nearby, now } => note_mouse_input(
                state,
                window_id,
                pressed,
                button,
                pointer,
                nearby,
                now,
                mods,
            ),
            WindowEvent::MouseWheel { delta } => match state.common.window(window_id) {
                Some(ws) => call_vec(
                    dispatch_wheel_event(&state.common.handlers, ws, window_id, delta, mods),
                ),
                None => Vec::new(),
            },
            WindowEvent::CursorEntered => note_cursor_entered(state, window_id, mods),
            WindowEvent::CursorLeft => note_cursor_left(state, window_id, mods),
            WindowEvent::Focused(focused) => {
                if focused {
                    self.focused_laufey_id = Some(window_id);
                } else {
                    match self.focused_laufey_id {
                        Some(f) => {
                            if f == window_id {
                                self.focused_laufey_id = None;
                            }
                        },
                        None => {},
                    }
                }
                call_vec(dispatch_focused_event(&state.common.handlers, window_id, focused))
            },
            WindowEvent::ScaleFactorChanged { scale, inner } => {
                note_scale(state, window_id, scale, inner);
                Vec::new()
            },
            WindowEvent::Ime(input) => note_ime(state, window_id, input),
            WindowEvent::Ignored => Vec::new(),
        };
        EventOutcome { calls, closed: None, exit: false }
    }
}

/// No resize is reported between a window's creation and the first idle of the
/// loop, and after that none that leaves the size as it was.
pub proof fn creation_resizes_are_silent(
    ws: WindowState,
    width: i32,
    height: i32,
    geometry: Geometry,
)
    ensures
        !ws.resize_reporting_armed ==> !reports_resize(ws, width, height),
        !ws.resize_reporting_armed && geometry.size == Some((width, height)) ==> !reports_resize(
            window_ops::armed(ws, geometry.size, geometry.scale, geometry.inner),
            width,
            height,
        ),
        !reports_resize(
            WindowState { current_size: Some((width, height)), ..ws },
            width,
            height,
        ),
{
}

/// The calls are one call of the keyboard handler, which tells of the key event
/// with its own key, code and direction.
pub open spec fn one_call_of_key(
    handlers: EventHandlers,
    window_id: u32,
    key: KeyEvent,
    modifiers: ModifiersState,
    calls: Seq<HandlerCall>,
) -> bool {
    calls.len() == 1 && dispatch::keyboard_call(
        handlers,
        window_id,
        key.pressed,
        keyboard::key_text(key.logical_key),
        keyboard::code_text(key.physical_key),
        modifiers,
        key.repeat,
        Some(calls[0]),
    )
}

/// A press or release of a modifier key is one call of the keyboard handler: the
/// key event and the report of the modifiers that come of it, in whichever
/// order, make one between them, and that one has the code of the key. If the
/// report knows a side, it is that of the key.
pub proof fn modifier_change_is_one_call(
    state: Backend,
    window_id: u32,
    info: WindowInfo,
    key: KeyEvent,
    next: Modifiers,
    key_calls: Seq<HandlerCall>,
    report_calls: Seq<HandlerCall>,
)
    requires
        state.common.handlers.keyboard_handler is Some,
        state.windows().contains_key(window_id),
        keyboard::modifier_named(key.logical_key) && !key.repeat,
        ({
            let name = keyboard::key_text(key.logical_key);
            let edges = keyboard::edges_between(info.modifiers, next);
            let side = modifier_keys::side_of(info.modifiers, next, key.pressed, name);
            &&& edges.len() == 1 && edges[0].0 == key.pressed && edges[0].1 == name
            &&& side matches Some(right) ==> keyboard::code_text(key.physical_key)
                == modifier_keys::side_code(name, right)
            &&& !(info.told.of(name) matches modifier_keys::Told::ByKey { down } && down
                == key.pressed)
            &&& !(info.told.of(name) matches modifier_keys::Told::ByReport { down, .. } && down
                == key.pressed)
        }),
    ensures
        event_calls(state, window_id, info, WindowEvent::KeyboardInput(key), key_calls)
            && event_calls(
            state,
            window_id,
            after_key(info, key),
            WindowEvent::ModifiersChanged(next),
            report_calls,
        ) ==> one_call_of_key(
            state.common.handlers,
            window_id,
            key,
            info.modifiers.state,
            key_calls + report_calls,
        ),
        event_calls(state, window_id, info, WindowEvent::ModifiersChanged(next), report_calls)
            && event_calls(
            state,
            window_id,
            after_report(info, next),
            WindowEvent::KeyboardInput(key),
            key_calls,
        ) ==> one_call_of_key(
            state.common.handlers,
            window_id,
            key,
            next.state,
            report_calls + key_calls,
        ),
{
    let name = keyboard::key_text(key.logical_key);
    let code = keyboard::code_text(key.physical_key);
    let prev = info.modifiers;
    let edges = keyboard::edges_between(prev, next);
    assert(keyboard::has_edge(edges, key.pressed, name));
    modifier_keys::modifier_change_is_told_once(info.told, prev, next, key.pressed, name, code);
    reveal_with_fuel(ToldModifiers::told_edges, 2);
    assert(edges.drop_last().len() == 0);
    let keyed = after_key(info, key).told;
    if keyed.told_between(prev, next).len() > 0 {
        assert(keyed.told_between(prev, next)[0] == edges[0]);
        assert(keyboard::has_edge(keyed.told_between(prev, next), key.pressed, name));
    }
    let reported = info.told.after_report(prev, next);
    if !reported.tells_key(name, code, key.pressed, false) {
        modifier_keys::held_back_key_was_told(
            info.told,
            prev,
            next,
            key.pressed,
            name,
            code,
            false,
        );
        assert(info.told.told_between(prev, next)[0] == (key.pressed, name, code));
    } else if info.told.told_between(prev, next).len() > 0 {
        assert(info.told.told_between(prev, next)[0] == edges[0]);
        assert(keyboard::has_edge(info.told.told_between(prev, next), key.pressed, name));
    }
}

} // verus!
