//! The backend's entry points: what a runtime asks for is noted in the window's
//! state, and an event tells the event loop to carry it out.

use crate::dispatch::{dispatch_close_requested_event, HandlerCall};
use crate::float::Float64;
use crate::menu;
use crate::menu::parse_menu_template;
use crate::menu_build::{dispatch_menu_click_by_id, MenuCallbackInfo};
use crate::raw_value;
use crate::raw_value::LaufeyValue;
use crate::shell::{DockOp, TrayOp};
use crate::text;
use crate::text_map::TextMap;
use crate::window_state;
use crate::window_state::{
    Callback, CommonState, EventHandlers, ImeCursorArea, PendingContextMenu, PendingMenu, WindowState,
    LAUFEY_WINDOW_FLAG_FRAMELESS, LAUFEY_WINDOW_FLAG_HIDDEN,
};
use vstd::prelude::*;

verus! {

/// Something for the event loop to do. What it is to be done with waits in the
/// window's state.
#[derive(Clone, Copy, Debug, PartialEq, Eq, Structural)]
pub enum CommonEvent {
    CreateWindow { window_id: u32 },
    CloseWindow { window_id: u32 },
    SetTitle { window_id: u32 },
    SetWindowSize { window_id: u32 },
    SetWindowPosition { window_id: u32 },
    SetResizable { window_id: u32 },
    SetAlwaysOnTop { window_id: u32 },
    SetClickPassthrough { window_id: u32 },
    Show { window_id: u32 },
    Hide { window_id: u32 },
    Focus { window_id: u32 },
    SetApplicationMenu { window_id: u32 },
    ShowContextMenu { window_id: u32 },
    SetImeAllowed { window_id: u32 },
    SetImeCursorArea { window_id: u32 },
    Quit,
    UiTask { task: usize, data: usize },
    DockTask,
    TrayTask,
}

/// The backend's state: the windows and handlers, the events that wait for the
/// event loop, the next window and tray ids, who answers clicks on menu items,
/// and what the dock and the tray have been asked for.
pub struct Backend {
    pub common: CommonState,
    pub queue: Vec<CommonEvent>,
    pub next_window_id: u32,
    pub menu_clicks: TextMap<MenuCallbackInfo>,
    pub next_tray_id: u32,
    pub dock_ops: Vec<DockOp>,
    pub tray_ops: Vec<TrayOp>,
}

/// The id that is handed out after `id`.
pub open spec fn id_after(id: u32) -> u32 {
    if id == u32::MAX {
        0
    } else {
        (id + 1) as u32
    }
}

/// Hands out a window id. Ids count up from 1 and start over at 0 once all have
/// been used.
pub fn allocate_window_id(next: &mut u32) -> (r: u32)
    ensures
        r == *old(next),
        *final(next) == id_after(*old(next)),
{
    let id: u32 = *next;
    *next = id.wrapping_add(1);
    id
}

/// The id that comes `n` allocations after `id`.
pub open spec fn id_after_n(id: u32, n: nat) -> u32
    decreases n,
{
    if n == 0 {
        id
    } else {
        id_after(id_after_n(id, (n - 1) as nat))
    }
}

proof fn ids_count_up(id: u32, n: nat)
    ensures
        id_after_n(id, n) == (id + n) % 0x1_0000_0000,
    decreases n,
{
    if n > 0 {
        ids_count_up(id, (n - 1) as nat);
    }
}

/// No id is handed out twice among fewer than 2^32 allocations.
pub proof fn window_ids_are_distinct(id: u32, i: nat, j: nat)
    requires
        i < j,
        j - i < 0x1_0000_0000,
    ensures
        id_after_n(id, i) != id_after_n(id, j),
{
    ids_count_up(id, i);
    ids_count_up(id, j);
}

/// The windows once the one with the id, if there is one, has been changed.
pub open spec fn updated(
    windows: Map<u32, WindowState>,
    window_id: u32,
    change: spec_fn(WindowState) -> WindowState,
) -> Map<u32, WindowState> {
    if windows.contains_key(window_id) {
        windows.insert(window_id, change(windows[window_id]))
    } else {
        windows
    }
}

/// Whether a requested flag bit is set.
pub open spec fn has_flag(flags: u32, flag: u32) -> bool {
    flags & flag != 0
}

/// The window was created hidden and has not been shown since.
pub open spec fn awaits_first_show(ws: WindowState) -> bool {
    has_flag(ws.pending_flags, LAUFEY_WINDOW_FLAG_HIDDEN) && ws.pending_visible == Some(false)
}

/// The flags of a window once it has been shown: the one that had it created
/// hidden has done its work.
pub open spec fn flags_once_shown(flags: u32) -> u32 {
    if has_flag(flags, LAUFEY_WINDOW_FLAG_HIDDEN) {
        flags & !LAUFEY_WINDOW_FLAG_HIDDEN
    } else {
        flags
    }
}

/// The state of a window that is shown.
pub open spec fn shown(ws: WindowState) -> WindowState {
    WindowState {
        pending_visible: Some(true),
        pending_flags: flags_once_shown(ws.pending_flags),
        ..ws
    }
}

/// Showing a window takes away no flag but the one that had it created hidden.
pub proof fn showing_keeps_the_other_flags(flags: u32, flag: u32)
    requires
        flag & LAUFEY_WINDOW_FLAG_HIDDEN == 0,
    ensures
        has_flag(flags_once_shown(flags), flag) == has_flag(flags, flag),
        !has_flag(flags_once_shown(flags), LAUFEY_WINDOW_FLAG_HIDDEN),
{
    let hidden: u32 = LAUFEY_WINDOW_FLAG_HIDDEN;
    assert((flags & !hidden) & flag == flags & flag && (flags & !hidden) & hidden == 0)
        by (bit_vector)
        requires
            flag & hidden == 0,
    ;
}

/// What the platform says about the chrome of a decorated window, in logical
/// pixels. Only Windows and macOS can tell before the window exists.
#[derive(Clone, Copy, Debug, PartialEq, Eq, Structural)]
pub enum FrameChrome {
    Unmeasured,
    Windows { dx: i32, dy: i32 },
    MacOs { dx: i32, dy: i32 },
}

/// How far the content of a window is offset from its frame.
pub open spec fn frame_offset(flags: u32, chrome: FrameChrome) -> (i32, i32) {
    if has_flag(flags, LAUFEY_WINDOW_FLAG_FRAMELESS) {
        (0, 0)
    } else {
        match chrome {
            FrameChrome::Unmeasured => (0, 0),
            FrameChrome::Windows { dx, dy } => (dx, dy),
            FrameChrome::MacOs { dx, dy } => (
                if dx < 0 {
                    0
                } else {
                    dx
                },
                if dy < 0 {
                    0
                } else {
                    dy
                },
            ),
        }
    }
}

/// How far the content of a window will be offset from its frame, before the
/// window exists: by the chrome, which a frameless window has none of.
pub fn frame_offset_hint(flags: u32, chrome: FrameChrome) -> (r: (i32, i32))
    ensures
        r == frame_offset(flags, chrome),
{
    if flags & LAUFEY_WINDOW_FLAG_FRAMELESS != 0 {
        return (0, 0);
    }
    match chrome {
        FrameChrome::Unmeasured => (0, 0),
        FrameChrome::Windows { dx, dy } => (dx, dy),
        FrameChrome::MacOs { dx, dy } => (
            if dx < 0 {
                0
            } else {
                dx
            },
            if dy < 0 {
                0
            } else {
                dy
            },
        ),
    }
}

impl Backend {
    pub fn new() -> (r: Backend)
        ensures
            r.common.windows@ == Map::<u32, WindowState>::empty(),
            r.common.handlers == EventHandlers::none(),
            r.queue@ == Seq::<CommonEvent>::empty(),
            r.next_window_id == 1,
            r.menu_clicks@ == Map::<Seq<char>, MenuCallbackInfo>::empty(),
            r.next_tray_id == 1,
            r.dock_ops@ == Seq::<DockOp>::empty(),
            r.tray_ops@ == Seq::<TrayOp>::empty(),
    {
        Backend {
            common: CommonState::new(),
            queue: Vec::new(),
            next_window_id: 1,
            menu_clicks: TextMap::new(),
            next_tray_id: 1,
            dock_ops: Vec::new(),
            tray_ops: Vec::new(),
        }
    }

    /// The known windows.
    pub open spec fn windows(self) -> Map<u32, WindowState> {
        self.common.windows@
    }

    /// Nothing has changed but the windows and the queue.
    pub open spec fn keeps_the_rest(self, before: Backend) -> bool {
        self == (Backend {
            common: CommonState { windows: self.common.windows, ..before.common },
            queue: self.queue,
            ..before
        })
    }

    /// Relative to `before`: the window, if known, has been changed, the event
    /// has been queued, and nothing else has happened.
    pub open spec fn changed_and_queued(
        self,
        before: Backend,
        window_id: u32,
        change: spec_fn(WindowState) -> WindowState,
        event: CommonEvent,
    ) -> bool {
        &&& self.keeps_the_rest(before)
        &&& self.windows() == updated(before.windows(), window_id, change)
        &&& self.queue@ == before.queue@.push(event)
    }

    /// Relative to `before`: the event has been queued, and nothing else has
    /// happened.
    pub open spec fn only_queued(self, before: Backend, event: CommonEvent) -> bool {
        &&& self == (Backend { queue: self.queue, ..before })
        &&& self.queue@ == before.queue@.push(event)
    }

    /// Relative to `before`: a window with the next id has been added, in its
    /// initial state with the flags, and its creation has been queued. One that
    /// is to be created hidden is noted as not visible.
    pub open spec fn window_added(
        self,
        before: Backend,
        flags: u32,
        reported_scale: Option<Float64>,
    ) -> bool {
        let id = before.next_window_id;
        &&& self == (Backend {
            common: CommonState { windows: self.common.windows, ..before.common },
            queue: self.queue,
            next_window_id: id_after(id),
            ..before
        })
        &&& self.windows() == before.windows().insert(
            id,
            WindowState {
                pending_flags: flags,
                pending_visible: if has_flag(flags, LAUFEY_WINDOW_FLAG_HIDDEN) {
                    Some(false)
                } else {
                    None
                },
                ..WindowState::fresh(window_state::scale_hint(reported_scale))
            },
        )
        &&& self.queue@ == before.queue@.push(CommonEvent::CreateWindow { window_id: id })
    }

    pub fn backend_create_window(&mut self, reported_scale: Option<Float64>) -> (r: u32)
        ensures
            r == old(self).next_window_id,
            final(self).window_added(*old(self), 0, reported_scale),
    {
        proof {
            assert(0u32 & LAUFEY_WINDOW_FLAG_HIDDEN == 0) by (bit_vector);
        }
        let window_id: u32 = allocate_window_id(&mut self.next_window_id);
        self.common.add_window(window_id, reported_scale);
        self.queue.push(CommonEvent::CreateWindow { window_id });
        window_id
    }

    /// Like `backend_create_window`, with style flags that are in place before
    /// the window is built.
    pub fn backend_create_window_ex(&mut self, flags: u32, reported_scale: Option<Float64>) -> (r: u32)
        ensures
            r == old(self).next_window_id,
            final(self).window_added(*old(self), flags, reported_scale),
    {
        let window_id: u32 = allocate_window_id(&mut self.next_window_id);
        let mut ws = WindowState::new(reported_scale);
        ws.pending_flags = flags;
        if flags & LAUFEY_WINDOW_FLAG_HIDDEN != 0 {
            ws.pending_visible = Some(false);
        }
        self.common.put_window(window_id, ws);
        self.queue.push(CommonEvent::CreateWindow { window_id });
        window_id
    }

    pub fn backend_close_window(&mut self, window_id: u32)
        ensures
            final(self).only_queued(*old(self), CommonEvent::CloseWindow { window_id }),
    {
        self.queue.push(CommonEvent::CloseWindow { window_id });
    }

    pub fn backend_set_title(&mut self, window_id: u32, title: Option<String>)
        ensures
            match title {
                Some(t) => final(self).changed_and_queued(
                    *old(self),
                    window_id,
                    |ws: WindowState| WindowState { pending_title: Some(t), ..ws },
                    CommonEvent::SetTitle { window_id },
                ),
                None => *final(self) == *old(self),
            },
    {
        let ghost before = *self;
        match title {
            None => {
                return;
            },
            Some(t) => {
                match self.common.take_window(window_id) {
                    Some(mut ws) => {
                        ws.pending_title = Some(t);
                        self.common.put_window(window_id, ws);
                    },
                    None => {},
                }
                self.queue.push(CommonEvent::SetTitle { window_id });
                assert(self.windows() =~= updated(
                    before.windows(),
                    window_id,
                    |ws: WindowState| WindowState { pending_title: Some(t), ..ws },
                ));
            },
        }
    }

    pub fn backend_quit(&mut self)
        ensures
            final(self).only_queued(*old(self), CommonEvent::Quit),
    {
        self.queue.push(CommonEvent::Quit);
    }

    pub fn backend_set_window_size(&mut self, window_id: u32, width: i32, height: i32)
        ensures
            final(self).changed_and_queued(
                *old(self),
                window_id,
                |ws: WindowState| WindowState { pending_size: Some((width, height)), ..ws },
                CommonEvent::SetWindowSize { window_id },
            ),
    {
        let ghost before = *self;
        match self.common.take_window(window_id) {
            Some(mut ws) => {
                ws.pending_size = Some((width, height));
                self.common.put_window(window_id, ws);
            },
            None => {},
        }
        self.queue.push(CommonEvent::SetWindowSize { window_id });
        assert(self.windows() =~= updated(
            before.windows(),
            window_id,
            |ws: WindowState| WindowState { pending_size: Some((width, height)), ..ws },
        ));
    }

    /// The size to report: the real one, else one that was asked for and waits.
    /// Zero for an unknown window; nothing where a known window has neither.
    pub open spec fn size_of(self, window_id: u32) -> Option<(i32, i32)> {
        if self.windows().contains_key(window_id) {
            let ws = self.windows()[window_id];
            match ws.current_size {
                Some(s) => Some(s),
                None => ws.pending_size,
            }
        } else {
            Some((0, 0))
        }
    }

    pub fn backend_get_window_size(&self, window_id: u32) -> (r: Option<(i32, i32)>)
        ensures
            r == self.size_of(window_id),
    {
        match self.common.window(window_id) {
            Some(ws) => match ws.current_size {
                Some(s) => Some(s),
                None => ws.pending_size,
            },
            None => Some((0, 0)),
        }
    }

    pub fn backend_get_window_scale_factor(&self, window_id: u32) -> (r: Float64)
        ensures
            r == (if self.windows().contains_key(window_id)
                && self.windows()[window_id].current_scale.positive() {
                self.windows()[window_id].current_scale
            } else {
                Float64 { bits: crate::float::ONE_BITS }
            }),
            r.positive(),
    {
        if let Some(ws) = self.common.window(window_id) {
            if ws.current_scale.is_positive() {
                return ws.current_scale;
            }
        }
        Float64::one()
    }

    /// Where the content view lies: its real place, else the requested frame
    /// position offset by the chrome, else the origin.
    pub open spec fn inner_position_of(self, window_id: u32, chrome: FrameChrome) -> (int, int) {
        if self.windows().contains_key(window_id) {
            let ws = self.windows()[window_id];
            match (ws.current_inner_position, ws.pending_position) {
                (Some(p), _) => (p.0 as int, p.1 as int),
                (None, Some(o)) => {
                    let d = frame_offset(ws.pending_flags, chrome);
                    (o.0 + d.0, o.1 + d.1)
                },
                (None, None) => (0, 0),
            }
        } else {
            (0, 0)
        }
    }

    pub fn backend_get_window_inner_position(&self, window_id: u32, chrome: FrameChrome) -> (r: (
        i32,
        i32,
    ))
        requires
            i32::MIN <= self.inner_position_of(window_id, chrome).0 <= i32::MAX,
            i32::MIN <= self.inner_position_of(window_id, chrome).1 <= i32::MAX,
        ensures
            r.0 == self.inner_position_of(window_id, chrome).0,
            r.1 == self.inner_position_of(window_id, chrome).1,
    {
        match self.common.window(window_id) {
            Some(ws) => match ws.current_inner_position {
                Some(p) => p,
                None => match ws.pending_position {
                    Some((ox, oy)) => {
                        let (dx, dy) = frame_offset_hint(ws.pending_flags, chrome);
                        (ox + dx, oy + dy)
                    },
                    None => (0, 0),
                },
            },
            None => (0, 0),
        }
    }

    pub fn backend_set_window_position(&mut self, window_id: u32, x: i32, y: i32)
        ensures
            final(self).changed_and_queued(
                *old(self),
                window_id,
                |ws: WindowState| WindowState { pending_position: Some((x, y)), ..ws },
                CommonEvent::SetWindowPosition { window_id },
            ),
    {
        let ghost before = *self;
        match self.common.take_window(window_id) {
            Some(mut ws) => {
                ws.pending_position = Some((x, y));
                self.common.put_window(window_id, ws);
            },
            None => {},
        }
        self.queue.push(CommonEvent::SetWindowPosition { window_id });
        assert(self.windows() =~= updated(
            before.windows(),
            window_id,
            |ws: WindowState| WindowState { pending_position: Some((x, y)), ..ws },
        ));
    }

    /// The position to report. Zero for an unknown window; nothing where none
    /// is known of a known window.
    pub open spec fn position_of(self, window_id: u32) -> Option<(i32, i32)> {
        if self.windows().contains_key(window_id) {
            self.windows()[window_id].pending_position
        } else {
            Some((0, 0))
        }
    }

    pub fn backend_get_window_position(&self, window_id: u32) -> (r: Option<(i32, i32)>)
        ensures
            r == self.position_of(window_id),
    {
        match self.common.window(window_id) {
            Some(ws) => ws.pending_position,
            None => Some((0, 0)),
        }
    }

    pub fn backend_set_resizable(&mut self, window_id: u32, resizable: bool)
        ensures
            final(self).changed_and_queued(
                *old(self),
                window_id,
                |ws: WindowState| WindowState { pending_resizable: Some(resizable), ..ws },
                CommonEvent::SetResizable { window_id },
            ),
    {
        let ghost before = *self;
        match self.common.take_window(window_id) {
            Some(mut ws) => {
                ws.pending_resizable = Some(resizable);
                self.common.put_window(window_id, ws);
            },
            None => {},
        }
        self.queue.push(CommonEvent::SetResizable { window_id });
        assert(self.windows() =~= updated(
            before.windows(),
            window_id,
            |ws: WindowState| WindowState { pending_resizable: Some(resizable), ..ws },
        ));
    }

    /// What a setting of a window was set to, else its default.
    pub open spec fn setting(
        self,
        window_id: u32,
        read: spec_fn(WindowState) -> Option<bool>,
        default: bool,
    ) -> bool {
        if self.windows().contains_key(window_id) {
            match read(self.windows()[window_id]) {
                Some(b) => b,
                None => default,
            }
        } else {
            default
        }
    }

    pub fn backend_is_resizable(&self, window_id: u32) -> (r: bool)
        ensures
            r == self.setting(window_id, |ws: WindowState| ws.pending_resizable, true),
    {
        match self.common.window(window_id) {
            Some(ws) => ws.pending_resizable.unwrap_or(true),
            None => true,
        }
    }

    pub fn backend_set_always_on_top(&mut self, window_id: u32, always_on_top: bool)
        ensures
            final(self).changed_and_queued(
                *old(self),
                window_id,
                |ws: WindowState| WindowState { pending_always_on_top: Some(always_on_top), ..ws },
                CommonEvent::SetAlwaysOnTop { window_id },
            ),
    {
        let ghost before = *self;
        match self.common.take_window(window_id) {
            Some(mut ws) => {
                ws.pending_always_on_top = Some(always_on_top);
                self.common.put_window(window_id, ws);
            },
            None => {},
        }
        self.queue.push(CommonEvent::SetAlwaysOnTop { window_id });
        assert(self.windows() =~= updated(
            before.windows(),
            window_id,
            |ws: WindowState| WindowState { pending_always_on_top: Some(always_on_top), ..ws },
        ));
    }

    pub fn backend_is_always_on_top(&self, window_id: u32) -> (r: bool)
        ensures
            r == self.setting(window_id, |ws: WindowState| ws.pending_always_on_top, false),
    {
        match self.common.window(window_id) {
            Some(ws) => ws.pending_always_on_top.unwrap_or(false),
            None => false,
        }
    }

    pub fn backend_set_click_passthrough(&mut self, window_id: u32, enabled: bool)
        ensures
            final(self).changed_and_queued(
                *old(self),
                window_id,
                |ws: WindowState| WindowState { pending_click_passthrough: Some(enabled), ..ws },
                CommonEvent::SetClickPassthrough { window_id },
            ),
    {
        let ghost before = *self;
        match self.common.take_window(window_id) {
            Some(mut ws) => {
                ws.pending_click_passthrough = Some(enabled);
                self.common.put_window(window_id, ws);
            },
            None => {},
        }
        self.queue.push(CommonEvent::SetClickPassthrough { window_id });
        assert(self.windows() =~= updated(
            before.windows(),
            window_id,
            |ws: WindowState| WindowState { pending_click_passthrough: Some(enabled), ..ws },
        ));
    }

    pub fn backend_is_click_passthrough(&self, window_id: u32) -> (r: bool)
        ensures
            r == self.setting(window_id, |ws: WindowState| ws.pending_click_passthrough, false),
    {
        match self.common.window(window_id) {
            Some(ws) => ws.pending_click_passthrough.unwrap_or(false),
            None => false,
        }
    }

    pub fn backend_is_visible(&self, window_id: u32) -> (r: bool)
        ensures
            r == self.setting(window_id, |ws: WindowState| ws.pending_visible, true),
    {
        match self.common.window(window_id) {
            Some(ws) => ws.pending_visible.unwrap_or(true),
            None => true,
        }
    }

    pub fn backend_show(&mut self, window_id: u32)
        ensures
            final(self).changed_and_queued(
                *old(self),
                window_id,
                |ws: WindowState| shown(ws),
                CommonEvent::Show { window_id },
            ),
    {
        let ghost before = *self;
        match self.common.take_window(window_id) {
            Some(mut ws) => {
                ws.pending_visible = Some(true);
                if ws.pending_flags & LAUFEY_WINDOW_FLAG_HIDDEN != 0 {
                    ws.pending_flags = ws.pending_flags & !LAUFEY_WINDOW_FLAG_HIDDEN;
                }
                self.common.put_window(window_id, ws);
            },
            None => {},
        }
        self.queue.push(CommonEvent::Show { window_id });
        assert(self.windows() =~= updated(
            before.windows(),
            window_id,
            |ws: WindowState| shown(ws),
        ));
    }

    pub fn backend_hide(&mut self, window_id: u32)
        ensures
            final(self).changed_and_queued(
                *old(self),
                window_id,
                |ws: WindowState| WindowState { pending_visible: Some(false), ..ws },
                CommonEvent::Hide { window_id },
            ),
    {
        let ghost before = *self;
        match self.common.take_window(window_id) {
            Some(mut ws) => {
                ws.pending_visible = Some(false);
                self.common.put_window(window_id, ws);
            },
            None => {},
        }
        self.queue.push(CommonEvent::Hide { window_id });
        assert(self.windows() =~= updated(
            before.windows(),
            window_id,
            |ws: WindowState| WindowState { pending_visible: Some(false), ..ws },
        ));
    }

    /// Gives a window the focus. A window that was created hidden and has not been
    /// shown since is shown first.
    pub fn backend_focus(&mut self, window_id: u32)
        ensures
            if old(self).windows().contains_key(window_id) && awaits_first_show(
                old(self).windows()[window_id],
            ) {
                &&& final(self).keeps_the_rest(*old(self))
                &&& final(self).windows() == updated(
                    old(self).windows(),
                    window_id,
                    |ws: WindowState| shown(ws),
                )
                &&& final(self).queue@ == old(self).queue@.push(
                    CommonEvent::Show { window_id },
                ).push(CommonEvent::Focus { window_id })
            } else {
                final(self).only_queued(*old(self), CommonEvent::Focus { window_id })
            },
    {
        let reveals = match self.common.window(window_id) {
            Some(ws) => ws.pending_flags & LAUFEY_WINDOW_FLAG_HIDDEN != 0
                && ws.pending_visible == Some(false),
            None => false,
        };
        if reveals {
            self.backend_show(window_id);
        }
        self.queue.push(CommonEvent::Focus { window_id });
    }

    pub fn backend_set_ime_allowed(&mut self, window_id: u32, allowed: bool)
        ensures
            final(self).changed_and_queued(
                *old(self),
                window_id,
                |ws: WindowState| WindowState { pending_ime_allowed: Some(allowed), ..ws },
                CommonEvent::SetImeAllowed { window_id },
            ),
    {
        let ghost before = *self;
        match self.common.take_window(window_id) {
            Some(mut ws) => {
                ws.pending_ime_allowed = Some(allowed);
                self.common.put_window(window_id, ws);
            },
            None => {},
        }
        self.queue.push(CommonEvent::SetImeAllowed { window_id });
        assert(self.windows() =~= updated(
            before.windows(),
            window_id,
            |ws: WindowState| WindowState { pending_ime_allowed: Some(allowed), ..ws },
        ));
    }

    pub fn backend_set_ime_cursor_area(&mut self, window_id: u32, area: ImeCursorArea)
        ensures
            final(self).changed_and_queued(
                *old(self),
                window_id,
                |ws: WindowState| WindowState { pending_ime_cursor_area: Some(area), ..ws },
                CommonEvent::SetImeCursorArea { window_id },
            ),
    {
        let ghost before = *self;
        match self.common.take_window(window_id) {
            Some(mut ws) => {
                ws.pending_ime_cursor_area = Some(area);
                self.common.put_window(window_id, ws);
            },
            None => {},
        }
        self.queue.push(CommonEvent::SetImeCursorArea { window_id });
        assert(self.windows() =~= updated(
            before.windows(),
            window_id,
            |ws: WindowState| WindowState { pending_ime_cursor_area: Some(area), ..ws },
        ));
    }

    /// Queues a task for the UI thread; without a task nothing happens.
    pub fn backend_post_ui_task(&mut self, task: Option<usize>, data: usize)
        ensures
            match task {
                Some(t) => final(self).only_queued(
                    *old(self),
                    CommonEvent::UiTask { task: t, data },
                ),
                None => *final(self) == *old(self),
            },
    {
        if let Some(t) = task {
            self.queue.push(CommonEvent::UiTask { task: t, data });
        }
    }
}

impl Backend {
    /// Relative to `before`: the handlers are these, and nothing else has
    /// changed.
    pub open spec fn only_handlers(self, before: Backend, handlers: EventHandlers) -> bool {
        self == (Backend { common: CommonState { handlers, ..before.common }, ..before })
    }

    pub fn backend_set_keyboard_event_handler(&mut self, handler: Option<Callback>)
        ensures
            final(self).only_handlers(
                *old(self),
                EventHandlers { keyboard_handler: handler, ..old(self).common.handlers },
            ),
    {
        self.common.handlers.keyboard_handler = handler;
    }

    pub fn backend_set_mouse_click_handler(&mut self, handler: Option<Callback>)
        ensures
            final(self).only_handlers(
                *old(self),
                EventHandlers { mouse_click_handler: handler, ..old(self).common.handlers },
            ),
    {
        self.common.handlers.mouse_click_handler = handler;
    }

    pub fn backend_set_mouse_move_handler(&mut self, handler: Option<Callback>)
        ensures
            final(self).only_handlers(
                *old(self),
                EventHandlers { mouse_move_handler: handler, ..old(self).common.handlers },
            ),
    {
        self.common.handlers.mouse_move_handler = handler;
    }

    pub fn backend_set_wheel_handler(&mut self, handler: Option<Callback>)
        ensures
            final(self).only_handlers(
                *old(self),
                EventHandlers { wheel_handler: handler, ..old(self).common.handlers },
            ),
    {
        self.common.handlers.wheel_handler = handler;
    }

    pub fn backend_set_cursor_enter_leave_handler(&mut self, handler: Option<Callback>)
        ensures
            final(self).only_handlers(
                *old(self),
                EventHandlers { cursor_enter_leave_handler: handler, ..old(self).common.handlers },
            ),
    {
        self.common.handlers.cursor_enter_leave_handler = handler;
    }

    pub fn backend_set_focused_handler(&mut self, handler: Option<Callback>)
        ensures
            final(self).only_handlers(
                *old(self),
                EventHandlers { focused_handler: handler, ..old(self).common.handlers },
            ),
    {
        self.common.handlers.focused_handler = handler;
    }

    pub fn backend_set_ime_event_handler(&mut self, handler: Option<Callback>)
        ensures
            final(self).only_handlers(
                *old(self),
                EventHandlers { ime_handler: handler, ..old(self).common.handlers },
            ),
    {
        self.common.handlers.ime_handler = handler;
    }

    pub fn backend_set_resize_handler(&mut self, handler: Option<Callback>)
        ensures
            final(self).only_handlers(
                *old(self),
                EventHandlers { resize_handler: handler, ..old(self).common.handlers },
            ),
    {
        self.common.handlers.resize_handler = handler;
    }

    pub fn backend_set_move_handler(&mut self, handler: Option<Callback>)
        ensures
            final(self).only_handlers(
                *old(self),
                EventHandlers { move_handler: handler, ..old(self).common.handlers },
            ),
    {
        self.common.handlers.move_handler = handler;
    }

    pub fn backend_set_close_requested_handler(&mut self, handler: Option<Callback>)
        ensures
            final(self).only_handlers(
                *old(self),
                EventHandlers { close_requested_handler: handler, ..old(self).common.handlers },
            ),
    {
        self.common.handlers.close_requested_handler = handler;
    }

    /// Runs a close request as the window's own close control would. Returns
    /// whether the close was put off: a registered handler is told and the
    /// window stays, and without one the close is queued.
    pub fn backend_test_trigger_close_requested(&mut self, window_id: u32) -> (r: (
        bool,
        Option<HandlerCall>,
    ))
        ensures
            match old(self).common.handlers.close_requested_handler {
                Some(cb) => {
                    &&& r == (true, Some(HandlerCall::CloseRequested { to: cb, window_id }))
                    &&& *final(self) == *old(self)
                },
                None => {
                    &&& r == (false, None::<HandlerCall>)
                    &&& final(self).only_queued(*old(self), CommonEvent::CloseWindow { window_id })
                },
            },
    {
        let (proceed, call) = dispatch_close_requested_event(&self.common.handlers, window_id);
        if proceed {
            self.backend_close_window(window_id);
            (false, call)
        } else {
            (true, call)
        }
    }

    /// Clicks the menu item with an id, if one was registered under it.
    pub fn backend_test_click_menu_item(&self, item_id: Option<&str>) -> (r: Option<
        MenuCallbackInfo,
    >)
        ensures
            r == (match item_id {
                Some(id) if self.menu_clicks@.contains_key(id@) && text::nul_free(id@) => Some(
                    self.menu_clicks@[id@],
                ),
                _ => None,
            }),
    {
        match item_id {
            Some(id) => dispatch_menu_click_by_id(&self.menu_clicks, id),
            None => None,
        }
    }

    /// Relative to `before`: the window, if known, waits for a menu bar with
    /// the entries, and the event loop has been told.
    pub open spec fn menu_pending(
        self,
        before: Backend,
        window_id: u32,
        items: Seq<menu::ParsedView>,
        callback: Option<usize>,
        callback_data: usize,
    ) -> bool {
        &&& self.keeps_the_rest(before)
        &&& self.queue@ == before.queue@.push(CommonEvent::SetApplicationMenu { window_id })
        &&& self.windows().dom() == before.windows().dom()
        &&& forall|id: u32|
            id != window_id && before.windows().contains_key(id) ==> #[trigger] self.windows()[id]
                == before.windows()[id]
        &&& before.windows().contains_key(window_id) ==> {
            let ws = self.windows()[window_id];
            &&& ws == (WindowState {
                pending_app_menu: ws.pending_app_menu,
                ..before.windows()[window_id]
            })
            &&& ws.pending_app_menu matches Some(m) && menu::parsed_view(m.items@) == items
                && m.callback == callback && m.callback_data == callback_data
        }
    }

    /// Relative to `before`: the window, if known, waits for a context menu with
    /// the entries at a place, and the event loop has been told.
    pub open spec fn context_menu_pending(
        self,
        before: Backend,
        window_id: u32,
        x: i32,
        y: i32,
        items: Seq<menu::ParsedView>,
        callback: Option<usize>,
        callback_data: usize,
    ) -> bool {
        &&& self.keeps_the_rest(before)
        &&& self.queue@ == before.queue@.push(CommonEvent::ShowContextMenu { window_id })
        &&& self.windows().dom() == before.windows().dom()
        &&& forall|id: u32|
            id != window_id && before.windows().contains_key(id) ==> #[trigger] self.windows()[id]
                == before.windows()[id]
        &&& before.windows().contains_key(window_id) ==> {
            let ws = self.windows()[window_id];
            &&& ws == (WindowState {
                pending_context_menu: ws.pending_context_menu,
                ..before.windows()[window_id]
            })
            &&& ws.pending_context_menu matches Some(m) && menu::parsed_view(m.items@) == items
                && m.x == x && m.y == y && m.callback == callback && m.callback_data
                == callback_data
        }
    }

    /// Gives a window a menu bar, made from a template.
    pub fn backend_set_application_menu(
        &mut self,
        window_id: u32,
        template: Option<&LaufeyValue>,
        callback: Option<usize>,
        callback_data: usize,
    )
        ensures
            final(self).menu_pending(
                *old(self),
                window_id,
                menu::parsed_template(raw_value::opt_view(template)),
                callback,
                callback_data,
            ),
    {
        let ghost before = *self;
        let items = parse_menu_template(template);
        match self.common.take_window(window_id) {
            Some(mut ws) => {
                ws.pending_app_menu = Some(PendingMenu { items, callback, callback_data });
                self.common.put_window(window_id, ws);
            },
            None => {},
        }
        self.queue.push(CommonEvent::SetApplicationMenu { window_id });
        assert(self.windows().dom() =~= before.windows().dom());
    }

    /// Shows a context menu, made from a template, at a place in a window.
    pub fn backend_show_context_menu(
        &mut self,
        window_id: u32,
        x: i32,
        y: i32,
        template: Option<&LaufeyValue>,
        callback: Option<usize>,
        callback_data: usize,
    )
        ensures
            final(self).context_menu_pending(
                *old(self),
                window_id,
                x,
                y,
                menu::parsed_template(raw_value::opt_view(template)),
                callback,
                callback_data,
            ),
    {
        let ghost before = *self;
        let items = parse_menu_template(template);
        match self.common.take_window(window_id) {
            Some(mut ws) => {
                ws.pending_context_menu = Some(
                    PendingContextMenu { x, y, items, callback, callback_data },
                );
                self.common.put_window(window_id, ws);
            },
            None => {},
        }
        self.queue.push(CommonEvent::ShowContextMenu { window_id });
        assert(self.windows().dom() =~= before.windows().dom());
    }
}

/// What is set on a known window is what its getter reports, whatever was set
/// before: resizing, staying on top, passing clicks through and visibility.
pub proof fn settings_read_back(
    window_id: u32,
    flag: bool,
    before: Backend,
    after: Backend,
    event: CommonEvent,
)
    requires
        before.windows().contains_key(window_id),
    ensures
        after.changed_and_queued(
            before,
            window_id,
            |ws: WindowState| WindowState { pending_resizable: Some(flag), ..ws },
            event,
        ) ==> after.setting(window_id, |ws: WindowState| ws.pending_resizable, true) == flag,
        after.changed_and_queued(
            before,
            window_id,
            |ws: WindowState| WindowState { pending_always_on_top: Some(flag), ..ws },
            event,
        ) ==> after.setting(window_id, |ws: WindowState| ws.pending_always_on_top, false) == flag,
        after.changed_and_queued(
            before,
            window_id,
            |ws: WindowState| WindowState { pending_click_passthrough: Some(flag), ..ws },
            event,
        ) ==> after.setting(window_id, |ws: WindowState| ws.pending_click_passthrough, false)
            == flag,
        after.changed_and_queued(
            before,
            window_id,
            |ws: WindowState| WindowState { pending_visible: Some(flag), ..ws },
            event,
        ) ==> after.setting(window_id, |ws: WindowState| ws.pending_visible, true) == flag,
        after.changed_and_queued(before, window_id, |ws: WindowState| shown(ws), event)
            ==> after.setting(window_id, |ws: WindowState| ws.pending_visible, true),
{
}

/// A position that was set on a known window is what its getter reports. So is
/// a size, as long as the window has no real size yet.
pub proof fn geometry_reads_back(
    window_id: u32,
    a: i32,
    b: i32,
    before: Backend,
    after: Backend,
    event: CommonEvent,
)
    requires
        before.windows().contains_key(window_id),
    ensures
        after.changed_and_queued(
            before,
            window_id,
            |ws: WindowState| WindowState { pending_position: Some((a, b)), ..ws },
            event,
        ) ==> after.position_of(window_id) == Some((a, b)),
        after.changed_and_queued(
            before,
            window_id,
            |ws: WindowState| WindowState { pending_size: Some((a, b)), ..ws },
            event,
        ) && before.windows()[window_id].current_size is None ==> after.size_of(window_id) == Some(
            (a, b),
        ),
{
}

/// Setting anything on one window leaves every other window as it was.
pub proof fn windows_are_independent(
    window_id: u32,
    other: u32,
    change: spec_fn(WindowState) -> WindowState,
    before: Backend,
    after: Backend,
    event: CommonEvent,
)
    requires
        after.changed_and_queued(before, window_id, change, event),
        other != window_id,
    ensures
        after.windows().contains_key(other) == before.windows().contains_key(other),
        after.windows()[other] == before.windows()[other],
{
}

} // verus!
