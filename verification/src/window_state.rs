//! What the backend keeps for each window, and the handlers that events go to.

use crate::composition::Composition;
use crate::float::Float64;
use crate::menu::ParsedMenuItem;
use crate::mouse::MouseButton;
use std::collections::HashMap;
use vstd::prelude::*;

verus! {

broadcast use vstd::std_specs::hash::group_hash_axioms;

/// Creation-time window style flags.
pub const LAUFEY_WINDOW_FLAG_FRAMELESS: u32 = 1;

pub const LAUFEY_WINDOW_FLAG_NO_ACTIVATE: u32 = 2;

pub const LAUFEY_WINDOW_FLAG_TRANSPARENT_TITLEBAR: u32 = 4;

pub const LAUFEY_WINDOW_FLAG_HIDDEN: u32 = 8;

pub const LAUFEY_WINDOW_FLAG_TRANSPARENT: u32 = 16;

/// A C callback: its address and the data word handed to it.
#[derive(Clone, Copy, Debug, PartialEq, Eq, Structural)]
pub struct Callback {
    pub func: usize,
    pub data: usize,
}

/// A menu bar that waits for its window.
pub struct PendingMenu {
    pub items: Vec<ParsedMenuItem>,
    pub callback: Option<usize>,
    pub callback_data: usize,
}

/// A context menu that waits for its window, with the place to show it at.
pub struct PendingContextMenu {
    pub x: i32,
    pub y: i32,
    pub items: Vec<ParsedMenuItem>,
    pub callback: Option<usize>,
    pub callback_data: usize,
}

/// A rectangle in the logical pixels of a window's content.
#[derive(Clone, Copy, Debug, PartialEq, Eq, Structural)]
pub struct ImeCursorArea {
    pub x: Float64,
    pub y: Float64,
    pub width: Float64,
    pub height: Float64,
}

pub struct WindowState {
    pub pending_title: Option<String>,
    /// A requested size, consumed when it is applied.
    pub pending_size: Option<(i32, i32)>,
    /// The window's real size in logical pixels: seeded at creation and
    /// refreshed on every resize.
    pub current_size: Option<(i32, i32)>,
    pub current_scale: Float64,
    /// Top-left of the content view on the screen, in logical pixels.
    pub current_inner_position: Option<(i32, i32)>,
    pub pending_position: Option<(i32, i32)>,
    pub pending_resizable: Option<bool>,
    pub pending_always_on_top: Option<bool>,
    pub pending_click_passthrough: Option<bool>,
    pub pending_visible: Option<bool>,
    /// Whether text may be composed by an input method.
    pub pending_ime_allowed: Option<bool>,
    /// Where the candidates of an input method are to be shown.
    pub pending_ime_cursor_area: Option<ImeCursorArea>,
    pub composition: Composition,
    /// Creation-time style flags.
    pub pending_flags: u32,
    pub pending_app_menu: Option<PendingMenu>,
    pub pending_context_menu: Option<PendingContextMenu>,
    pub cursor_position: (Float64, Float64),
    /// Whether the cursor has moved inside the window since it entered it.
    pub cursor_seen: bool,
    /// An enter event that waits for a real cursor position.
    pub pending_enter: bool,
    /// When the last button press came, in nanoseconds.
    pub last_press_time: Option<u64>,
    pub last_press_button: Option<MouseButton>,
    pub last_press_position: Option<(Float64, Float64)>,
    pub click_count: i32,
    /// False until the resizes that creating a window causes have passed.
    pub resize_reporting_armed: bool,
}

/// The scale to go by before a window exists: the reported one if it is
/// positive, else 1.
pub open spec fn scale_hint(reported: Option<Float64>) -> Float64 {
    match reported {
        Some(s) if s.positive() => s,
        _ => Float64 { bits: crate::float::ONE_BITS },
    }
}

/// The scale to go by before a window exists.
pub fn primary_scale_hint(reported: Option<Float64>) -> (r: Float64)
    ensures
        r == scale_hint(reported),
        r.positive(),
{
    match reported {
        Some(s) => if s.is_positive() {
            s
        } else {
            Float64::one()
        },
        None => Float64::one(),
    }
}

impl WindowState {
    /// The state of a window nobody has asked anything of.
    pub open spec fn fresh(scale: Float64) -> WindowState {
        WindowState {
            pending_title: None,
            pending_size: None,
            current_size: None,
            current_scale: scale,
            current_inner_position: None,
            pending_position: None,
            pending_resizable: None,
            pending_always_on_top: None,
            pending_click_passthrough: None,
            pending_visible: None,
            pending_ime_allowed: None,
            pending_ime_cursor_area: None,
            composition: Composition::Idle,
            pending_flags: 0,
            pending_app_menu: None,
            pending_context_menu: None,
            cursor_position: (Float64 { bits: 0 }, Float64 { bits: 0 }),
            cursor_seen: false,
            pending_enter: false,
            last_press_time: None,
            last_press_button: None,
            last_press_position: None,
            click_count: 0,
            resize_reporting_armed: false,
        }
    }

    /// A new window's state; `reported_scale` is what the platform says of its
    /// primary screen.
    pub fn new(reported_scale: Option<Float64>) -> (r: WindowState)
        ensures
            r == WindowState::fresh(scale_hint(reported_scale)),
    {
        WindowState {
            pending_title: None,
            pending_size: None,
            current_size: None,
            current_scale: primary_scale_hint(reported_scale),
            current_inner_position: None,
            pending_position: None,
            pending_resizable: None,
            pending_always_on_top: None,
            pending_click_passthrough: None,
            pending_visible: None,
            pending_ime_allowed: None,
            pending_ime_cursor_area: None,
            composition: Composition::Idle,
            pending_flags: 0,
            pending_app_menu: None,
            pending_context_menu: None,
            cursor_position: (Float64::zero(), Float64::zero()),
            cursor_seen: false,
            pending_enter: false,
            last_press_time: None,
            last_press_button: None,
            last_press_position: None,
            click_count: 0,
            resize_reporting_armed: false,
        }
    }

    /// The state after the cursor moved to a position.
    pub open spec fn after_move(self, x: Float64, y: Float64) -> WindowState {
        WindowState { cursor_position: (x, y), cursor_seen: true, pending_enter: false, ..self }
    }

    /// The state after the cursor entered.
    pub open spec fn after_enter(self) -> WindowState {
        WindowState { pending_enter: self.pending_enter || !self.cursor_seen, ..self }
    }

    /// The state after the cursor left.
    pub open spec fn after_leave(self) -> WindowState {
        WindowState { pending_enter: false, cursor_seen: false, ..self }
    }

    /// Stores a cursor position. Returns whether an enter event that was put
    /// off should go out before the move.
    pub fn note_cursor_move(&mut self, x: Float64, y: Float64) -> (r: bool)
        ensures
            r == old(self).pending_enter,
            *final(self) == old(self).after_move(x, y),
    {
        let pending = self.pending_enter;
        self.cursor_position = (x, y);
        self.cursor_seen = true;
        self.pending_enter = false;
        pending
    }

    /// Returns whether an enter event can go out now. Otherwise the next move
    /// sends it, once there is a real position.
    pub fn note_cursor_entered(&mut self) -> (r: bool)
        ensures
            r == old(self).cursor_seen,
            *final(self) == old(self).after_enter(),
    {
        if self.cursor_seen {
            true
        } else {
            self.pending_enter = true;
            false
        }
    }

    pub fn note_cursor_left(&mut self)
        ensures
            *final(self) == old(self).after_leave(),
    {
        self.pending_enter = false;
        self.cursor_seen = false;
    }
}

impl Default for WindowState {
    fn default() -> (r: WindowState)
        ensures
            r == WindowState::fresh(scale_hint(None)),
    {
        WindowState::new(None)
    }
}

/// Once the cursor has left, an enter is put off until the next move, which
/// then sends it with its own position; a second move sends none.
pub proof fn enter_waits_for_a_move(
    ws: WindowState,
    x: Float64,
    y: Float64,
    x2: Float64,
    y2: Float64,
)
    ensures
        ({
            let outside = ws.after_leave();
            let entered = outside.after_enter();
            let moved = entered.after_move(x, y);
            &&& !outside.cursor_seen
            &&& entered.pending_enter
            &&& moved.cursor_position == (x, y)
            &&& !moved.pending_enter
            &&& !moved.after_move(x2, y2).pending_enter
        }),
{
}

/// An enter that was put off is forgotten if the cursor leaves again before it
/// moves.
pub proof fn leave_forgets_the_enter(ws: WindowState, x: Float64, y: Float64)
    ensures
        !ws.after_enter().after_leave().pending_enter,
        ws.after_move(x, y).after_leave().after_enter().pending_enter,
{
}

/// The handlers that events of all windows go to.
#[derive(Clone, Copy)]
pub struct EventHandlers {
    pub keyboard_handler: Option<Callback>,
    pub mouse_click_handler: Option<Callback>,
    pub mouse_move_handler: Option<Callback>,
    pub wheel_handler: Option<Callback>,
    pub cursor_enter_leave_handler: Option<Callback>,
    pub focused_handler: Option<Callback>,
    pub resize_handler: Option<Callback>,
    pub move_handler: Option<Callback>,
    pub close_requested_handler: Option<Callback>,
    pub ime_handler: Option<Callback>,
}

impl EventHandlers {
    /// No handler is registered.
    pub open spec fn none() -> EventHandlers {
        EventHandlers {
            keyboard_handler: None,
            mouse_click_handler: None,
            mouse_move_handler: None,
            wheel_handler: None,
            cursor_enter_leave_handler: None,
            focused_handler: None,
            resize_handler: None,
            move_handler: None,
            close_requested_handler: None,
            ime_handler: None,
        }
    }

    pub fn new() -> (r: EventHandlers)
        ensures
            r == EventHandlers::none(),
    {
        EventHandlers {
            keyboard_handler: None,
            mouse_click_handler: None,
            mouse_move_handler: None,
            wheel_handler: None,
            cursor_enter_leave_handler: None,
            focused_handler: None,
            resize_handler: None,
            move_handler: None,
            close_requested_handler: None,
            ime_handler: None,
        }
    }
}

impl Default for EventHandlers {
    fn default() -> (r: EventHandlers)
        ensures
            r == EventHandlers::none(),
    {
        EventHandlers::new()
    }
}

/// The windows the backend knows, and the event handlers.
pub struct CommonState {
    pub windows: HashMap<u32, WindowState>,
    pub handlers: EventHandlers,
}

impl CommonState {
    pub fn new() -> (r: CommonState)
        ensures
            r.windows@ == Map::<u32, WindowState>::empty(),
            r.handlers == EventHandlers::none(),
    {
        CommonState { windows: HashMap::new(), handlers: EventHandlers::new() }
    }

    /// Starts keeping a window, in its initial state.
    pub fn add_window(&mut self, window_id: u32, reported_scale: Option<Float64>)
        ensures
            final(self).windows@ == old(self).windows@.insert(
                window_id,
                WindowState::fresh(scale_hint(reported_scale)),
            ),
            final(self).handlers == old(self).handlers,
    {
        self.windows.insert(window_id, WindowState::new(reported_scale));
    }

    pub fn remove_window(&mut self, window_id: u32)
        ensures
            final(self).windows@ == old(self).windows@.remove(window_id),
            final(self).handlers == old(self).handlers,
    {
        self.windows.remove(&window_id);
    }

    /// The state of a window, if there is one.
    pub fn window(&self, window_id: u32) -> (r: Option<&WindowState>)
        ensures
            match r {
                Some(ws) => self.windows@.contains_key(window_id) && *ws
                    == self.windows@[window_id],
                None => !self.windows@.contains_key(window_id),
            },
    {
        self.windows.get(&window_id)
    }

    /// Takes a window's state out, to be put back changed.
    pub fn take_window(&mut self, window_id: u32) -> (r: Option<WindowState>)
        ensures
            final(self).windows@ == old(self).windows@.remove(window_id),
            final(self).handlers == old(self).handlers,
            match r {
                Some(ws) => old(self).windows@.contains_key(window_id) && ws
                    == old(self).windows@[window_id],
                None => !old(self).windows@.contains_key(window_id),
            },
    {
        self.windows.remove(&window_id)
    }

    /// Puts a window's state back.
    pub fn put_window(&mut self, window_id: u32, ws: WindowState)
        ensures
            final(self).windows@ == old(self).windows@.insert(window_id, ws),
            final(self).handlers == old(self).handlers,
    {
        self.windows.insert(window_id, ws);
    }
}

impl Default for CommonState {
    fn default() -> (r: CommonState)
        ensures
            r.windows@ == Map::<u32, WindowState>::empty(),
            r.handlers == EventHandlers::none(),
    {
        CommonState::new()
    }
}

} // verus!
