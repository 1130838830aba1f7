//! The runtime's side of the boundary: the backend table it was given, the calls
//! it makes into the backend, and what it has registered.

use crate::api::{LaufeyBackendApi, LAUFEY_API_VERSION};
use crate::float::Float64;
use crate::raw_value::LaufeyValue;
use crate::text_map::TextMap;
use std::collections::HashMap;
use vstd::prelude::*;

verus! {

broadcast use vstd::std_specs::hash::group_hash_axioms;

/// A closure that the embedder registered, by the number it is kept under.
#[derive(Clone, Copy, Debug, PartialEq, Eq, Structural)]
pub struct HandlerId {
    pub token: u64,
}

/// The kinds of events that handlers are registered for per window.
#[derive(Clone, Copy, Debug, PartialEq, Eq, Structural)]
pub enum EventKind {
    Keyboard,
    Ime,
    MouseClick,
    MouseMove,
    Wheel,
    CursorEnterLeave,
    Focused,
    Resize,
    Move,
    CloseRequested,
    PageLoad,
}

/// A call into the backend, through one entry of its table.
pub enum BackendCall {
    CreateWindow,
    CreateWindowEx { flags: u32 },
    CloseWindow { window_id: u32 },
    Navigate { window_id: u32, url: String },
    SetTitle { window_id: u32, title: String },
    ExecuteJs { window_id: u32, script: String, callback: Option<HandlerId> },
    Quit,
    SetWindowSize { window_id: u32, width: i32, height: i32 },
    GetWindowSize { window_id: u32 },
    SetWindowPosition { window_id: u32, x: i32, y: i32 },
    GetWindowPosition { window_id: u32 },
    GetWindowScaleFactor { window_id: u32 },
    SetResizable { window_id: u32, resizable: bool },
    IsResizable { window_id: u32 },
    SetAlwaysOnTop { window_id: u32, always_on_top: bool },
    IsAlwaysOnTop { window_id: u32 },
    SetWindowOpacity { window_id: u32, opacity: Float64 },
    GetWindowOpacity { window_id: u32 },
    SetClickPassthrough { window_id: u32, passthrough: bool },
    IsClickPassthrough { window_id: u32 },
    SetClickPassthroughForward { window_id: u32, forward: bool },
    IsClickPassthroughForward { window_id: u32 },
    IsVisible { window_id: u32 },
    Show { window_id: u32 },
    Hide { window_id: u32 },
    Focus { window_id: u32 },
    PrintToPdf { window_id: u32 },
    GetWindowHandle { window_id: u32 },
    GetDisplayHandle { window_id: u32 },
    GetWindowHandleType { window_id: u32 },
    SetImeAllowed { window_id: u32, allowed: bool },
    SetImeCursorArea { window_id: u32, x: Float64, y: Float64, width: Float64, height: Float64 },
    OpenDevtools { window_id: u32 },
    /// Registers the runtime's one callback for all events of a kind.
    SetEventHandler { kind: EventKind },
    SetJsCallHandler,
    SetJsCallNotify,
    PollJsCalls,
    JsCallRespond {
        call_id: u64,
        result: Option<Box<LaufeyValue>>,
        error: Option<Box<LaufeyValue>>,
    },
    SetJsNamespace { name: String },
    SetApplicationMenu { window_id: u32, template: Option<Box<LaufeyValue>> },
    ShowContextMenu { window_id: u32, x: i32, y: i32, template: Option<Box<LaufeyValue>> },
    ShowDialog {
        window_id: u32,
        dialog_type: i32,
        title: String,
        message: String,
        default_value: String,
        /// Whether there is a place for the text that a prompt hands back.
        wants_input: bool,
    },
    ReadClipboardText,
    WriteClipboardText { text: String },
    TestClickMenuItem { item_id: String },
    TestTriggerCloseRequested { window_id: u32 },
    SetDockBadge { text: Option<String> },
    BounceDock { kind: i32 },
    SetDockMenu { template: Option<Box<LaufeyValue>>, with_callback: bool },
    SetDockVisible { visible: bool },
    SetDockReopenHandler,
    CreateTrayIcon,
    DestroyTrayIcon { tray_id: u32 },
    SetTrayIcon { tray_id: u32, png: Vec<u8> },
    SetTrayIconDark { tray_id: u32, png: Option<Vec<u8>> },
    SetTrayTooltip { tray_id: u32, text: Option<String> },
    SetTrayMenu { tray_id: u32, template: Option<Box<LaufeyValue>>, with_callback: bool },
    SetTrayClickHandler { tray_id: u32 },
    SetTrayDoubleClickHandler { tray_id: u32 },
    GetTrayIconBounds { tray_id: u32 },
    ShowNotification { options: Option<Box<LaufeyValue>>, with_callback: bool },
    CloseNotification { notification_id: u32 },
    QueryPermission { kind: i32, callback: HandlerId },
    RequestPermission { kind: i32, callback: HandlerId },
    RegisterSchemeHandler { scheme: String },
    SchemeRequestReadBody { exchange: usize, capacity: usize },
    SchemeResponseBegin { exchange: usize, status: i32, headers: Vec<u8> },
    SchemeResponseWrite { exchange: usize, bytes: Vec<u8> },
    SchemeResponseFinish { exchange: usize },
}

/// Something that only the backend can tell: the call that asks for it, or what
/// is taken for granted where the backend cannot be asked.
pub enum Query<T> {
    Ask(BackendCall),
    Known(T),
}

/// How a bound function is run: right away, or as a task.
#[derive(Clone, Copy, Debug, PartialEq, Eq, Structural)]
pub enum BindingHandler {
    Sync(HandlerId),
    Async(HandlerId),
}

/// The handlers of one kind of event, per window, and whether the backend has
/// been told where to send events of that kind.
pub struct EventSlot {
    pub registered: bool,
    pub handlers: HashMap<u32, HandlerId>,
}

impl EventSlot {
    /// No handler has been registered, and the backend has not been told of any.
    pub open spec fn unused(self) -> bool {
        !self.registered && self.handlers@ == Map::<u32, HandlerId>::empty()
    }

    pub fn new() -> (r: EventSlot)
        ensures
            !r.registered,
            r.handlers@ == Map::<u32, HandlerId>::empty(),
    {
        EventSlot { registered: false, handlers: HashMap::new() }
    }

    /// The handler that a window has registered.
    pub open spec fn of(self, window_id: u32) -> Option<HandlerId> {
        if self.handlers@.contains_key(window_id) {
            Some(self.handlers@[window_id])
        } else {
            None
        }
    }

    pub fn handler(&self, window_id: u32) -> (r: Option<HandlerId>)
        ensures
            r == self.of(window_id),
    {
        match self.handlers.get(&window_id) {
            Some(h) => Some(*h),
            None => None,
        }
    }
}

/// Everything the runtime keeps. `calls` holds the calls it has made into the
/// backend, in order, until they are carried out.
pub struct Runtime {
    pub api: Option<LaufeyBackendApi>,
    pub calls: Vec<BackendCall>,
    pub shutdown_requested: bool,
    /// Whether anything can wait to be woken for script calls yet.
    pub js_notify_created: bool,
    pub js_handler_registered: bool,
    pub bindings: HashMap<u32, TextMap<BindingHandler>>,
    pub keyboard: EventSlot,
    pub ime: EventSlot,
    pub mouse_click: EventSlot,
    pub mouse_move: EventSlot,
    pub wheel: EventSlot,
    pub cursor_enter_leave: EventSlot,
    pub focused: EventSlot,
    pub resize: EventSlot,
    pub moved: EventSlot,
    pub close_requested: EventSlot,
    pub page_load: EventSlot,
    pub menu_click: HashMap<u32, HandlerId>,
    pub context_menu: HashMap<u32, HandlerId>,
    pub dock_menu: Option<HandlerId>,
    pub dock_reopen: Option<HandlerId>,
    pub tray_menu: HashMap<u32, HandlerId>,
    pub tray_click: HashMap<u32, HandlerId>,
    pub tray_double_click: HashMap<u32, HandlerId>,
    pub notification: HashMap<u32, HandlerId>,
    pub scheme: Option<HandlerId>,
}

impl Runtime {
    /// A backend table has been taken over.
    pub open spec fn ready(self) -> bool {
        self.api is Some
    }

    /// The backend table.
    pub open spec fn table(self) -> LaufeyBackendApi {
        self.api->0
    }

    /// Relative to `before`: the call has been made if there is one, and nothing
    /// else has changed.
    pub open spec fn called(self, before: Runtime, call: Option<BackendCall>) -> bool {
        &&& self == (Runtime { calls: self.calls, ..before })
        &&& self.calls@ == (match call {
            Some(c) => before.calls@.push(c),
            None => before.calls@,
        })
    }

    /// Relative to `before`: one more call has been made, which satisfies the
    /// description, and nothing else has changed.
    pub open spec fn called_with(
        self,
        before: Runtime,
        description: spec_fn(BackendCall) -> bool,
    ) -> bool {
        &&& self == (Runtime { calls: self.calls, ..before })
        &&& made_call(before.calls@, self.calls@, description)
    }

    /// Nothing has been taken over, registered or asked for.
    pub open spec fn fresh(self) -> bool {
        &&& !self.ready()
        &&& self.calls@ == Seq::<BackendCall>::empty()
        &&& !self.shutdown_requested && !self.js_notify_created && !self.js_handler_registered
        &&& self.bindings@ == Map::<u32, TextMap<BindingHandler>>::empty()
        &&& self.keyboard.unused()
        &&& self.ime.unused()
        &&& self.mouse_click.unused()
        &&& self.mouse_move.unused()
        &&& self.wheel.unused()
        &&& self.cursor_enter_leave.unused()
        &&& self.focused.unused()
        &&& self.resize.unused()
        &&& self.moved.unused()
        &&& self.close_requested.unused()
        &&& self.page_load.unused()
        &&& self.menu_click@ == Map::<u32, HandlerId>::empty()
        &&& self.context_menu@ == Map::<u32, HandlerId>::empty()
        &&& self.dock_menu is None && self.dock_reopen is None && self.scheme is None
        &&& self.tray_menu@ == Map::<u32, HandlerId>::empty()
        &&& self.tray_click@ == Map::<u32, HandlerId>::empty()
        &&& self.tray_double_click@ == Map::<u32, HandlerId>::empty()
        &&& self.notification@ == Map::<u32, HandlerId>::empty()
    }

    pub fn new() -> (r: Runtime)
        ensures
            r.fresh(),
    {
        Runtime {
            api: None,
            calls: Vec::new(),
            shutdown_requested: false,
            js_notify_created: false,
            js_handler_registered: false,
            bindings: HashMap::new(),
            keyboard: EventSlot::new(),
            ime: EventSlot::new(),
            mouse_click: EventSlot::new(),
            mouse_move: EventSlot::new(),
            wheel: EventSlot::new(),
            cursor_enter_leave: EventSlot::new(),
            focused: EventSlot::new(),
            resize: EventSlot::new(),
            moved: EventSlot::new(),
            close_requested: EventSlot::new(),
            page_load: EventSlot::new(),
            menu_click: HashMap::new(),
            context_menu: HashMap::new(),
            dock_menu: None,
            dock_reopen: None,
            tray_menu: HashMap::new(),
            tray_click: HashMap::new(),
            tray_double_click: HashMap::new(),
            notification: HashMap::new(),
            scheme: None,
        }
    }

    /// The backend table.
    pub fn api(&self) -> (r: LaufeyBackendApi)
        requires
            self.ready(),
        ensures
            r == self.table(),
    {
        self.api.unwrap()
    }

    /// Makes a call into the backend.
    pub(crate) fn call(&mut self, call: BackendCall)
        ensures
            final(self).called(*old(self), Some(call)),
    {
        self.calls.push(call);
    }

    /// Makes a call into the backend, if the entry for it is there.
    pub(crate) fn call_if(&mut self, present: bool, call: BackendCall)
        ensures
            final(self).called(
                *old(self),
                if present {
                    Some(call)
                } else {
                    None
                },
            ),
    {
        if present {
            self.calls.push(call);
        }
    }
}

/// One more call has been made, which satisfies the description.
pub open spec fn made_call(
    before: Seq<BackendCall>,
    after: Seq<BackendCall>,
    description: spec_fn(BackendCall) -> bool,
) -> bool {
    &&& after.len() == before.len() + 1
    &&& after.drop_last() == before
    &&& description(after.last())
}

impl Default for Runtime {
    fn default() -> (r: Runtime)
        ensures
            r.fresh(),
    {
        Runtime::new()
    }
}

/// Takes over a backend table. Refused with -1 if there is none, with -2 if it
/// is of another version, and with -3 if a table is in place already.
pub fn init_api(rt: &mut Runtime, api: Option<LaufeyBackendApi>) -> (r: i32)
    ensures
        r == (match api {
            None => -1i32,
            Some(t) => if t.version != LAUFEY_API_VERSION {
                -2i32
            } else if old(rt).ready() {
                -3i32
            } else {
                0i32
            },
        }),
        *final(rt) == (if r == 0 {
            Runtime { api, ..*old(rt) }
        } else {
            *old(rt)
        }),
{
    match api {
        None => -1,
        Some(t) => {
            if t.version != LAUFEY_API_VERSION {
                return -2;
            }
            if rt.api.is_some() {
                return -3;
            }
            rt.api = Some(t);
            0
        },
    }
}

/// The run loop was asked to end, and `wakes` says whether it has to be woken
/// for that.
pub open spec fn shut_down(before: Runtime, after: Runtime, wakes: bool) -> bool {
    &&& after == (Runtime { shutdown_requested: true, ..before })
    &&& wakes == before.js_notify_created
}

/// Asks the run loop to end. Returns whether anything waits that has to be woken
/// for it.
pub fn shutdown(rt: &mut Runtime) -> (r: bool)
    ensures
        shut_down(*old(rt), *final(rt), r),
{
    rt.shutdown_requested = true;
    rt.js_notify_created
}

/// Whether the run loop has been asked to end.
pub fn should_shutdown(rt: &Runtime) -> (r: bool)
    ensures
        r == rt.shutdown_requested,
{
    rt.shutdown_requested
}

/// Asking again changes nothing: the runtime is as the first call left it.
pub proof fn shutdown_is_lasting(
    before: Runtime,
    asked: Runtime,
    again: Runtime,
    wakes: bool,
    wakes_again: bool,
)
    requires
        shut_down(before, asked, wakes),
        shut_down(asked, again, wakes_again),
    ensures
        asked.shutdown_requested,
        again == asked,
        wakes_again == wakes,
{
}

/// The entry of the table through which handlers of a kind are registered.
pub open spec fn event_entry(t: LaufeyBackendApi, kind: EventKind) -> bool {
    match kind {
        EventKind::Keyboard => t.set_keyboard_event_handler,
        EventKind::Ime => t.set_ime_event_handler,
        EventKind::MouseClick => t.set_mouse_click_handler,
        EventKind::MouseMove => t.set_mouse_move_handler,
        EventKind::Wheel => t.set_wheel_handler,
        EventKind::CursorEnterLeave => t.set_cursor_enter_leave_handler,
        EventKind::Focused => t.set_focused_handler,
        EventKind::Resize => t.set_resize_handler,
        EventKind::Move => t.set_move_handler,
        EventKind::CloseRequested => t.set_close_requested_handler,
        EventKind::PageLoad => t.set_page_load_handler,
    }
}

} // verus!
