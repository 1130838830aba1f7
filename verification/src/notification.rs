//! System notifications as the embedder sees them.

use crate::convert;
use crate::js;
use crate::menu;
use crate::runtime::{BackendCall, HandlerId, Query, Runtime};
use crate::value;
use crate::value::{Dict, Value, ValueView};
use vstd::prelude::*;

verus! {

broadcast use vstd::std_specs::hash::group_hash_axioms;

pub const LAUFEY_NOTIFICATION_SHOWN: i32 = 0;

pub const LAUFEY_NOTIFICATION_CLICKED: i32 = 1;

pub const LAUFEY_NOTIFICATION_CLOSED: i32 = 2;

pub const LAUFEY_NOTIFICATION_ACTION: i32 = 3;

/// What happened to a notification.
#[derive(Debug, Clone)]
pub enum NotificationEvent {
    /// The OS displayed the banner.
    Shown,
    /// The user clicked the notification body.
    Clicked,
    /// The user dismissed the notification or it expired.
    Closed,
    /// The user clicked an action button. The string is the action `id`.
    Action(String),
}

/// An action button on a notification.
#[derive(Clone, Debug)]
pub struct NotificationAction {
    pub id: String,
    pub title: String,
}

/// Builder for a system notification: options are chained, and
/// [`Notification::show`] shows it.
#[derive(Clone, Debug)]
pub struct Notification {
    pub title: String,
    pub body: Option<String>,
    pub icon: Option<Vec<u8>>,
    pub tag: Option<String>,
    pub silent: Option<bool>,
    pub require_interaction: Option<bool>,
    pub actions: Vec<NotificationAction>,
}

/// Handle to a shown notification. Id 0 stands for none: the backend shows no
/// notifications.
#[derive(Debug, Clone, Copy, PartialEq, Eq, Structural)]
pub struct NotificationHandle {
    pub id: u32,
}

impl NotificationHandle {
    pub fn id(&self) -> (r: u32)
        ensures
            r == self.id,
    {
        self.id
    }

    /// Dismisses the notification and forgets its handler. On a handle with id 0
    /// nothing happens.
    pub fn close(&self, rt: &mut Runtime)
        requires
            self.id != 0 ==> old(rt).ready(),
        ensures
            if self.id == 0 {
                *final(rt) == *old(rt)
            } else {
                &&& *final(rt) == (Runtime {
                    notification: final(rt).notification,
                    calls: final(rt).calls,
                    ..*old(rt)
                })
                &&& final(rt).notification@ == old(rt).notification@.remove(self.id)
                &&& final(rt).calls@ == (if old(rt).table().close_notification {
                    old(rt).calls@.push(
                        BackendCall::CloseNotification { notification_id: self.id },
                    )
                } else {
                    old(rt).calls@
                })
            },
    {
        if self.id == 0 {
            return;
        }
        let present = rt.api().close_notification;
        rt.call_if(present, BackendCall::CloseNotification { notification_id: self.id });
        rt.notification.remove(&self.id);
    }
}

/// The value of an optional flag.
pub open spec fn flag_value(b: Option<bool>) -> Option<ValueView> {
    match b {
        Some(x) => Some(ValueView::Bool(x)),
        None => None,
    }
}

/// The value of an action button.
pub open spec fn action_value(a: NotificationAction) -> ValueView {
    ValueView::Dict(
        value::with_entry(
            value::with_entry(Seq::empty(), "id"@, ValueView::Text(a.id@)),
            "title"@,
            ValueView::Text(a.title@),
        ),
    )
}

/// The values of action buttons.
pub open spec fn actions_value(actions: Seq<NotificationAction>) -> Seq<ValueView> {
    actions.map_values(|a: NotificationAction| action_value(a))
}

/// The entries that a notification becomes: its title, and what was set of the
/// rest. A flag that was set crosses whichever way it was set; no buttons means
/// no entry for them.
pub open spec fn notification_entries(n: Notification) -> Seq<(Seq<char>, ValueView)> {
    let e0 = value::with_entry(Seq::empty(), "title"@, ValueView::Text(n.title@));
    let e1 = menu::with_optional(e0, "body"@, menu::text_value(n.body));
    let e2 = menu::with_optional(e1, "icon"@, menu::bytes_value(n.icon));
    let e3 = menu::with_optional(e2, "tag"@, menu::text_value(n.tag));
    let e4 = menu::with_optional(e3, "silent"@, flag_value(n.silent));
    let e5 = menu::with_optional(e4, "require_interaction"@, flag_value(n.require_interaction));
    menu::with_optional(
        e5,
        "actions"@,
        menu::value_if(n.actions@.len() > 0, ValueView::List(actions_value(n.actions@))),
    )
}

impl Notification {
    /// A notification with a title and nothing else.
    pub open spec fn titled(title: String, n: Notification) -> bool {
        &&& n.title == title
        &&& n.body is None && n.icon is None && n.tag is None
        &&& n.silent is None && n.require_interaction is None
        &&& n.actions@.len() == 0
    }

    /// Create a new notification with the given title (required field).
    pub fn new(title: String) -> (r: Notification)
        ensures
            Notification::titled(title, r),
    {
        Notification {
            title,
            body: None,
            icon: None,
            tag: None,
            silent: None,
            require_interaction: None,
            actions: Vec::new(),
        }
    }

    /// Alias for [`Notification::new`].
    pub fn builder(title: String) -> (r: Notification)
        ensures
            Notification::titled(title, r),
    {
        Notification::new(title)
    }

    pub fn body(self, body: String) -> (r: Notification)
        ensures
            r == (Notification { body: Some(body), ..self }),
    {
        Notification { body: Some(body), ..self }
    }

    /// Set the notification icon (PNG bytes).
    pub fn icon(self, png_bytes: Vec<u8>) -> (r: Notification)
        ensures
            r == (Notification { icon: Some(png_bytes), ..self }),
    {
        Notification { icon: Some(png_bytes), ..self }
    }

    /// Replace any existing notification with the same tag instead of stacking a
    /// new one.
    pub fn tag(self, tag: String) -> (r: Notification)
        ensures
            r == (Notification { tag: Some(tag), ..self }),
    {
        Notification { tag: Some(tag), ..self }
    }

    /// Suppress the system notification sound.
    pub fn silent(self, silent: bool) -> (r: Notification)
        ensures
            r == (Notification { silent: Some(silent), ..self }),
    {
        Notification { silent: Some(silent), ..self }
    }

    /// Keep the notification visible until the user dismisses it.
    pub fn require_interaction(self, require: bool) -> (r: Notification)
        ensures
            r == (Notification { require_interaction: Some(require), ..self }),
    {
        Notification { require_interaction: Some(require), ..self }
    }

    /// Add an action button. Multiple calls add multiple buttons.
    pub fn action(self, id: String, title: String) -> (r: Notification)
        ensures
            r.actions@ == self.actions@.push(NotificationAction { id, title }),
            r == (Notification { actions: r.actions, ..self }),
    {
        let mut n = self;
        n.actions.push(NotificationAction { id, title });
        n
    }

    /// The value form of a notification, as the backend expects it.
    pub fn to_value(&self) -> (r: Value)
        ensures
            r@ == ValueView::Dict(notification_entries(*self)),
    {
        let mut dict = Dict::new();
        dict.insert("title".to_string(), Value::String(self.title.clone()));
        if let Some(body) = &self.body {
            dict.insert("body".to_string(), Value::String(body.clone()));
        }
        if let Some(icon) = &self.icon {
            dict.insert("icon".to_string(), Value::Binary(icon.clone()));
        }
        if let Some(tag) = &self.tag {
            dict.insert("tag".to_string(), Value::String(tag.clone()));
        }
        if let Some(silent) = self.silent {
            dict.insert("silent".to_string(), Value::Bool(silent));
        }
        if let Some(require) = self.require_interaction {
            dict.insert("require_interaction".to_string(), Value::Bool(require));
        }
        if self.actions.len() > 0 {
            let mut list: Vec<Value> = Vec::new();
            let mut i: usize = 0;
            while i < self.actions.len()
                invariant
                    i <= self.actions@.len(),
                    list@.len() == i,
                    forall|j: int|
                        0 <= j < i ==> (#[trigger] list@[j])@ == action_value(self.actions@[j]),
                decreases self.actions@.len() - i,
            {
                let mut d = Dict::new();
                d.insert("id".to_string(), Value::String(self.actions[i].id.clone()));
                d.insert("title".to_string(), Value::String(self.actions[i].title.clone()));
                list.push(Value::Dict(d));
                i = i + 1;
            }
            proof {
                value::values_view_elements(list@);
                assert(value::values_view(list@) =~= actions_value(self.actions@));
            }
            dict.insert("actions".to_string(), Value::List(list));
        }
        Value::Dict(dict)
    }

    /// The notification crosses as a value, with or without a callback for its
    /// events.
    pub open spec fn is_shown_by(self, rt: Runtime, with_handler: bool, c: BackendCall) -> bool {
        &&& c matches BackendCall::ShowNotification { options, with_callback }
        &&& with_callback == with_handler
        &&& js::handed_view(options) == convert::encoded(
            rt.table(),
            ValueView::Dict(notification_entries(self)),
        )
    }

    /// How the notification is shown, and with what result if it cannot be.
    pub open spec fn shown(
        self,
        rt: Runtime,
        with_handler: bool,
        q: Query<NotificationHandle>,
    ) -> bool {
        if rt.table().show_notification {
            q matches Query::Ask(c) && self.is_shown_by(rt, with_handler, c)
        } else {
            q == Query::Known(NotificationHandle { id: 0 })
        }
    }

    /// How the notification is shown. [`notification_shown`] takes its id over.
    pub fn show(self, rt: &Runtime) -> (r: Query<NotificationHandle>)
        requires
            rt.ready(),
            rt.table().show_notification ==> convert::sendable(
                rt.table(),
                ValueView::Dict(notification_entries(self)),
            ),
        ensures
            self.shown(*rt, false, r),
    {
        self.show_with_handler(rt, false)
    }

    /// How the notification is shown with a handler for its events.
    /// [`notification_shown`] takes its id over and registers the handler.
    pub fn on_event(self, rt: &Runtime) -> (r: Query<NotificationHandle>)
        requires
            rt.ready(),
            rt.table().show_notification ==> convert::sendable(
                rt.table(),
                ValueView::Dict(notification_entries(self)),
            ),
        ensures
            self.shown(*rt, true, r),
    {
        self.show_with_handler(rt, true)
    }

    fn show_with_handler(self, rt: &Runtime, with_handler: bool) -> (r: Query<NotificationHandle>)
        requires
            rt.ready(),
            rt.table().show_notification ==> convert::sendable(
                rt.table(),
                ValueView::Dict(notification_entries(self)),
            ),
        ensures
            self.shown(*rt, with_handler, r),
    {
        let api = rt.api();
        if !api.show_notification {
            return Query::Known(NotificationHandle { id: 0 });
        }
        let options = self.to_value().to_raw(&api);
        Query::Ask(BackendCall::ShowNotification { options, with_callback: with_handler })
    }
}

/// The handlers once a notification was shown with a handler or without one.
pub open spec fn handlers_once_shown(
    handlers: Map<u32, HandlerId>,
    id: u32,
    handler: Option<HandlerId>,
) -> Map<u32, HandlerId> {
    match handler {
        Some(h) if id != 0 => handlers.insert(id, h),
        _ => handlers,
    }
}

/// Takes over a notification that was just shown. Its handler, if there is one,
/// is registered unless the id is 0.
pub fn notification_shown(rt: &mut Runtime, id: u32, handler: Option<HandlerId>) -> (r:
    NotificationHandle)
    ensures
        r.id == id,
        *final(rt) == (Runtime { notification: final(rt).notification, ..*old(rt) }),
        final(rt).notification@ == handlers_once_shown(old(rt).notification@, id, handler),
{
    if id != 0 {
        if let Some(h) = handler {
            rt.notification.insert(id, h);
        }
    }
    NotificationHandle { id }
}

/// The event that a reason stands for. An action without an id has the empty
/// one; an unknown reason stands for nothing.
pub open spec fn is_event(reason: i32, action_id: Option<String>, event: Option<NotificationEvent>) -> bool {
    if reason == LAUFEY_NOTIFICATION_SHOWN {
        event == Some(NotificationEvent::Shown)
    } else if reason == LAUFEY_NOTIFICATION_CLICKED {
        event == Some(NotificationEvent::Clicked)
    } else if reason == LAUFEY_NOTIFICATION_CLOSED {
        event == Some(NotificationEvent::Closed)
    } else if reason == LAUFEY_NOTIFICATION_ACTION {
        event matches Some(NotificationEvent::Action(id)) && id@ == (match action_id {
            Some(a) => a@,
            None => Seq::empty(),
        })
    } else {
        event is None
    }
}

/// The event that a reason stands for.
pub fn event_of(reason: i32, action_id: Option<String>) -> (r: Option<NotificationEvent>)
    ensures
        is_event(reason, action_id, r),
{
    if reason == LAUFEY_NOTIFICATION_SHOWN {
        Some(NotificationEvent::Shown)
    } else if reason == LAUFEY_NOTIFICATION_CLICKED {
        Some(NotificationEvent::Clicked)
    } else if reason == LAUFEY_NOTIFICATION_CLOSED {
        Some(NotificationEvent::Closed)
    } else if reason == LAUFEY_NOTIFICATION_ACTION {
        match action_id {
            Some(a) => Some(NotificationEvent::Action(a)),
            None => Some(NotificationEvent::Action(String::new())),
        }
    } else {
        None
    }
}

/// Whether a reason is one of the known ones.
pub open spec fn known_reason(reason: i32) -> bool {
    LAUFEY_NOTIFICATION_SHOWN <= reason <= LAUFEY_NOTIFICATION_ACTION
}

/// Who is told of an event of a notification: the handler that was registered,
/// if the reason is a known one.
pub open spec fn told(handlers: Map<u32, HandlerId>, id: u32, reason: i32) -> Option<HandlerId> {
    if known_reason(reason) && handlers.contains_key(id) {
        Some(handlers[id])
    } else {
        None
    }
}

/// The handlers after an event: a closed notification has none.
pub open spec fn handlers_after(handlers: Map<u32, HandlerId>, id: u32, reason: i32) -> Map<
    u32,
    HandlerId,
> {
    if reason == LAUFEY_NOTIFICATION_CLOSED {
        handlers.remove(id)
    } else {
        handlers
    }
}

/// Takes in an event of a notification: the event, for the handler that was
/// registered. Once a notification is closed its handler is forgotten. An
/// unknown reason comes to nothing.
pub fn notification_event_callback(
    rt: &mut Runtime,
    notification_id: u32,
    reason: i32,
    action_id: Option<String>,
) -> (r: Option<(HandlerId, NotificationEvent)>)
    ensures
        match r {
            Some((handler, event)) => {
                &&& told(old(rt).notification@, notification_id, reason) == Some(handler)
                &&& is_event(reason, action_id, Some(event))
            },
            None => told(old(rt).notification@, notification_id, reason) is None,
        },
        *final(rt) == (Runtime { notification: final(rt).notification, ..*old(rt) }),
        final(rt).notification@ == handlers_after(
            old(rt).notification@,
            notification_id,
            reason,
        ),
{
    let event = match event_of(reason, action_id) {
        Some(e) => e,
        None => {
            return None;
        },
    };
    let is_terminal = matches!(event, NotificationEvent::Closed);
    let handler = match rt.notification.get(&notification_id) {
        Some(h) => Some(*h),
        None => None,
    };
    if is_terminal {
        rt.notification.remove(&notification_id);
    }
    match handler {
        Some(h) => Some((h, event)),
        None => None,
    }
}

/// The handler that a notification was shown with is told of each of its events,
/// and of no event of another notification.
pub proof fn shown_handlers_are_told(
    handlers: Map<u32, HandlerId>,
    id: u32,
    handler: HandlerId,
    other: u32,
    reason: i32,
)
    requires
        id != 0,
        other != id,
    ensures
        ({
            let shown = handlers_once_shown(handlers, id, Some(handler));
            &&& known_reason(reason) ==> told(shown, id, reason) == Some(handler)
            &&& told(shown, other, reason) == told(handlers, other, reason)
        }),
{
}

/// Being closed is the last event that a notification's handler is told of; the
/// other notifications go on.
pub proof fn closed_is_the_last_event(
    handlers: Map<u32, HandlerId>,
    id: u32,
    other: u32,
    reason: i32,
)
    requires
        other != id,
    ensures
        ({
            let left = handlers_after(handlers, id, LAUFEY_NOTIFICATION_CLOSED);
            &&& told(left, id, reason) is None
            &&& told(left, other, reason) == told(handlers, other, reason)
        }),
{
}

} // verus!
