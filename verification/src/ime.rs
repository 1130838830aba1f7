//! Composition of text by an input method.

use crate::events;
use crate::runtime::{BackendCall, EventKind, HandlerId, Runtime};
use vstd::prelude::*;

verus! {

broadcast use vstd::std_specs::hash::group_hash_axioms;

pub const LAUFEY_IME_START: i32 = 0;

pub const LAUFEY_IME_UPDATE: i32 = 1;

pub const LAUFEY_IME_END: i32 = 2;

/// A step of a composition.
#[derive(Debug, Clone)]
pub struct ImeEvent {
    pub window_id: u32,
    pub state: ImeState,
    pub data: String,
}

/// Maps onto the W3C `compositionstart` / `compositionupdate` /
/// `compositionend` sequence. An event's data is the current composition text
/// (empty on start, and empty on end when the session is cancelled).
#[derive(Debug, Clone, Copy, PartialEq, Eq, Structural)]
pub enum ImeState {
    Start,
    Update,
    End,
}

impl ImeState {
    /// What a state number stands for; a number that stands for nothing ends the
    /// composition.
    pub open spec fn of_raw(raw: i32) -> ImeState {
        if raw == LAUFEY_IME_START {
            ImeState::Start
        } else if raw == LAUFEY_IME_UPDATE {
            ImeState::Update
        } else {
            ImeState::End
        }
    }

    pub fn from_raw(raw: i32) -> (r: ImeState)
        ensures
            r == ImeState::of_raw(raw),
    {
        if raw == LAUFEY_IME_START {
            ImeState::Start
        } else if raw == LAUFEY_IME_UPDATE {
            ImeState::Update
        } else {
            ImeState::End
        }
    }
}

/// Registers a window's handler for composition events. They are only observed;
/// the engine still owns the composition.
pub fn on_ime_event(rt: &mut Runtime, window_id: u32, handler: HandlerId)
    requires
        old(rt).ready() || old(rt).ime.registered,
    ensures
        *final(rt) == (Runtime { ime: final(rt).ime, calls: final(rt).calls, ..*old(rt) }),
        events::handler_added(old(rt).ime, final(rt).ime, window_id, handler),
        final(rt).calls@ == events::calls_after_registering(
            *old(rt),
            old(rt).ime,
            EventKind::Ime,
        ),
{
    if !rt.ime.registered {
        rt.ime.registered = true;
        let present = rt.api().set_ime_event_handler;
        rt.call_if(present, BackendCall::SetEventHandler { kind: EventKind::Ime });
    }
    rt.ime.handlers.insert(window_id, handler);
}

/// Takes in a composition event: the event, for the handler that the window has
/// registered. Without data it carries no text.
pub fn ime_event_trampoline(
    rt: &Runtime,
    window_id: u32,
    state: i32,
    data: Option<String>,
) -> (r: Option<(HandlerId, ImeEvent)>)
    ensures
        match rt.ime.of(window_id) {
            Some(h) => {
                &&& r matches Some((handler, event))
                &&& handler == h
                &&& event.window_id == window_id
                &&& event.state == ImeState::of_raw(state)
                &&& event.data@ == (match data {
                    Some(d) => d@,
                    None => Seq::empty(),
                })
            },
            None => r is None,
        },
{
    let text = match data {
        Some(d) => d,
        None => String::new(),
    };
    match rt.ime.handler(window_id) {
        Some(h) => Some((h, ImeEvent { window_id, state: ImeState::from_raw(state), data: text })),
        None => None,
    }
}

} // verus!
