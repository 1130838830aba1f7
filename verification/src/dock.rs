//! The dock or taskbar as the embedder sees it.

use crate::convert;
use crate::js;
use crate::menu;
use crate::menu::{template_values, MenuItem};
use crate::runtime;
use crate::runtime::{BackendCall, HandlerId, Runtime};
use crate::text;
use crate::text::chars_of;
use crate::value::Value;
use vstd::prelude::*;

verus! {

pub const LAUFEY_DOCK_BOUNCE_INFORMATIONAL: i32 = 0;

pub const LAUFEY_DOCK_BOUNCE_CRITICAL: i32 = 1;

/// How urgently to request the user's attention when calling [`bounce_dock`].
#[derive(Clone, Copy, Debug, PartialEq, Eq, Structural)]
pub enum DockBounceType {
    Informational,
    Critical,
}

/// A text that is worth showing: one that is not empty.
pub open spec fn shown_text(s: Option<&str>) -> Option<Seq<char>> {
    match s {
        Some(t) if t@.len() > 0 => Some(t@),
        _ => None,
    }
}

/// A copy of a text that is worth showing.
pub fn owned_if_shown(s: Option<&str>) -> (r: Option<String>)
    ensures
        match shown_text(s) {
            Some(t) => r matches Some(u) && u@ == t,
            None => r is None,
        },
{
    match s {
        Some(t) => if chars_of(t).len() > 0 {
            Some(t.to_string())
        } else {
            None
        },
        None => None,
    }
}

/// Set a short text badge on the app's icon. `None` or an empty text clears it.
pub fn set_dock_badge(rt: &mut Runtime, text: Option<&str>)
    requires
        old(rt).ready(),
        old(rt).table().set_dock_badge ==> (text matches Some(t) ==> text::nul_free(t@)),
    ensures
        if old(rt).table().set_dock_badge {
            final(rt).called_with(
                *old(rt),
                |c: BackendCall|
                    c matches BackendCall::SetDockBadge { text: t } && menu::opt_text(t)
                        == shown_text(text),
            )
        } else {
            *final(rt) == *old(rt)
        },
{
    if rt.api().set_dock_badge {
        rt.call(BackendCall::SetDockBadge { text: owned_if_shown(text) });
        assert(rt.calls@.drop_last() =~= old(rt).calls@);
    }
}

/// The number of a bounce type.
pub open spec fn bounce_number(kind: DockBounceType) -> i32 {
    match kind {
        DockBounceType::Informational => LAUFEY_DOCK_BOUNCE_INFORMATIONAL,
        DockBounceType::Critical => LAUFEY_DOCK_BOUNCE_CRITICAL,
    }
}

/// Ask for the user's attention at the app's icon.
pub fn bounce_dock(rt: &mut Runtime, kind: DockBounceType)
    requires
        old(rt).ready(),
    ensures
        final(rt).called(
            *old(rt),
            if old(rt).table().bounce_dock {
                Some(BackendCall::BounceDock { kind: bounce_number(kind) })
            } else {
                None
            },
        ),
{
    let present = rt.api().bounce_dock;
    let number: i32 = match kind {
        DockBounceType::Informational => LAUFEY_DOCK_BOUNCE_INFORMATIONAL,
        DockBounceType::Critical => LAUFEY_DOCK_BOUNCE_CRITICAL,
    };
    rt.call_if(present, BackendCall::BounceDock { kind: number });
}

/// Set a custom menu on the app's icon. `on_click` is told the id of an item
/// that is clicked.
pub fn set_dock_menu(rt: &mut Runtime, template: &[MenuItem], on_click: HandlerId)
    requires
        old(rt).ready(),
        old(rt).table().set_dock_menu ==> convert::sendable(
            old(rt).table(),
            menu::template_value(template@),
        ),
    ensures
        *final(rt) == (Runtime {
            dock_menu: Some(on_click),
            calls: final(rt).calls,
            ..*old(rt)
        }),
        if old(rt).table().set_dock_menu {
            runtime::made_call(
                old(rt).calls@,
                final(rt).calls@,
                |c: BackendCall|
                    c matches BackendCall::SetDockMenu { template: t, with_callback }
                        && with_callback && js::handed_view(t) == convert::encoded(
                        old(rt).table(),
                        menu::template_value(template@),
                    ),
            )
        } else {
            final(rt).calls@ == old(rt).calls@
        },
{
    let value = Value::List(template_values(template));
    rt.dock_menu = Some(on_click);
    let api = rt.api();
    if api.set_dock_menu {
        let raw = value.to_raw(&api);
        rt.call(BackendCall::SetDockMenu { template: raw, with_callback: true });
        assert(rt.calls@.drop_last() =~= old(rt).calls@);
    }
}

/// Remove the custom menu set by [`set_dock_menu`].
pub fn clear_dock_menu(rt: &mut Runtime)
    requires
        old(rt).ready(),
    ensures
        final(rt).called(
            Runtime { dock_menu: None, ..*old(rt) },
            if old(rt).table().set_dock_menu {
                Some(BackendCall::SetDockMenu { template: None, with_callback: false })
            } else {
                None
            },
        ),
{
    rt.dock_menu = None;
    let present = rt.api().set_dock_menu;
    rt.call_if(present, BackendCall::SetDockMenu { template: None, with_callback: false });
}

/// Show or hide the app's icon.
pub fn set_dock_visible(rt: &mut Runtime, visible: bool)
    requires
        old(rt).ready(),
    ensures
        final(rt).called(
            *old(rt),
            if old(rt).table().set_dock_visible {
                Some(BackendCall::SetDockVisible { visible })
            } else {
                None
            },
        ),
{
    let present = rt.api().set_dock_visible;
    rt.call_if(present, BackendCall::SetDockVisible { visible });
}

/// Register a handler for clicks on the app's icon. It is told whether any
/// window is visible.
pub fn on_dock_reopen(rt: &mut Runtime, handler: HandlerId)
    requires
        old(rt).ready(),
    ensures
        final(rt).called(
            Runtime { dock_reopen: Some(handler), ..*old(rt) },
            if old(rt).table().set_dock_reopen_handler {
                Some(BackendCall::SetDockReopenHandler)
            } else {
                None
            },
        ),
{
    rt.dock_reopen = Some(handler);
    let present = rt.api().set_dock_reopen_handler;
    rt.call_if(present, BackendCall::SetDockReopenHandler);
}

/// The handler that a click on an item of the dock menu goes to, with the item's
/// id.
pub fn dock_menu_click_callback(rt: &Runtime, item_id: Option<String>) -> (r: Option<(
    HandlerId,
    String,
)>)
    ensures
        r == (match (item_id, rt.dock_menu) {
            (Some(id), Some(handler)) => Some((handler, id)),
            _ => None,
        }),
{
    match (item_id, rt.dock_menu) {
        (Some(id), Some(handler)) => Some((handler, id)),
        _ => None,
    }
}

/// The handler that a click on the app's icon goes to.
pub fn dock_reopen_callback(rt: &Runtime, has_visible_windows: bool) -> (r: Option<(
    HandlerId,
    bool,
)>)
    ensures
        r == (match rt.dock_reopen {
            Some(handler) => Some((handler, has_visible_windows)),
            None => None,
        }),
{
    match rt.dock_reopen {
        Some(handler) => Some((handler, has_visible_windows)),
        None => None,
    }
}

} // verus!
