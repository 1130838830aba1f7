//! The dock, the tray, notifications, permissions, printing and URL schemes.

use crate::backend::{Backend, CommonEvent};
use crate::convert;
use crate::dock::{
    bounce_dock, clear_dock_menu, dock_menu_click_callback, dock_reopen_callback, on_dock_reopen,
    set_dock_badge, set_dock_menu, set_dock_visible, DockBounceType,
};
use crate::laws::embedder_windows::asks;
use crate::laws::menus;
use crate::laws::menus::is_entry_of;
use crate::menu;
use crate::menu::{parse_menu_template, MenuItem, ParsedMenuItem};
use crate::notification;
use crate::notification::{
    event_of, notification_event_callback, notification_shown, Notification, NotificationAction,
    NotificationEvent, NotificationHandle,
};
use crate::pdf::{after_write, PdfDelivery, PdfSlot};
use crate::permission::{query_permission, request_permission, PermissionKind, PermissionStatus};
use crate::raw_value::LaufeyValue;
use crate::runtime::{BackendCall, HandlerId, Query, Runtime};
use crate::scheme;
use crate::scheme::{
    flatten_headers, parse_flat_headers, register_scheme_handler, scheme_request_trampoline,
    SchemeExchange, SchemeRequest,
};
use crate::shell::{DockOp, PendingDockMenu, TrayOp};
use crate::text;
use crate::tray::{tray_click_callback, tray_dblclick_callback, tray_menu_click_callback, TrayIcon};
use crate::value;
use crate::value::{Dict, Value, ValueView};
use crate::window::Window;
use crate::window_state::Callback;
use vstd::prelude::*;
use vstd::utf8::*;

verus! {

/// One more call has been made.
pub open spec fn adds_a_call(before: Runtime, after: Runtime) -> bool {
    &&& after.calls@.len() == before.calls@.len() + 1
    &&& after.calls@.drop_last() =~= before.calls@
    &&& after.api == before.api && after.shutdown_requested == before.shutdown_requested
    &&& after.bindings == before.bindings && after.js_handler_registered
        == before.js_handler_registered
    &&& after.keyboard == before.keyboard && after.close_requested == before.close_requested
}

/// What is asked of the dock is asked of the backend: a badge with its text, and
/// none for an empty one; a bounce as 0, or 1 if it is critical; and to be shown
/// or hidden.
pub proof fn the_dock_is_asked(
    rt: &mut Runtime,
    text: Option<&str>,
    visible: bool,
    handler: HandlerId,
)
    requires
        old(rt).api is Some,
    ensures
        call_ensures(set_dock_badge, (rt, text), ()) && (old(rt).api->0).set_dock_badge ==> {
            &&& adds_a_call(*old(rt), *final(rt))
            &&& final(rt).calls@.last() matches BackendCall::SetDockBadge { text: t } && {
                &&& text is Some && text->0@.len() > 0 ==> t is Some && t->0@ == text->0@
                &&& text is None || text->0@.len() == 0 ==> t is None
            }
        },
        call_ensures(bounce_dock, (rt, DockBounceType::Informational), ()) ==> asks(
            *old(rt),
            *final(rt),
            (old(rt).api->0).bounce_dock,
            BackendCall::BounceDock { kind: 0 },
        ),
        call_ensures(bounce_dock, (rt, DockBounceType::Critical), ()) ==> asks(
            *old(rt),
            *final(rt),
            (old(rt).api->0).bounce_dock,
            BackendCall::BounceDock { kind: 1 },
        ),
        call_ensures(set_dock_visible, (rt, visible), ()) ==> asks(
            *old(rt),
            *final(rt),
            (old(rt).api->0).set_dock_visible,
            BackendCall::SetDockVisible { visible },
        ),
        call_ensures(on_dock_reopen, (rt, handler), ()) && (old(
            rt,
        ).api->0).set_dock_reopen_handler ==> adds_a_call(*old(rt), *final(rt)) && final(
            rt).calls@.last() == BackendCall::SetDockReopenHandler,
        call_ensures(clear_dock_menu, (rt,), ()) && (old(rt).api->0).set_dock_menu ==> adds_a_call(
            *old(rt),
            *final(rt),
        ) && final(rt).calls@.last() == (BackendCall::SetDockMenu {
            template: None,
            with_callback: false,
        }),
{
}

/// Clicks on the dock's menu and a reopened dock go to the handlers that were
/// registered for them, and to no one before.
pub proof fn the_dock_tells_its_handlers(
    menu_set: &mut Runtime,
    reopen_set: &mut Runtime,
    cleared: &mut Runtime,
    template: &[MenuItem],
    on_click: HandlerId,
    on_reopen: HandlerId,
    item: String,
    visible: bool,
    fresh: Runtime,
    none: Option<(HandlerId, String)>,
    none_reopened: Option<(HandlerId, bool)>,
    clicked: Option<(HandlerId, String)>,
    reopened: Option<(HandlerId, bool)>,
    gone: Option<(HandlerId, String)>,
    parsed: Vec<ParsedMenuItem>,
)
    requires
        old(menu_set).api matches Some(t) && t.builds_values() && t.set_dock_menu,
        call_ensures(set_dock_menu, (menu_set, template, on_click), ()),
        *old(reopen_set) == *final(menu_set),
        call_ensures(on_dock_reopen, (reopen_set, on_reopen), ()),
        *old(cleared) == *final(reopen_set),
        call_ensures(clear_dock_menu, (cleared,), ()),
        call_ensures(dock_menu_click_callback, (&*final(reopen_set), Some(item)), clicked),
        call_ensures(dock_reopen_callback, (&*final(cleared), visible), reopened),
        call_ensures(dock_menu_click_callback, (&*final(cleared), Some(item)), gone),
        call_ensures(Runtime::new, (), fresh),
        call_ensures(dock_menu_click_callback, (&fresh, Some(item)), none),
        call_ensures(dock_reopen_callback, (&fresh, visible), none_reopened),
        final(menu_set).calls@.last() matches BackendCall::SetDockMenu { template: Some(v), .. }
            ==> call_ensures(parse_menu_template, (Some(&*v),), parsed),
    ensures
        clicked == Some((on_click, item)),
        reopened == Some((on_reopen, visible)),
        gone is None && none is None && none_reopened is None,
        adds_a_call(*old(menu_set), *final(menu_set)),
        final(menu_set).calls@.last() matches BackendCall::SetDockMenu {
            template: Some(_),
            with_callback,
        } && with_callback,
        parsed@.len() == template@.len(),
        forall|i: int| 0 <= i < template@.len() ==> is_entry_of(template@[i], #[trigger] parsed@[i]),
{
    let t = old(menu_set).api->0;
    convert::building_is_exact(t, menu::template_value(template@));
    menu::template_reaches_the_backend(t, template@);
    menus::entries_are_read(template@, parsed@);
}

/// What is asked of a tray icon is asked of the backend, with the icon's id; an
/// icon that was never created, with the id 0, asks for nothing.
pub proof fn tray_icons_ask_the_backend(
    rt: &mut Runtime,
    icon: TrayIcon,
    r: TrayIcon,
    png: &[u8],
    text: Option<&str>,
    handler: HandlerId,
    created: Query<u32>,
    bounds: Query<Option<(i32, i32, i32, i32)>>,
)
    requires
        old(rt).api is Some,
        call_ensures(TrayIcon::creation, (&*old(rt),), created),
        call_ensures(TrayIcon::get_bounds, (&icon, &*old(rt)), bounds),
    ensures
        ({
            let t = old(rt).api->0;
            let there = icon.id != 0;
            &&& created == (if t.create_tray_icon {
                Query::Ask(BackendCall::CreateTrayIcon)
            } else {
                Query::Known(0u32)
            })
            &&& t.get_tray_icon_bounds ==> bounds == Query::<Option<(i32, i32, i32, i32)>>::Ask(
                BackendCall::GetTrayIconBounds { tray_id: icon.id },
            )
            &&& !t.get_tray_icon_bounds ==> bounds == Query::Known(
                None::<(i32, i32, i32, i32)>,
            )
            &&& (call_ensures(TrayIcon::set_icon, (&icon, rt, png), ()) || call_ensures(
                TrayIcon::icon,
                (icon, rt, png),
                r,
            )) && there && t.set_tray_icon ==> adds_a_call(*old(rt), *final(rt)) && (final(
                rt).calls@.last() matches BackendCall::SetTrayIcon { tray_id, png: p } && tray_id
                == icon.id && p@ == png@)
            &&& (call_ensures(TrayIcon::set_icon_dark, (&icon, rt, png), ()) || call_ensures(
                TrayIcon::icon_dark,
                (icon, rt, png),
                r,
            )) && there && t.set_tray_icon_dark ==> adds_a_call(*old(rt), *final(rt)) && (final(
                rt).calls@.last() matches BackendCall::SetTrayIconDark { tray_id, png: p }
                && tray_id == icon.id && (p is Some) == (png@.len() > 0) && (p matches Some(b) ==> b@
                == png@))
            &&& call_ensures(TrayIcon::set_tooltip, (&icon, rt, text), ()) && there
                && t.set_tray_tooltip ==> adds_a_call(*old(rt), *final(rt)) && (final(
                rt).calls@.last() matches BackendCall::SetTrayTooltip { tray_id, text: s }
                && tray_id == icon.id && (s is Some) == (text is Some && text->0@.len() > 0) && (
            s matches Some(u) ==> u@ == text->0@))
            &&& call_ensures(TrayIcon::on_click, (icon, rt, handler), r)
                && t.set_tray_click_handler ==> adds_a_call(*old(rt), *final(rt)) && final(
                rt).calls@.last() == (BackendCall::SetTrayClickHandler { tray_id: icon.id })
            &&& call_ensures(TrayIcon::set_double_click_handler, (&icon, rt, handler), ()) && there
                && t.set_tray_double_click_handler ==> adds_a_call(*old(rt), *final(rt)) && final(
                rt).calls@.last() == (BackendCall::SetTrayDoubleClickHandler { tray_id: icon.id })
            &&& call_ensures(TrayIcon::clear_menu, (&icon, rt), ()) && there && t.set_tray_menu
                ==> adds_a_call(*old(rt), *final(rt)) && final(rt).calls@.last() == (
            BackendCall::SetTrayMenu { tray_id: icon.id, template: None, with_callback: false })
            &&& call_ensures(TrayIcon::release, (icon, rt), ()) && there && icon.owned
                && t.destroy_tray_icon ==> adds_a_call(*old(rt), *final(rt)) && final(
                rt).calls@.last() == (BackendCall::DestroyTrayIcon { tray_id: icon.id })
            &&& call_ensures(TrayIcon::release, (icon, rt), ()) && !icon.owned ==> *final(rt)
                == *old(rt)
            &&& !there && (call_ensures(TrayIcon::set_icon, (&icon, rt, png), ()) || call_ensures(
                TrayIcon::set_icon_dark,
                (&icon, rt, png),
                (),
            ) || call_ensures(TrayIcon::set_tooltip, (&icon, rt, text), ()) || call_ensures(
                TrayIcon::clear_menu,
                (&icon, rt),
                (),
            ) || call_ensures(TrayIcon::set_double_click_handler, (&icon, rt, handler), ())
                || call_ensures(TrayIcon::release, (icon, rt), ())) ==> *final(rt) == *old(rt)
        }),
{
}

/// What happens to a tray icon is told to the handler that was registered for it
/// and that icon: a click, a double click, or a click on its menu with the id of
/// the item. Other icons keep their handlers, and an icon that was given up has
/// none.
pub proof fn tray_icons_tell_their_handlers(
    rt: &mut Runtime,
    releasing: &mut Runtime,
    icon: TrayIcon,
    r: TrayIcon,
    template: &[MenuItem],
    handler: HandlerId,
    any: u32,
    item: String,
    click: (Option<HandlerId>, Option<HandlerId>, Option<HandlerId>),
    double: (Option<HandlerId>, Option<HandlerId>, Option<HandlerId>),
    menu_click: (
        Option<(HandlerId, String)>,
        Option<(HandlerId, String)>,
        Option<(HandlerId, String)>,
    ),
)
    requires
        old(rt).api is Some,
        icon.id != 0 && icon.owned,
        *old(releasing) == *final(rt),
        call_ensures(TrayIcon::release, (icon, releasing), ()),
        call_ensures(tray_click_callback, (&*old(rt), any), click.0),
        call_ensures(tray_click_callback, (&*final(rt), any), click.1),
        call_ensures(tray_click_callback, (&*final(releasing), any), click.2),
        call_ensures(tray_dblclick_callback, (&*old(rt), any), double.0),
        call_ensures(tray_dblclick_callback, (&*final(rt), any), double.1),
        call_ensures(tray_dblclick_callback, (&*final(releasing), any), double.2),
        call_ensures(tray_menu_click_callback, (&*old(rt), any, Some(item)), menu_click.0),
        call_ensures(tray_menu_click_callback, (&*final(rt), any, Some(item)), menu_click.1),
        call_ensures(tray_menu_click_callback, (&*final(releasing), any, Some(item)), menu_click.2),
    ensures
        call_ensures(TrayIcon::on_click, (icon, rt, handler), r) ==> {
            &&& any == icon.id ==> click.1 == Some(handler) && click.2 is None
            &&& any != icon.id ==> click.1 == click.0 && click.2 == click.0
            &&& double.1 == double.0 && menu_click.1 == menu_click.0
        },
        call_ensures(TrayIcon::on_double_click, (icon, rt, handler), r) || call_ensures(
            TrayIcon::set_double_click_handler,
            (&icon, rt, handler),
            (),
        ) ==> {
            &&& any == icon.id ==> double.1 == Some(handler) && double.2 is None
            &&& any != icon.id ==> double.1 == double.0 && double.2 == double.0
            &&& click.1 == click.0 && menu_click.1 == menu_click.0
        },
        call_ensures(TrayIcon::menu, (icon, rt, template, handler), r) || call_ensures(
            TrayIcon::set_menu,
            (&icon, rt, template, handler),
            (),
        ) ==> {
            &&& any == icon.id ==> menu_click.1 == Some((handler, item)) && menu_click.2 is None
            &&& any != icon.id ==> menu_click.1 == menu_click.0 && menu_click.2 == menu_click.0
            &&& click.1 == click.0 && double.1 == double.0
        },
        call_ensures(TrayIcon::clear_menu, (&icon, rt), ()) ==> {
            &&& any == icon.id ==> menu_click.1 is None
            &&& any != icon.id ==> menu_click.1 == menu_click.0
            &&& click.1 == click.0 && double.1 == double.0
        },
{
}

/// A tray icon's menu reaches the backend as the template that was given.
pub proof fn tray_menus_reach_the_backend(
    rt: &mut Runtime,
    icon: TrayIcon,
    template: &[MenuItem],
    on_click: HandlerId,
    parsed: Vec<ParsedMenuItem>,
)
    requires
        old(rt).api matches Some(t) && t.builds_values() && t.set_tray_menu,
        icon.id != 0,
        call_ensures(TrayIcon::set_menu, (&icon, rt, template, on_click), ()),
        final(rt).calls@.last() matches BackendCall::SetTrayMenu { template: Some(v), .. }
            ==> call_ensures(parse_menu_template, (Some(&*v),), parsed),
    ensures
        adds_a_call(*old(rt), *final(rt)),
        final(rt).calls@.last() matches BackendCall::SetTrayMenu {
            tray_id,
            template: Some(_),
            with_callback,
        } && tray_id == icon.id && with_callback,
        parsed@.len() == template@.len(),
        forall|i: int| 0 <= i < template@.len() ==> is_entry_of(template@[i], #[trigger] parsed@[i]),
{
    let t = old(rt).api->0;
    convert::building_is_exact(t, menu::template_value(template@));
    menu::template_reaches_the_backend(t, template@);
    menus::entries_are_read(template@, parsed@);
}

/// A backend notes what the dock and the tray are asked for in the order in which
/// it is asked, each with its own values, and tells the event loop each time.
pub proof fn requests_to_the_shell_are_queued(
    b: &mut Backend,
    text: Option<String>,
    kind: i32,
    visible: bool,
    handler: Option<Callback>,
    tray_id: u32,
    png: Vec<u8>,
)
    ensures
        ({
            let dock = |op: DockOp|
                final(b).dock_ops@ =~= old(b).dock_ops@.push(op) && final(b).queue@ =~= old(
                    b,
                ).queue@.push(CommonEvent::DockTask) && final(b).tray_ops@ == old(b).tray_ops@
                    && final(b).common == old(b).common;
            let tray = |op: TrayOp|
                final(b).tray_ops@ =~= old(b).tray_ops@.push(op) && final(b).queue@ =~= old(
                    b,
                ).queue@.push(CommonEvent::TrayTask) && final(b).dock_ops@ == old(b).dock_ops@
                    && final(b).common == old(b).common;
            &&& call_ensures(Backend::backend_set_dock_badge, (b, text), ()) ==> dock(
                DockOp::SetBadge(text),
            )
            &&& call_ensures(Backend::backend_bounce_dock, (b, kind), ()) ==> dock(
                DockOp::Bounce(kind),
            )
            &&& call_ensures(Backend::backend_set_dock_visible, (b, visible), ()) ==> dock(
                DockOp::SetVisible(visible),
            )
            &&& call_ensures(Backend::backend_set_dock_reopen_handler, (b, handler), ()) ==> dock(
                DockOp::SetReopenHandler(handler),
            )
            &&& call_ensures(Backend::backend_create_tray_icon, (b,), tray_id) ==> tray(
                TrayOp::Create { tray_id },
            )
            &&& call_ensures(Backend::backend_destroy_tray_icon, (b, tray_id), ()) ==> tray(
                TrayOp::Destroy { tray_id },
            )
            &&& call_ensures(Backend::backend_set_tray_icon, (b, tray_id, png), ()) ==> tray(
                TrayOp::SetIcon { tray_id, png },
            )
            &&& call_ensures(Backend::backend_set_tray_icon_dark, (b, tray_id, png), ()) ==> tray(
                TrayOp::SetIconDark { tray_id, png },
            )
            &&& call_ensures(Backend::backend_set_tray_tooltip, (b, tray_id, text), ()) ==> tray(
                TrayOp::SetTooltip { tray_id, text },
            )
            &&& call_ensures(Backend::backend_set_tray_click_handler, (b, tray_id, handler), ())
                ==> tray(TrayOp::SetClickHandler { tray_id, handler })
            &&& call_ensures(
                Backend::backend_set_tray_double_click_handler,
                (b, tray_id, handler),
                (),
            ) ==> tray(TrayOp::SetDoubleClickHandler { tray_id, handler })
        }),
{
}

/// Two windows, and two tray icons, that are created one after the other have
/// different ids.
pub proof fn ids_differ(
    a: &mut Backend,
    b: &mut Backend,
    flags: u32,
    first: u32,
    second: u32,
)
    requires
        *old(b) == *final(a),
    ensures
        call_ensures(Backend::backend_create_window_ex, (a, flags, None), first) && call_ensures(
            Backend::backend_create_window_ex,
            (b, flags, None),
            second,
        ) ==> first != second,
        call_ensures(Backend::backend_create_tray_icon, (a,), first) && call_ensures(
            Backend::backend_create_tray_icon,
            (b,),
            second,
        ) ==> first != second,
{
}

/// The entry of a dictionary under a key is a text, a flag, or bytes, as given; or
/// there is none.
pub open spec fn has_text(d: Dict, key: Seq<char>, s: Option<String>) -> bool {
    match s {
        Some(t) => value::lookup(d@, key) == Some(ValueView::Text(t@)),
        None => value::lookup(d@, key) is None,
    }
}

proof fn notification_keys_differ()
    ensures
        "title"@.len() == 5 && "body"@.len() == 4 && "icon"@.len() == 4 && "tag"@.len() == 3,
        "silent"@.len() == 6 && "require_interaction"@.len() == 19 && "actions"@.len() == 7,
        "body"@[0] == 'b' && "icon"@[0] == 'i',
        "id"@.len() == 2,
{
    reveal_strlit("title");
    reveal_strlit("body");
    reveal_strlit("icon");
    reveal_strlit("tag");
    reveal_strlit("silent");
    reveal_strlit("require_interaction");
    reveal_strlit("actions");
    reveal_strlit("id");
}

proof fn notification_lookup(n: Notification, key: Seq<char>)
    requires
        key == "title"@ || key == "body"@ || key == "icon"@ || key == "tag"@ || key == "silent"@
            || key == "require_interaction"@ || key == "actions"@,
    ensures
        value::lookup(notification::notification_entries(n), key) == (if key == "title"@ {
            Some(ValueView::Text(n.title@))
        } else if key == "body"@ {
            menu::text_value(n.body)
        } else if key == "icon"@ {
            menu::bytes_value(n.icon)
        } else if key == "tag"@ {
            menu::text_value(n.tag)
        } else if key == "silent"@ {
            notification::flag_value(n.silent)
        } else if key == "require_interaction"@ {
            notification::flag_value(n.require_interaction)
        } else {
            menu::value_if(
                n.actions@.len() > 0,
                ValueView::List(notification::actions_value(n.actions@)),
            )
        }),
{
    notification_keys_differ();
    let nothing = Seq::<(Seq<char>, ValueView)>::empty();
    let title = ValueView::Text(n.title@);
    value::lookup_misses(nothing, key);
    value::set_then_get(nothing, "title"@, title, key);
    let e0 = value::with_entry(nothing, "title"@, title);
    menu::optional_lookup(e0, "body"@, menu::text_value(n.body), key);
    let e1 = menu::with_optional(e0, "body"@, menu::text_value(n.body));
    menu::optional_lookup(e1, "icon"@, menu::bytes_value(n.icon), key);
    let e2 = menu::with_optional(e1, "icon"@, menu::bytes_value(n.icon));
    menu::optional_lookup(e2, "tag"@, menu::text_value(n.tag), key);
    let e3 = menu::with_optional(e2, "tag"@, menu::text_value(n.tag));
    menu::optional_lookup(e3, "silent"@, notification::flag_value(n.silent), key);
    let e4 = menu::with_optional(e3, "silent"@, notification::flag_value(n.silent));
    menu::optional_lookup(
        e4,
        "require_interaction"@,
        notification::flag_value(n.require_interaction),
        key,
    );
    let e5 = menu::with_optional(
        e4,
        "require_interaction"@,
        notification::flag_value(n.require_interaction),
    );
    menu::optional_lookup(
        e5,
        "actions"@,
        menu::value_if(
            n.actions@.len() > 0,
            ValueView::List(notification::actions_value(n.actions@)),
        ),
        key,
    );
}

/// A notification crosses as a dictionary with its title, and its body, icon, tag,
/// whether it is silent, and whether it stays until it is answered, each under its
/// own name where it was given; its actions are a list, in order, each with its id
/// and title, and are left out if there are none.
pub proof fn notifications_cross_with_their_parts(n: Notification, r: Value, i: int)
    requires
        call_ensures(Notification::to_value, (&n,), r),
    ensures
        r matches Value::Dict(d) && {
            &&& value::lookup(d@, "title"@) == Some(ValueView::Text(n.title@))
            &&& has_text(d, "body"@, n.body)
            &&& has_text(d, "tag"@, n.tag)
            &&& n.icon matches Some(b) ==> value::lookup(d@, "icon"@) == Some(
                ValueView::Binary(b@),
            )
            &&& n.icon is None ==> value::lookup(d@, "icon"@) is None
            &&& n.silent matches Some(f) ==> value::lookup(d@, "silent"@) == Some(
                ValueView::Bool(f),
            )
            &&& n.silent is None ==> value::lookup(d@, "silent"@) is None
            &&& n.require_interaction matches Some(f) ==> value::lookup(
                d@,
                "require_interaction"@,
            ) == Some(ValueView::Bool(f))
            &&& n.require_interaction is None ==> value::lookup(d@, "require_interaction"@) is None
            &&& n.actions@.len() == 0 ==> value::lookup(d@, "actions"@) is None
            &&& n.actions@.len() > 0 ==> {
                &&& value::lookup(d@, "actions"@) matches Some(ValueView::List(l))
                &&& l.len() == n.actions@.len()
                &&& 0 <= i < l.len() ==> {
                    &&& l[i] matches ValueView::Dict(e)
                    &&& value::lookup(e, "id"@) == Some(ValueView::Text(n.actions@[i].id@))
                    &&& value::lookup(e, "title"@) == Some(ValueView::Text(n.actions@[i].title@))
                }
            }
        },
{
    notification_keys_differ();
    notification_lookup(n, "title"@);
    notification_lookup(n, "body"@);
    notification_lookup(n, "icon"@);
    notification_lookup(n, "tag"@);
    notification_lookup(n, "silent"@);
    notification_lookup(n, "require_interaction"@);
    notification_lookup(n, "actions"@);
    if 0 <= i < n.actions@.len() {
        let nothing = Seq::<(Seq<char>, ValueView)>::empty();
        let a = n.actions@[i];
        let e0 = value::with_entry(nothing, "id"@, ValueView::Text(a.id@));
        value::set_then_get(nothing, "id"@, ValueView::Text(a.id@), "title"@);
        value::set_then_get(e0, "title"@, ValueView::Text(a.title@), "id"@);
    }
}

/// Each part that is set on a notification is set, and nothing else changes; an
/// action goes after those that are there. A new one has its title alone.
pub proof fn notifications_are_built_part_by_part(
    n: Notification,
    r: Notification,
    s: String,
    t: String,
    bytes: Vec<u8>,
    flag: bool,
)
    ensures
        call_ensures(Notification::new, (s,), r) || call_ensures(Notification::builder, (s,), r)
            ==> r.title == s && r.body is None && r.icon is None && r.tag is None && r.silent
            is None && r.require_interaction is None && r.actions@.len() == 0,
        call_ensures(Notification::body, (n, s), r) ==> r == (Notification {
            body: Some(s),
            ..n
        }),
        call_ensures(Notification::icon, (n, bytes), r) ==> r == (Notification {
            icon: Some(bytes),
            ..n
        }),
        call_ensures(Notification::tag, (n, s), r) ==> r == (Notification { tag: Some(s), ..n }),
        call_ensures(Notification::silent, (n, flag), r) ==> r == (Notification {
            silent: Some(flag),
            ..n
        }),
        call_ensures(Notification::require_interaction, (n, flag), r) ==> r == (Notification {
            require_interaction: Some(flag),
            ..n
        }),
        call_ensures(Notification::action, (n, s, t), r) ==> r == (Notification {
            actions: r.actions,
            ..n
        }) && r.actions@ =~= n.actions@.push(NotificationAction { id: s, title: t }),
{
}

/// What happens to a notification is told to the handler that it was shown with,
/// until it is closed: 0 for shown, 1 for clicked, 2 for closed and 3 for an
/// action, with the id of the action. Other notifications keep their handlers.
pub proof fn notifications_tell_their_handlers(
    showing: &mut Runtime,
    telling: &mut Runtime,
    again: &mut Runtime,
    elsewhere: &mut Runtime,
    elsewhere_before: &mut Runtime,
    id: u32,
    other: u32,
    handler: HandlerId,
    shown: NotificationHandle,
    reason: i32,
    later: i32,
    action: Option<String>,
    r: Option<(HandlerId, NotificationEvent)>,
    r2: Option<(HandlerId, NotificationEvent)>,
    r3: Option<(HandlerId, NotificationEvent)>,
    r4: Option<(HandlerId, NotificationEvent)>,
)
    requires
        id != 0 && other != id,
        call_ensures(notification_shown, (showing, id, Some(handler)), shown),
        *old(telling) == *final(showing),
        call_ensures(notification_event_callback, (telling, id, reason, action), r),
        *old(again) == *final(telling),
        call_ensures(notification_event_callback, (again, id, later, action), r2),
        *old(elsewhere) == *final(telling) && *old(elsewhere_before) == *old(showing),
        call_ensures(notification_event_callback, (elsewhere, other, later, action), r3),
        call_ensures(notification_event_callback, (elsewhere_before, other, later, action), r4),
    ensures
        shown.id == id,
        reason == 0 ==> r == Some((handler, NotificationEvent::Shown)),
        reason == 1 ==> r == Some((handler, NotificationEvent::Clicked)),
        reason == 2 ==> r == Some((handler, NotificationEvent::Closed)) && r2 is None,
        reason == 3 ==> (r matches Some((h, NotificationEvent::Action(a))) && h == handler && (
        action matches Some(given) ==> a@ == given@) && (action is None ==> a@.len() == 0)),
        reason < 0 || reason > 3 ==> r is None,
        reason != 2 && 0 <= later <= 3 ==> r2 is Some && (r2->0).0 == handler,
        (r3 is Some) == (r4 is Some) && (r4 is Some ==> (r3->0).0 == (r4->0).0),
{
}

/// A notification is shown and closed by the backend; one that was not shown, with
/// the id 0, is not closed, and is told nothing.
pub proof fn notifications_ask_the_backend(
    rt: &mut Runtime,
    n: Notification,
    handle: NotificationHandle,
    v: Value,
    raw: Option<Box<LaufeyValue>>,
    shown: Query<NotificationHandle>,
    with_events: Query<NotificationHandle>,
)
    requires
        old(rt).api is Some,
        call_ensures(Notification::to_value, (&n,), v),
        call_ensures(Value::to_raw, (&v, &old(rt).api->0), raw),
        call_ensures(Notification::show, (n, &*old(rt)), shown),
        call_ensures(Notification::on_event, (n, &*old(rt)), with_events),
    ensures
        (old(rt).api->0).show_notification ==> {
            &&& shown matches Query::Ask(
                BackendCall::ShowNotification { options, with_callback },
            ) && !with_callback && (options is Some) == (raw is Some) && (raw is Some
                ==> options->0@ == raw->0@)
            &&& with_events matches Query::Ask(
                BackendCall::ShowNotification { options, with_callback },
            ) && with_callback && (options is Some) == (raw is Some) && (raw is Some ==> options->0@
                == raw->0@)
        },
        !(old(rt).api->0).show_notification ==> shown == Query::Known(
            NotificationHandle { id: 0 },
        ) && with_events == shown,
        call_ensures(NotificationHandle::close, (&handle, rt), ()) && handle.id == 0 ==> *final(rt)
            == *old(rt),
        call_ensures(NotificationHandle::close, (&handle, rt), ()) && handle.id != 0 && (old(
            rt,
        ).api->0).close_notification ==> final(rt).calls@ =~= old(rt).calls@.push(
            BackendCall::CloseNotification { notification_id: handle.id },
        ),
{
}

/// A permission is asked for by its number, 1 for notifications, with the handler
/// that is told of it; a backend that has none is told of as unsupported at once.
/// The numbers 0, 1 and 2 mean granted, denied and to be asked for; any other means
/// that it is unsupported.
pub proof fn permissions_are_asked_for(
    rt: &mut Runtime,
    callback: HandlerId,
    r: Option<PermissionStatus>,
    number: i32,
    raw: i32,
    status: PermissionStatus,
)
    requires
        old(rt).api is Some,
        call_ensures(PermissionKind::to_raw, (PermissionKind::Notifications,), number),
        call_ensures(PermissionStatus::from_raw, (raw,), status),
    ensures
        number == 1,
        status is Granted <==> raw == 0,
        status is Denied <==> raw == 1,
        status is Prompt <==> raw == 2,
        status is Unsupported <==> raw != 0 && raw != 1 && raw != 2,
        call_ensures(query_permission, (rt, PermissionKind::Notifications, callback), r) ==> {
            &&& asks(
                *old(rt),
                *final(rt),
                (old(rt).api->0).query_permission,
                BackendCall::QueryPermission { kind: 1, callback },
            )
            &&& (old(rt).api->0).query_permission ==> r is None
            &&& !(old(rt).api->0).query_permission ==> r == Some(PermissionStatus::Unsupported)
        },
        call_ensures(request_permission, (rt, PermissionKind::Notifications, callback), r) ==> {
            &&& asks(
                *old(rt),
                *final(rt),
                (old(rt).api->0).request_permission,
                BackendCall::RequestPermission { kind: 1, callback },
            )
            &&& (old(rt).api->0).request_permission ==> r is None
            &&& !(old(rt).api->0).request_permission ==> r == Some(PermissionStatus::Unsupported)
        },
{
}

/// A page is printed by the backend, within a minute unless another time is given;
/// a backend that cannot print is told of at once.
pub proof fn pages_are_printed(
    rt: &mut Runtime,
    w: Window,
    path: Option<&str>,
    millis: u64,
    r: Result<PdfSlot, String>,
)
    requires
        old(rt).api is Some,
        call_ensures(Window::print_to_pdf, (&w, rt, path), r) && millis == 60_000 || call_ensures(
            Window::print_to_pdf_with_timeout,
            (&w, rt, path, millis),
            r,
        ),
    ensures
        (old(rt).api->0).print_to_pdf ==> {
            &&& adds_a_call(*old(rt), *final(rt))
            &&& final(rt).calls@.last() == (BackendCall::PrintToPdf { window_id: w.id })
            &&& r matches Ok(slot) && slot.pending && slot.timeout_millis == millis && (slot.path
                is Some) == (path is Some) && (path is Some ==> slot.path->0@ == path->0@)
        },
        !(old(rt).api->0).print_to_pdf ==> {
            &&& *final(rt) == *old(rt)
            &&& r matches Err(m) && m@ == "print_to_pdf is not supported by this backend"@
        },
{
}

/// A request to print is resolved once, by whichever comes first: the backend, with
/// an error, the document, or the document to be written to the file that was asked
/// for; or the end of the time that it has.
pub proof fn printing_is_resolved_once(
    slot: &mut PdfSlot,
    then: &mut PdfSlot,
    bytes: Vec<u8>,
    error: Option<String>,
    seconds: &str,
    delivered: Option<PdfDelivery>,
    expired: Option<Result<Vec<u8>, String>>,
    waits: bool,
    waited: u64,
)
    requires
        call_ensures(PdfSlot::watchdog_waits, (&*old(slot), waited), waits),
        *old(then) == *final(slot),
    ensures
        waits == (old(slot).pending && waited < old(slot).timeout_millis),
        call_ensures(PdfSlot::complete, (slot, bytes, error), delivered) ==> {
            &&& old(slot).pending && error is Some ==> delivered == Some(
                PdfDelivery::Resolve(Err(error->0)),
            )
            &&& old(slot).pending && error is None && old(slot).path is None ==> delivered == Some(
                PdfDelivery::Resolve(Ok(bytes)),
            )
            &&& old(slot).pending && error is None && old(slot).path is Some ==> delivered == Some(
                PdfDelivery::WriteThenResolve { path: old(slot).path->0, bytes },
            )
            &&& !old(slot).pending ==> delivered is None
        },
        call_ensures(PdfSlot::complete, (slot, bytes, error), delivered) && call_ensures(
            PdfSlot::time_out,
            (then, seconds),
            expired,
        ) ==> expired is None,
        call_ensures(PdfSlot::time_out, (slot, seconds), expired) && old(slot).pending ==> expired
            is Some && expired->0 is Err && expired->0->Err_0@ == "print_to_pdf timed out after "@
            + seconds@ + "s waiting for the backend"@,
        call_ensures(PdfSlot::time_out, (slot, seconds), expired) && call_ensures(
            PdfSlot::complete,
            (then, bytes, error),
            delivered,
        ) ==> delivered is None,
{
}

/// A document that was written is the result; one that could not be is an error
/// that names the file and the reason.
pub proof fn written_documents_are_the_result(
    path: &str,
    bytes: Vec<u8>,
    failure: Option<&str>,
    r: Result<Vec<u8>, String>,
)
    requires
        call_ensures(after_write, (path, bytes, failure), r),
    ensures
        failure is None ==> r == Ok::<Vec<u8>, String>(bytes),
        failure matches Some(why) ==> (r matches Err(m) && m@ == "failed to write PDF to "@ + path@
            + ": "@ + why@),
{
}

/// A header is its name and its value, each with a NUL after it; and headers stand
/// one after the other.
pub proof fn headers_are_put_on_the_wire(
    one: &[(String, String)],
    rest: &[(String, String)],
    all: &[(String, String)],
    r_one: Vec<u8>,
    r_rest: Vec<u8>,
    r_all: Vec<u8>,
)
    requires
        call_ensures(flatten_headers, (one,), r_one),
        call_ensures(flatten_headers, (rest,), r_rest),
        call_ensures(flatten_headers, (all,), r_all),
        one@.len() == 1,
        all@ == one@ + rest@,
    ensures
        r_one@ == encode_utf8(one@[0].0@) + seq![0u8] + encode_utf8(one@[0].1@) + seq![0u8],
        r_all@ == r_one@ + r_rest@,
{
    let first = scheme::headers_view(one@);
    let views = scheme::headers_view(all@);
    assert(first[0] == (one@[0].0@, one@[0].1@));
    assert(first.skip(1) =~= Seq::empty());
    assert(scheme::flattened(first.skip(1)) =~= Seq::<u8>::empty());
    assert(views[0] == (all@[0].0@, all@[0].1@));
    assert(views.skip(1) =~= scheme::headers_view(rest@)) by {
        assert(all@.skip(1) =~= rest@);
    }
    assert(all@[0] == one@[0]);
    let head = encode_utf8(one@[0].0@) + seq![0u8] + encode_utf8(one@[0].1@) + seq![0u8];
    assert(r_one@ =~= head);
}

/// Headers that are put on the wire reach the handler of a scheme as they were:
/// the same names and values, in the same order. With them go the window, the
/// method, the address, and the exchange that answers.
pub proof fn requests_reach_the_handler(
    registering: &mut Runtime,
    rt: &mut Runtime,
    name: &str,
    handler: HandlerId,
    headers: &[(String, String)],
    wire: Vec<u8>,
    bytes: &[u8],
    window_id: u32,
    exchange: usize,
    method: Option<String>,
    url: Option<String>,
    r: Option<(HandlerId, SchemeRequest)>,
    i: int,
)
    requires
        old(registering).api is Some,
        call_ensures(register_scheme_handler, (registering, name, handler), ()),
        *old(rt) == *final(registering),
        call_ensures(flatten_headers, (headers,), wire),
        bytes@ == wire@,
        forall|k: int|
            0 <= k < headers@.len() ==> text::nul_free((#[trigger] headers@[k]).0@)
                && text::nul_free(headers@[k].1@) && !(headers@[k].0@.len() == 0
                && headers@[k].1@.len() == 0),
        call_ensures(
            scheme_request_trampoline,
            (rt, window_id, exchange, method, url, bytes),
            r,
        ),
    ensures
        (old(registering).api->0).register_scheme_handler ==> adds_a_call(
            *old(registering),
            *final(registering),
        ) && (final(registering).calls@.last() matches BackendCall::RegisterSchemeHandler {
            scheme,
        } && scheme@ == name@),
        *final(rt) == *old(rt),
        r matches Some((h, req)) && {
            &&& h == handler && req.window_id == window_id && req.exchange.handle == exchange
            &&& method matches Some(m) ==> req.method@ == m@
            &&& method is None ==> req.method@.len() == 0
            &&& url matches Some(u) ==> req.url@ == u@
            &&& url is None ==> req.url@.len() == 0
            &&& req.headers@.len() == headers@.len()
            &&& 0 <= i < headers@.len() ==> req.headers@[i].0@ == headers@[i].0@
                && req.headers@[i].1@ == headers@[i].1@
        },
{
    let views = scheme::headers_view(headers@);
    assert(views.len() == headers@.len());
    assert forall|k: int| 0 <= k < views.len() implies text::nul_free((#[trigger] views[k]).0)
        && text::nul_free(views[k].1) && !(views[k].0.len() == 0 && views[k].1.len() == 0) by {
        assert(views[k] == (headers@[k].0@, headers@[k].1@));
    }
    scheme::headers_survive_the_wire(views);
    let read = scheme::wire_headers(bytes@);
    assert(read.len() == headers@.len());
    if 0 <= i < headers@.len() {
        assert(views[i] == (headers@[i].0@, headers@[i].1@));
        assert(read[i] == (encode_utf8(views[i].0), encode_utf8(views[i].1)));
        encode_utf8_valid_utf8(views[i].0);
        encode_utf8_decode_utf8(views[i].0);
        encode_utf8_valid_utf8(views[i].1);
        encode_utf8_decode_utf8(views[i].1);
    }
}

/// A request that nobody handles is finished at once.
pub proof fn requests_without_a_handler_are_finished(
    fresh: Runtime,
    rt: &mut Runtime,
    window_id: u32,
    exchange: usize,
    method: Option<String>,
    url: Option<String>,
    bytes: &[u8],
    r: Option<(HandlerId, SchemeRequest)>,
)
    requires
        call_ensures(Runtime::new, (), fresh),
        old(rt).scheme == fresh.scheme,
        old(rt).api is Some,
        call_ensures(
            scheme_request_trampoline,
            (rt, window_id, exchange, method, url, bytes),
            r,
        ),
    ensures
        r is None,
        asks(
            *old(rt),
            *final(rt),
            (old(rt).api->0).scheme_response_finish,
            BackendCall::SchemeResponseFinish { exchange },
        ),
{
}

/// An exchange reads its request and writes its response under its own number:
/// the status, the headers as they go on the wire, the bytes, and the end.
pub proof fn exchanges_answer_under_their_number(
    rt: &mut Runtime,
    e: SchemeExchange,
    capacity: usize,
    status: i32,
    headers: &[(String, String)],
    wire: Vec<u8>,
    bytes: &[u8],
    body: Query<isize>,
    written: Query<isize>,
)
    requires
        old(rt).api is Some,
        call_ensures(SchemeExchange::read_body, (&e, &*old(rt), capacity), body),
        call_ensures(SchemeExchange::write, (&e, &*old(rt), bytes), written),
        call_ensures(flatten_headers, (headers,), wire),
    ensures
        (old(rt).api->0).scheme_request_read_body ==> body == Query::<isize>::Ask(
            BackendCall::SchemeRequestReadBody { exchange: e.handle, capacity },
        ),
        !(old(rt).api->0).scheme_request_read_body ==> body == Query::Known(-1isize),
        (old(rt).api->0).scheme_response_write ==> (written matches Query::Ask(
            BackendCall::SchemeResponseWrite { exchange, bytes: b },
        ) && exchange == e.handle && b@ == bytes@),
        !(old(rt).api->0).scheme_response_write ==> written == Query::Known(-1isize),
        call_ensures(SchemeExchange::begin, (&e, rt, status, headers), ()) && (old(
            rt,
        ).api->0).scheme_response_begin ==> adds_a_call(*old(rt), *final(rt)) && (final(
            rt).calls@.last() matches BackendCall::SchemeResponseBegin {
            exchange,
            status: s,
            headers: h,
        } && exchange == e.handle && s == status && h@ == wire@),
        call_ensures(SchemeExchange::finish, (e, rt), ()) ==> asks(
            *old(rt),
            *final(rt),
            (old(rt).api->0).scheme_response_finish,
            BackendCall::SchemeResponseFinish { exchange: e.handle },
        ),
{
}

/// A menu for the dock, or for a tray icon, is noted as the template was parsed,
/// with the callback and its data; without a template it is taken away.
pub proof fn menus_of_the_shell_are_noted(
    b: &mut Backend,
    tray_id: u32,
    template: Option<&LaufeyValue>,
    callback: Option<usize>,
    data: usize,
    parsed: Vec<ParsedMenuItem>,
)
    requires
        call_ensures(parse_menu_template, (template,), parsed),
    ensures
        call_ensures(Backend::backend_set_dock_menu, (b, template, callback, data), ()) ==> {
            &&& final(b).dock_ops@.len() == old(b).dock_ops@.len() + 1
            &&& final(b).dock_ops@.drop_last() =~= old(b).dock_ops@
            &&& final(b).queue@ =~= old(b).queue@.push(CommonEvent::DockTask)
            &&& template is None ==> final(b).dock_ops@.last() == DockOp::SetMenu(None)
            &&& template is Some ==> (final(b).dock_ops@.last() matches DockOp::SetMenu(Some(m))
                && m.callback == callback && m.callback_data == data && menu::parsed_view(m.items@)
                == menu::parsed_view(parsed@))
        },
        call_ensures(Backend::backend_set_tray_menu, (b, tray_id, template, callback, data), ())
            ==> {
            &&& final(b).tray_ops@.len() == old(b).tray_ops@.len() + 1
            &&& final(b).tray_ops@.drop_last() =~= old(b).tray_ops@
            &&& final(b).queue@ =~= old(b).queue@.push(CommonEvent::TrayTask)
            &&& template is None ==> final(b).tray_ops@.last() == (TrayOp::ClearMenu { tray_id })
            &&& template is Some ==> (final(b).tray_ops@.last() matches TrayOp::SetMenu {
                tray_id: t,
                items,
                callback: c,
                callback_data: d,
            } && t == tray_id && c == callback && d == data && menu::parsed_view(items@)
                == menu::parsed_view(parsed@))
        },
{
}

proof fn no_nul_before(bytes: Seq<u8>, n: int)
    requires
        0 <= n <= bytes.len(),
        forall|i: int| 0 <= i < n ==> bytes[i] != 0,
        n < bytes.len() ==> bytes[n] == 0,
    ensures
        scheme::first_nul(bytes) == n,
    decreases n,
{
    if n > 0 {
        no_nul_before(bytes.skip(1), n - 1);
    }
}

/// Headers are read off the wire one by one: a name and a value, each with a NUL
/// after it, are the first header, and the others are those of what follows. An
/// empty name with an empty value ends them, and so does what has no NUL.
pub proof fn headers_are_read_one_by_one(
    bytes: &[u8],
    rest: &[u8],
    name: Seq<u8>,
    value: Seq<u8>,
    r: Vec<(String, String)>,
    others: Vec<(String, String)>,
    i: int,
)
    requires
        call_ensures(parse_flat_headers, (bytes,), r),
        call_ensures(parse_flat_headers, (rest,), others),
        forall|k: int| 0 <= k < name.len() ==> name[k] != 0,
        forall|k: int| 0 <= k < value.len() ==> value[k] != 0,
    ensures
        bytes@ == name + seq![0u8] + value + seq![0u8] + rest@ && (name.len() > 0 || value.len()
            > 0) ==> {
            &&& r@.len() == 1 + others@.len()
            &&& r@[0].0@ == text::utf8_lossy(name) && r@[0].1@ == text::utf8_lossy(value)
            &&& 0 <= i < others@.len() ==> r@[i + 1].0@ == others@[i].0@ && r@[i + 1].1@
                == others@[i].1@
        },
        bytes@ == name + seq![0u8] + value + seq![0u8] + rest@ && name.len() == 0 && value.len()
            == 0 ==> r@.len() == 0,
        bytes@ == name ==> r@.len() == 0,
{
    let all = bytes@;
    if all == name {
        no_nul_before(all, all.len() as int);
        assert(scheme::segments(all) =~= seq![all]);
    }
    if all == name + seq![0u8] + value + seq![0u8] + rest@ {
        let n = name.len() as int;
        let v = value.len() as int;
        assert(all =~= name + seq![0u8] + (value + seq![0u8] + rest@));
        no_nul_before(all, n);
        assert(all.take(n) =~= name);
        let after = all.skip(n + 1);
        assert(after =~= value + seq![0u8] + rest@);
        no_nul_before(after, v);
        assert(after.take(v) =~= value);
        assert(after.skip(v + 1) =~= rest@);
        let s = scheme::segments(all);
        assert(s == seq![name] + scheme::segments(after));
        assert(scheme::segments(after) == seq![value] + scheme::segments(rest@));
        assert(s[0] == name && s[1] == value);
        assert(s.skip(2) =~= scheme::segments(rest@));
        if n > 0 || v > 0 {
            let wire = scheme::wire_headers(all);
            assert(wire == seq![(name, value)] + scheme::wire_headers(rest@));
            assert(wire[0] == (name, value));
            if 0 <= i < others@.len() {
                assert(wire[i + 1] == scheme::wire_headers(rest@)[i]);
            }
        }
    }
}

/// A notification that was not shown registers no handler.
pub proof fn nothing_is_told_of_what_was_not_shown(
    rt: &mut Runtime,
    handler: Option<HandlerId>,
    r: NotificationHandle,
)
    requires
        call_ensures(notification_shown, (rt, 0u32, handler), r),
    ensures
        r.id == 0,
        final(rt).notification@ == old(rt).notification@,
{
}

} // verus!
