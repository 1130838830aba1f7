//! Tray icons as the embedder sees them. An icon with id 0 stands for none: the
//! backend has no tray.

use crate::convert;
use crate::dock;
use crate::dock::owned_if_shown;
use crate::js;
use crate::menu;
use crate::menu::{template_values, MenuItem};
use crate::runtime;
use crate::runtime::{BackendCall, HandlerId, Query, Runtime};
use crate::text;
use crate::value::Value;
use vstd::prelude::*;

verus! {

broadcast use vstd::std_specs::hash::group_hash_axioms;

/// A persistent icon in the OS status area. The native icon goes with the
/// `TrayIcon` that created it.
pub struct TrayIcon {
    pub id: u32,
    pub owned: bool,
}

/// A copy of some bytes.
fn bytes_copy(bytes: &[u8]) -> (r: Vec<u8>)
    ensures
        r@ == bytes@,
{
    let mut copy: Vec<u8> = Vec::new();
    copy.extend_from_slice(bytes);
    assert(copy@ =~= bytes@);
    copy
}

impl TrayIcon {
    /// How a tray icon is created: by a call, after which [`TrayIcon::new`] takes
    /// it over; or not at all, which id 0 stands for.
    pub fn creation(rt: &Runtime) -> (r: Query<u32>)
        requires
            rt.ready(),
        ensures
            r == (if rt.table().create_tray_icon {
                Query::Ask(BackendCall::CreateTrayIcon)
            } else {
                Query::Known(0u32)
            }),
    {
        if rt.api().create_tray_icon {
            Query::Ask(BackendCall::CreateTrayIcon)
        } else {
            Query::Known(0)
        }
    }

    /// Takes over a tray icon that was just created.
    pub fn new(id: u32) -> (r: TrayIcon)
        ensures
            r == (TrayIcon { id, owned: true }),
    {
        TrayIcon { id, owned: true }
    }

    /// Wrap an existing tray id (doesn't create a new native icon; doesn't
    /// destroy it either).
    pub fn from_id(id: u32) -> (r: TrayIcon)
        ensures
            r == (TrayIcon { id, owned: false }),
    {
        TrayIcon { id, owned: false }
    }

    pub fn id(&self) -> (r: u32)
        ensures
            r == self.id,
    {
        self.id
    }

    /// The icon's rectangle `(x, y, width, height)` on the screen, which the
    /// backend knows, if anyone does.
    pub fn get_bounds(&self, rt: &Runtime) -> (r: Query<Option<(i32, i32, i32, i32)>>)
        requires
            rt.ready(),
        ensures
            r == (if rt.table().get_tray_icon_bounds {
                Query::Ask(BackendCall::GetTrayIconBounds { tray_id: self.id })
            } else {
                Query::Known(None::<(i32, i32, i32, i32)>)
            }),
    {
        if rt.api().get_tray_icon_bounds {
            Query::Ask(BackendCall::GetTrayIconBounds { tray_id: self.id })
        } else {
            Query::Known(None)
        }
    }

    /// Relative to `before`: the image has been handed over, if there is an icon
    /// and the backend takes one.
    pub open spec fn icon_set(self, before: Runtime, after: Runtime, png: Seq<u8>) -> bool {
        if self.id != 0 && before.table().set_tray_icon {
            after.called_with(
                before,
                |c: BackendCall|
                    c matches BackendCall::SetTrayIcon { tray_id, png: p } && tray_id == self.id
                        && p@ == png,
            )
        } else {
            after == before
        }
    }

    /// Set the icon image from PNG-encoded bytes.
    pub fn icon(self, rt: &mut Runtime, png_bytes: &[u8]) -> (r: TrayIcon)
        requires
            self.id != 0 ==> old(rt).ready(),
        ensures
            r == self,
            self.icon_set(*old(rt), *final(rt), png_bytes@),
    {
        self.set_icon(rt, png_bytes);
        self
    }

    pub fn set_icon(&self, rt: &mut Runtime, png_bytes: &[u8])
        requires
            self.id != 0 ==> old(rt).ready(),
        ensures
            self.icon_set(*old(rt), *final(rt), png_bytes@),
    {
        if self.id == 0 {
            return;
        }
        if rt.api().set_tray_icon {
            let png = bytes_copy(png_bytes);
            rt.call(BackendCall::SetTrayIcon { tray_id: self.id, png });
            assert(rt.calls@.drop_last() =~= old(rt).calls@);
        }
    }

    /// Relative to `before`: the dark-mode image has been handed over or, if it
    /// is empty, cleared, if there is an icon and the backend takes one.
    pub open spec fn icon_dark_set(self, before: Runtime, after: Runtime, png: Seq<u8>) -> bool {
        if self.id != 0 && before.table().set_tray_icon_dark {
            after.called_with(
                before,
                |c: BackendCall|
                    c matches BackendCall::SetTrayIconDark { tray_id, png: p } && tray_id
                        == self.id && match p {
                        Some(bytes) => bytes@ == png && png.len() > 0,
                        None => png.len() == 0,
                    },
            )
        } else {
            after == before
        }
    }

    /// Set the icon used when the OS is in dark mode. Cleared when passed an
    /// empty slice.
    pub fn icon_dark(self, rt: &mut Runtime, png_bytes: &[u8]) -> (r: TrayIcon)
        requires
            self.id != 0 ==> old(rt).ready(),
        ensures
            r == self,
            self.icon_dark_set(*old(rt), *final(rt), png_bytes@),
    {
        self.set_icon_dark(rt, png_bytes);
        self
    }

    pub fn set_icon_dark(&self, rt: &mut Runtime, png_bytes: &[u8])
        requires
            self.id != 0 ==> old(rt).ready(),
        ensures
            self.icon_dark_set(*old(rt), *final(rt), png_bytes@),
    {
        if self.id == 0 {
            return;
        }
        if rt.api().set_tray_icon_dark {
            let png = if png_bytes.len() == 0 {
                None
            } else {
                Some(bytes_copy(png_bytes))
            };
            rt.call(BackendCall::SetTrayIconDark { tray_id: self.id, png });
            assert(rt.calls@.drop_last() =~= old(rt).calls@);
        }
    }

    /// Relative to `before`: the tooltip has been set or, if there is nothing to
    /// show, cleared, if there is an icon and the backend takes one.
    pub open spec fn tooltip_set(self, before: Runtime, after: Runtime, text: Option<Seq<char>>) -> bool {
        if self.id != 0 && before.table().set_tray_tooltip {
            after.called_with(
                before,
                |c: BackendCall|
                    c matches BackendCall::SetTrayTooltip { tray_id, text: t } && tray_id == self.id
                        && menu::opt_text(t) == text,
            )
        } else {
            after == before
        }
    }

    /// Set the tooltip shown on hover.
    pub fn tooltip(self, rt: &mut Runtime, text: &str) -> (r: TrayIcon)
        requires
            self.id != 0 ==> old(rt).ready(),
            self.id != 0 && old(rt).table().set_tray_tooltip ==> text::nul_free(text@),
        ensures
            r == self,
            self.tooltip_set(*old(rt), *final(rt), dock::shown_text(Some(text))),
    {
        self.set_tooltip(rt, Some(text));
        self
    }

    pub fn set_tooltip(&self, rt: &mut Runtime, text: Option<&str>)
        requires
            self.id != 0 ==> old(rt).ready(),
            self.id != 0 && old(rt).table().set_tray_tooltip ==> (text matches Some(t)
                ==> text::nul_free(t@)),
        ensures
            self.tooltip_set(*old(rt), *final(rt), dock::shown_text(text)),
    {
        if self.id == 0 {
            return;
        }
        if rt.api().set_tray_tooltip {
            rt.call(BackendCall::SetTrayTooltip { tray_id: self.id, text: owned_if_shown(text) });
            assert(rt.calls@.drop_last() =~= old(rt).calls@);
        }
    }

    /// Relative to `before`: the menu has been handed over and its handler
    /// registered, if there is an icon.
    pub open spec fn menu_set(
        self,
        before: Runtime,
        after: Runtime,
        template: Seq<MenuItem>,
        on_click: HandlerId,
    ) -> bool {
        if self.id == 0 {
            after == before
        } else {
            &&& after == (Runtime { tray_menu: after.tray_menu, calls: after.calls, ..before })
            &&& after.tray_menu@ == before.tray_menu@.insert(self.id, on_click)
            &&& if before.table().set_tray_menu {
                runtime::made_call(
                    before.calls@,
                    after.calls@,
                    |c: BackendCall|
                        c matches BackendCall::SetTrayMenu { tray_id, template: t, with_callback }
                            && tray_id == self.id && with_callback && js::handed_view(t)
                            == convert::encoded(before.table(), menu::template_value(template)),
                )
            } else {
                after.calls@ == before.calls@
            }
        }
    }

    /// Set the right-click context menu.
    pub fn menu(self, rt: &mut Runtime, template: &[MenuItem], on_click: HandlerId) -> (r: TrayIcon)
        requires
            self.id != 0 ==> old(rt).ready(),
            self.id != 0 && old(rt).table().set_tray_menu ==> convert::sendable(
                old(rt).table(),
                menu::template_value(template@),
            ),
        ensures
            r == self,
            self.menu_set(*old(rt), *final(rt), template@, on_click),
    {
        self.set_menu(rt, template, on_click);
        self
    }

    pub fn set_menu(&self, rt: &mut Runtime, template: &[MenuItem], on_click: HandlerId)
        requires
            self.id != 0 ==> old(rt).ready(),
            self.id != 0 && old(rt).table().set_tray_menu ==> convert::sendable(
                old(rt).table(),
                menu::template_value(template@),
            ),
        ensures
            self.menu_set(*old(rt), *final(rt), template@, on_click),
    {
        if self.id == 0 {
            return;
        }
        let value = Value::List(template_values(template));
        rt.tray_menu.insert(self.id, on_click);
        let api = rt.api();
        if api.set_tray_menu {
            let raw = value.to_raw(&api);
            rt.call(
                BackendCall::SetTrayMenu { tray_id: self.id, template: raw, with_callback: true },
            );
            assert(rt.calls@.drop_last() =~= old(rt).calls@);
        }
    }

    /// Remove the menu and its handler.
    pub fn clear_menu(&self, rt: &mut Runtime)
        requires
            self.id != 0 ==> old(rt).ready(),
        ensures
            if self.id == 0 {
                *final(rt) == *old(rt)
            } else {
                &&& *final(rt) == (Runtime {
                    tray_menu: final(rt).tray_menu,
                    calls: final(rt).calls,
                    ..*old(rt)
                })
                &&& final(rt).tray_menu@ == old(rt).tray_menu@.remove(self.id)
                &&& final(rt).calls@ == (if old(rt).table().set_tray_menu {
                    old(rt).calls@.push(
                        BackendCall::SetTrayMenu {
                            tray_id: self.id,
                            template: None,
                            with_callback: false,
                        },
                    )
                } else {
                    old(rt).calls@
                })
            },
    {
        if self.id == 0 {
            return;
        }
        rt.tray_menu.remove(&self.id);
        let present = rt.api().set_tray_menu;
        rt.call_if(
            present,
            BackendCall::SetTrayMenu { tray_id: self.id, template: None, with_callback: false },
        );
    }

    /// Register a left-click handler. Right-click is reserved for the menu.
    pub fn on_click(self, rt: &mut Runtime, handler: HandlerId) -> (r: TrayIcon)
        requires
            old(rt).ready(),
        ensures
            r == self,
            *final(rt) == (Runtime {
                tray_click: final(rt).tray_click,
                calls: final(rt).calls,
                ..*old(rt)
            }),
            final(rt).tray_click@ == old(rt).tray_click@.insert(self.id, handler),
            final(rt).calls@ == (if old(rt).table().set_tray_click_handler {
                old(rt).calls@.push(BackendCall::SetTrayClickHandler { tray_id: self.id })
            } else {
                old(rt).calls@
            }),
    {
        rt.tray_click.insert(self.id, handler);
        let present = rt.api().set_tray_click_handler;
        rt.call_if(present, BackendCall::SetTrayClickHandler { tray_id: self.id });
        self
    }

    /// Relative to `before`: a double-click handler has been registered, if there
    /// is an icon.
    pub open spec fn double_click_set(
        self,
        before: Runtime,
        after: Runtime,
        handler: HandlerId,
    ) -> bool {
        if self.id == 0 {
            after == before
        } else {
            &&& after == (Runtime {
                tray_double_click: after.tray_double_click,
                calls: after.calls,
                ..before
            })
            &&& after.tray_double_click@ == before.tray_double_click@.insert(self.id, handler)
            &&& after.calls@ == (if before.table().set_tray_double_click_handler {
                before.calls@.push(BackendCall::SetTrayDoubleClickHandler { tray_id: self.id })
            } else {
                before.calls@
            })
        }
    }

    /// Register a left-double-click handler. Fires in addition to the click
    /// handler for the first of the two clicks.
    pub fn on_double_click(self, rt: &mut Runtime, handler: HandlerId) -> (r: TrayIcon)
        requires
            self.id != 0 ==> old(rt).ready(),
        ensures
            r == self,
            self.double_click_set(*old(rt), *final(rt), handler),
    {
        self.set_double_click_handler(rt, handler);
        self
    }

    pub fn set_double_click_handler(&self, rt: &mut Runtime, handler: HandlerId)
        requires
            self.id != 0 ==> old(rt).ready(),
        ensures
            self.double_click_set(*old(rt), *final(rt), handler),
    {
        if self.id == 0 {
            return;
        }
        rt.tray_double_click.insert(self.id, handler);
        let present = rt.api().set_tray_double_click_handler;
        rt.call_if(present, BackendCall::SetTrayDoubleClickHandler { tray_id: self.id });
    }

    /// Lets go of the icon. The one that created it takes the native icon and all
    /// its handlers with it; a wrapped one leaves everything as it is.
    pub fn release(self, rt: &mut Runtime)
        requires
            self.owned && self.id != 0 ==> old(rt).ready(),
        ensures
            if !self.owned || self.id == 0 {
                *final(rt) == *old(rt)
            } else {
                &&& *final(rt) == (Runtime {
                    tray_menu: final(rt).tray_menu,
                    tray_click: final(rt).tray_click,
                    tray_double_click: final(rt).tray_double_click,
                    calls: final(rt).calls,
                    ..*old(rt)
                })
                &&& final(rt).tray_menu@ == old(rt).tray_menu@.remove(self.id)
                &&& final(rt).tray_click@ == old(rt).tray_click@.remove(self.id)
                &&& final(rt).tray_double_click@ == old(rt).tray_double_click@.remove(self.id)
                &&& final(rt).calls@ == (if old(rt).table().destroy_tray_icon {
                    old(rt).calls@.push(BackendCall::DestroyTrayIcon { tray_id: self.id })
                } else {
                    old(rt).calls@
                })
            },
    {
        if !self.owned || self.id == 0 {
            return;
        }
        rt.tray_menu.remove(&self.id);
        rt.tray_click.remove(&self.id);
        rt.tray_double_click.remove(&self.id);
        let present = rt.api().destroy_tray_icon;
        rt.call_if(present, BackendCall::DestroyTrayIcon { tray_id: self.id });
    }
}

/// The handler that a click on an item of a tray menu goes to, with the item's
/// id.
pub fn tray_menu_click_callback(rt: &Runtime, tray_id: u32, item_id: Option<String>) -> (r: Option<(
    HandlerId,
    String,
)>)
    ensures
        r == (match item_id {
            Some(id) if rt.tray_menu@.contains_key(tray_id) => Some((rt.tray_menu@[tray_id], id)),
            _ => None,
        }),
{
    match (item_id, rt.tray_menu.get(&tray_id)) {
        (Some(id), Some(handler)) => Some((*handler, id)),
        _ => None,
    }
}

/// The handler that a click on a tray icon goes to.
pub fn tray_click_callback(rt: &Runtime, tray_id: u32) -> (r: Option<HandlerId>)
    ensures
        r == (if rt.tray_click@.contains_key(tray_id) {
            Some(rt.tray_click@[tray_id])
        } else {
            None
        }),
{
    match rt.tray_click.get(&tray_id) {
        Some(handler) => Some(*handler),
        None => None,
    }
}

/// The handler that a double click on a tray icon goes to.
pub fn tray_dblclick_callback(rt: &Runtime, tray_id: u32) -> (r: Option<HandlerId>)
    ensures
        r == (if rt.tray_double_click@.contains_key(tray_id) {
            Some(rt.tray_double_click@[tray_id])
        } else {
            None
        }),
{
    match rt.tray_double_click.get(&tray_id) {
        Some(handler) => Some(*handler),
        None => None,
    }
}

} // verus!
