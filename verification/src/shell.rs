//! Requests to the desktop shell, the dock and the tray: queued in order for the
//! event loop, which is told that there is work.

use crate::backend;
use crate::backend::{Backend, CommonEvent};
use crate::menu;
use crate::menu::{parse_menu_template, ParsedMenuItem};
use crate::menu_build;
use crate::menu_build::{register_menu_callbacks, MenuCallbackInfo};
use crate::raw_value::LaufeyValue;
use crate::window_state::Callback;
use vstd::prelude::*;

verus! {

/// A dock menu with who answers clicks on it.
pub struct PendingDockMenu {
    pub items: Vec<ParsedMenuItem>,
    pub callback: Option<usize>,
    pub callback_data: usize,
}

/// A request to the dock or taskbar.
pub enum DockOp {
    SetBadge(Option<String>),
    Bounce(i32),
    SetMenu(Option<PendingDockMenu>),
    SetVisible(bool),
    SetReopenHandler(Option<Callback>),
}

/// A request to the tray.
pub enum TrayOp {
    Create { tray_id: u32 },
    Destroy { tray_id: u32 },
    SetIcon { tray_id: u32, png: Vec<u8> },
    SetIconDark { tray_id: u32, png: Vec<u8> },
    SetTooltip { tray_id: u32, text: Option<String> },
    ClearMenu { tray_id: u32 },
    SetMenu {
        tray_id: u32,
        items: Vec<ParsedMenuItem>,
        callback: Option<usize>,
        callback_data: usize,
    },
    SetClickHandler { tray_id: u32, handler: Option<Callback> },
    SetDoubleClickHandler { tray_id: u32, handler: Option<Callback> },
}

impl Backend {
    /// Relative to `before`: the dock has been asked for `op`, the event loop
    /// has been told, and nothing else has happened.
    pub open spec fn dock_asked(self, before: Backend, op: DockOp) -> bool {
        &&& self == (Backend { dock_ops: self.dock_ops, queue: self.queue, ..before })
        &&& self.dock_ops@ == before.dock_ops@.push(op)
        &&& self.queue@ == before.queue@.push(CommonEvent::DockTask)
    }

    /// Relative to `before`: the tray has been asked for `op`, the event loop
    /// has been told, and nothing else has happened.
    pub open spec fn tray_asked(self, before: Backend, op: TrayOp) -> bool {
        &&& self == (Backend { tray_ops: self.tray_ops, queue: self.queue, ..before })
        &&& self.tray_ops@ == before.tray_ops@.push(op)
        &&& self.queue@ == before.queue@.push(CommonEvent::TrayTask)
    }

    fn ask_dock(&mut self, op: DockOp)
        ensures
            final(self).dock_asked(*old(self), op),
    {
        self.dock_ops.push(op);
        self.queue.push(CommonEvent::DockTask);
    }

    fn ask_tray(&mut self, op: TrayOp)
        ensures
            final(self).tray_asked(*old(self), op),
    {
        self.tray_ops.push(op);
        self.queue.push(CommonEvent::TrayTask);
    }

    pub fn backend_set_dock_badge(&mut self, badge: Option<String>)
        ensures
            final(self).dock_asked(*old(self), DockOp::SetBadge(badge)),
    {
        self.ask_dock(DockOp::SetBadge(badge));
    }

    pub fn backend_bounce_dock(&mut self, kind: i32)
        ensures
            final(self).dock_asked(*old(self), DockOp::Bounce(kind)),
    {
        self.ask_dock(DockOp::Bounce(kind));
    }

    /// Sets the dock menu from a template; without a template it is removed.
    pub fn backend_set_dock_menu(
        &mut self,
        template: Option<&LaufeyValue>,
        callback: Option<usize>,
        callback_data: usize,
    )
        ensures
            ({
                let op = final(self).dock_ops@.last();
                &&& final(self).dock_asked(*old(self), op)
                &&& match template {
                    Some(t) => {
                        &&& op matches DockOp::SetMenu(Some(m))
                        &&& menu::parsed_view(m.items@) == menu::parsed_template(Some(t@))
                        &&& m.callback == callback
                        &&& m.callback_data == callback_data
                    },
                    None => op == DockOp::SetMenu(None),
                }
            }),
    {
        let pending = match template {
            Some(_) => {
                let items = parse_menu_template(template);
                Some(PendingDockMenu { items, callback, callback_data })
            },
            None => None,
        };
        self.ask_dock(DockOp::SetMenu(pending));
    }

    pub fn backend_set_dock_visible(&mut self, visible: bool)
        ensures
            final(self).dock_asked(*old(self), DockOp::SetVisible(visible)),
    {
        self.ask_dock(DockOp::SetVisible(visible));
    }

    pub fn backend_set_dock_reopen_handler(&mut self, handler: Option<Callback>)
        ensures
            final(self).dock_asked(*old(self), DockOp::SetReopenHandler(handler)),
    {
        self.ask_dock(DockOp::SetReopenHandler(handler));
    }

    /// Hands out a tray id and asks for the icon.
    pub fn backend_create_tray_icon(&mut self) -> (r: u32)
        ensures
            r == old(self).next_tray_id,
            *final(self) == (Backend {
                next_tray_id: backend::id_after(r),
                tray_ops: final(self).tray_ops,
                queue: final(self).queue,
                ..*old(self)
            }),
            final(self).tray_ops@ == old(self).tray_ops@.push(TrayOp::Create { tray_id: r }),
            final(self).queue@ == old(self).queue@.push(CommonEvent::TrayTask),
    {
        let tray_id: u32 = self.next_tray_id;
        self.next_tray_id = tray_id.wrapping_add(1);
        self.ask_tray(TrayOp::Create { tray_id });
        tray_id
    }

    pub fn backend_destroy_tray_icon(&mut self, tray_id: u32)
        ensures
            final(self).tray_asked(*old(self), TrayOp::Destroy { tray_id }),
    {
        self.ask_tray(TrayOp::Destroy { tray_id });
    }

    pub fn backend_set_tray_icon(&mut self, tray_id: u32, png: Vec<u8>)
        ensures
            final(self).tray_asked(*old(self), TrayOp::SetIcon { tray_id, png }),
    {
        self.ask_tray(TrayOp::SetIcon { tray_id, png });
    }

    pub fn backend_set_tray_icon_dark(&mut self, tray_id: u32, png: Vec<u8>)
        ensures
            final(self).tray_asked(*old(self), TrayOp::SetIconDark { tray_id, png }),
    {
        self.ask_tray(TrayOp::SetIconDark { tray_id, png });
    }

    pub fn backend_set_tray_tooltip(&mut self, tray_id: u32, text: Option<String>)
        ensures
            final(self).tray_asked(*old(self), TrayOp::SetTooltip { tray_id, text }),
    {
        self.ask_tray(TrayOp::SetTooltip { tray_id, text });
    }

    /// Sets a tray icon's menu from a template; without a template it is
    /// removed. The items answer to clicks by id as those of a window's menu do,
    /// with the icon's id in place of a window's.
    pub fn backend_set_tray_menu(
        &mut self,
        tray_id: u32,
        template: Option<&LaufeyValue>,
        callback: Option<usize>,
        callback_data: usize,
    )
        ensures
            ({
                let op = final(self).tray_ops@.last();
                &&& *final(self) == (Backend {
                    tray_ops: final(self).tray_ops,
                    queue: final(self).queue,
                    menu_clicks: final(self).menu_clicks,
                    ..*old(self)
                })
                &&& final(self).tray_ops@ == old(self).tray_ops@.push(op)
                &&& final(self).queue@ == old(self).queue@.push(CommonEvent::TrayTask)
                &&& match template {
                    Some(t) => {
                        &&& op matches TrayOp::SetMenu {
                            tray_id: id,
                            items,
                            callback: cb,
                            callback_data: data,
                        }
                        &&& id == tray_id
                        &&& menu::parsed_view(items@) == menu::parsed_template(Some(t@))
                        &&& cb == callback
                        &&& data == callback_data
                    },
                    None => op == (TrayOp::ClearMenu { tray_id }),
                }
            }),
            final(self).menu_clicks@ == (match (template, callback) {
                (Some(t), Some(callback)) => menu_build::with_menu_ids(
                    old(self).menu_clicks@,
                    menu::parsed_template(Some(t@)),
                    MenuCallbackInfo { callback, callback_data, window_id: tray_id },
                ),
                _ => old(self).menu_clicks@,
            }),
    {
        match template {
            Some(_) => {
                let items = parse_menu_template(template);
                register_menu_callbacks(
                    &mut self.menu_clicks,
                    items.as_slice(),
                    callback,
                    callback_data,
                    tray_id,
                );
                self.ask_tray(TrayOp::SetMenu { tray_id, items, callback, callback_data });
            },
            None => {
                self.ask_tray(TrayOp::ClearMenu { tray_id });
            },
        }
    }

    pub fn backend_set_tray_click_handler(&mut self, tray_id: u32, handler: Option<Callback>)
        ensures
            final(self).tray_asked(*old(self), TrayOp::SetClickHandler { tray_id, handler }),
    {
        self.ask_tray(TrayOp::SetClickHandler { tray_id, handler });
    }

    pub fn backend_set_tray_double_click_handler(&mut self, tray_id: u32, handler: Option<Callback>)
        ensures
            final(self).tray_asked(*old(self), TrayOp::SetDoubleClickHandler { tray_id, handler }),
    {
        self.ask_tray(TrayOp::SetDoubleClickHandler { tray_id, handler });
    }
}

} // verus!
