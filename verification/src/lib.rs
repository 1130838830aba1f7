//! Core of a desktop windowing layer: the value model that crosses the C
//! boundary, the table of backend entry points, menus, keyboard and mouse
//! input, window state, and the embedder-facing window, tray, dock,
//! notification, permission and URL-scheme front ends.
//!
//! Everything here is a computation on plain values. What talks to the
//! operating system sits outside and exchanges events and actions with it.

pub mod api;
pub mod backend;
pub mod clipboard;
pub mod composition;
pub mod convert;
pub mod dialog;
pub mod dispatch;
pub mod dock;
pub mod event_loop;
pub mod events;
pub mod float;
pub mod handles;
pub mod ime;
pub mod js;
pub mod keyboard;
#[allow(unused_imports)]
pub mod laws;
pub mod loader;
pub mod menu;
pub mod menu_build;
pub mod modifier_keys;
pub mod mouse;
pub mod native_dialog;
pub mod notification;
pub mod pdf;
pub mod permission;
pub mod platform;
pub mod raw_value;
pub mod runtime;
pub mod scheme;
pub mod shell;
pub mod text;
pub mod text_map;
pub mod tray;
pub mod value;
pub mod window;
pub mod window_ops;
pub mod window_state;
