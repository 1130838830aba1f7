//! Laws that hold across the operations of the library, stated of calls and
//! their results: what is true of every call that keeps to its contract.

pub mod desktop;
pub mod embedder_windows;
pub mod event_handlers;
pub mod input;
pub mod menus;
pub mod native_events;
pub mod scripts;
pub mod services;
pub mod values;
pub mod windows;
