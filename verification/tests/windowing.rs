//! The backend's side: window state, the event loop's decisions, handles,
//! native dialogs, the clipboard and loading the runtime.

use laufey::api::create_backend_api;
use laufey::backend::{allocate_window_id, frame_offset_hint, Backend, CommonEvent, FrameChrome};
use laufey::clipboard::{
    backend_read_clipboard_text, clipboard_text, read_clipboard_text_native,
    write_clipboard_text_native,
};
use laufey::composition::ImeInput;
use laufey::dispatch::{HandlerCall, KeyEvent};
use laufey::event_loop::{App, Geometry, LoopAction, WindowEvent};
use laufey::event_loop::settle_creation_geometry;
use laufey::float::Float64;
use laufey::handles::{
    backend_get_display_handle, backend_get_window_handle, backend_get_window_handle_type,
    remove_window_handles, store_window_handles, wait_for_window_handle, NativeDisplay,
    NativeWindow, WindowHandles, LAUFEY_WINDOW_HANDLE_APPKIT, LAUFEY_WINDOW_HANDLE_UNKNOWN,
    LAUFEY_WINDOW_HANDLE_WAYLAND, LAUFEY_WINDOW_HANDLE_WIN32, LAUFEY_WINDOW_HANDLE_X11,
};
use laufey::ime::{LAUFEY_IME_END, LAUFEY_IME_START, LAUFEY_IME_UPDATE};
use laufey::keyboard::{
    Key, KeyCode, Modifiers, ModifiersKeyState, ModifiersState, NamedKey, PhysicalKey, WINIT_SHIFT,
};
use laufey::loader::{
    find_colocated_runtime, find_runtime_library, load_and_start_runtime, paths_from_args,
    runtime_candidates, runtime_extension, LoadNext, LoadStep,
};
use laufey::menu::{template_values, MenuItem};
use laufey::mouse::{MouseButton, ScrollDelta};
use laufey::native_dialog::{
    backend_show_dialog, message_confirmed, prompt_result, quote_double, quote_single,
    show_native_dialog, show_prompt_dialog, NativeDialog, PromptStep, LAUFEY_DIALOG_ALERT,
    LAUFEY_DIALOG_CONFIRM, LAUFEY_DIALOG_PROMPT,
};
use laufey::platform::Platform;
use laufey::shell::{DockOp, TrayOp};
use laufey::text::{text_eq, to_c_string, trim};
use laufey::value::Value;
use laufey::window_ops::{arm_resize_reporting, WindowOp};
use laufey::window_state::{
    primary_scale_hint, Callback, ImeCursorArea, WindowState, LAUFEY_WINDOW_FLAG_FRAMELESS,
    LAUFEY_WINDOW_FLAG_HIDDEN, LAUFEY_WINDOW_FLAG_NO_ACTIVATE,
};

fn f(x: f64) -> Float64 {
    Float64::from_bits(x.to_bits())
}

fn to(func: usize) -> Option<Callback> {
    Some(Callback { func, data: 0 })
}

#[test]
fn enter_waits_for_the_first_move() {
    let mut ws = WindowState::new(None);
    assert!(!ws.note_cursor_entered());
    assert!(ws.note_cursor_move(f(40.0), f(50.0)));
    assert_eq!(ws.cursor_position, (f(40.0), f(50.0)));
    assert!(!ws.note_cursor_move(f(41.0), f(50.0)));
}

#[test]
fn leave_forgets_the_last_inside_point() {
    let mut ws = WindowState::new(None);
    assert!(!ws.note_cursor_move(f(40.0), f(50.0)));
    ws.note_cursor_left();
    assert!(!ws.note_cursor_entered());
    assert!(ws.note_cursor_move(f(80.0), f(20.0)));
}

#[test]
fn new_window_scale_uses_primary_hint() {
    let ws = WindowState::new(Some(f(2.0)));
    assert_eq!(ws.current_scale, primary_scale_hint(Some(f(2.0))));
    assert!(f64::from_bits(ws.current_scale.to_bits()) > 0.0);
    // What no screen can have counts as 1.
    assert_eq!(primary_scale_hint(Some(f(0.0))), f(1.0));
    assert_eq!(primary_scale_hint(Some(f(-2.0))), f(1.0));
    assert_eq!(primary_scale_hint(None), f(1.0));
}

#[test]
fn frameless_window_has_no_frame_offset() {
    assert_eq!(frame_offset_hint(LAUFEY_WINDOW_FLAG_FRAMELESS, FrameChrome::Unmeasured), (0, 0));
    assert_eq!(
        frame_offset_hint(LAUFEY_WINDOW_FLAG_FRAMELESS, FrameChrome::MacOs { dx: 0, dy: 28 }),
        (0, 0)
    );
}

#[test]
fn decorated_window_offsets_by_the_title_bar() {
    for chrome in [FrameChrome::Windows { dx: 8, dy: 31 }, FrameChrome::MacOs { dx: 0, dy: 28 }] {
        let (dx, dy) = frame_offset_hint(0, chrome);
        assert!(dy > 0, "expected a caption offset, got {dy}");
        assert!(dx >= 0, "expected a non-negative border offset, got {dx}");
        assert!(dy > dx, "caption should exceed the side border");
    }
}

#[test]
fn new_window_starts_with_resize_reporting_disarmed() {
    let ws = WindowState::new(None);
    assert!(!ws.resize_reporting_armed);
}

#[test]
fn arming_resyncs_geometry_and_happens_once() {
    let mut ws = WindowState::new(None);
    assert!(arm_resize_reporting(&mut ws, Some((600, 400)), f(1.5), Some((7, 30))));
    assert!(ws.resize_reporting_armed);
    assert_eq!(ws.current_size, Some((600, 400)));
    assert_eq!(ws.current_scale, f(1.5));
    assert_eq!(ws.current_inner_position, Some((7, 30)));

    assert!(!arm_resize_reporting(&mut ws, Some((999, 999)), f(3.0), Some((9, 9))));
    assert_eq!(ws.current_size, Some((600, 400)));
    assert_eq!(ws.current_scale, f(1.5));
    assert_eq!(ws.current_inner_position, Some((7, 30)));
}

#[test]
fn arming_without_geometry_still_arms() {
    let mut ws = WindowState::new(None);
    assert!(arm_resize_reporting(&mut ws, None, f(1.0), None));
    assert!(ws.resize_reporting_armed);
    assert_eq!(ws.current_size, None);
    assert_eq!(ws.current_inner_position, None);
}

#[test]
fn window_ids_come_one_by_one() {
    let mut next: u32 = 1;
    assert_eq!(allocate_window_id(&mut next), 1);
    assert_eq!(allocate_window_id(&mut next), 2);
    let mut state = Backend::new();
    let a = state.backend_create_window(None);
    let b = state.backend_create_window_ex(LAUFEY_WINDOW_FLAG_NO_ACTIVATE, None);
    assert_ne!(a, b);
    assert_eq!(
        state.queue,
        vec![CommonEvent::CreateWindow { window_id: a }, CommonEvent::CreateWindow { window_id: b }]
    );
    assert_eq!(state.common.window(b).unwrap().pending_flags, LAUFEY_WINDOW_FLAG_NO_ACTIVATE);
}

#[test]
fn settings_read_back_before_the_window_exists() {
    let mut state = Backend::new();
    let w = state.backend_create_window(None);
    let other = state.backend_create_window(None);
    state.backend_set_window_size(w, 300, 200);
    state.backend_set_window_position(w, 7, 8);
    state.backend_set_resizable(w, false);
    state.backend_set_always_on_top(w, true);
    state.backend_set_click_passthrough(w, true);
    assert_eq!(state.backend_get_window_size(w), Some((300, 200)));
    assert_eq!(state.backend_get_window_position(w), Some((7, 8)));
    assert!(!state.backend_is_resizable(w));
    assert!(state.backend_is_always_on_top(w));
    assert!(state.backend_is_click_passthrough(w));
    assert!(state.backend_is_visible(w));
    state.backend_hide(w);
    assert!(!state.backend_is_visible(w));
    state.backend_show(w);
    assert!(state.backend_is_visible(w));
    // The other window keeps its own.
    assert!(state.backend_is_resizable(other));
    assert!(!state.backend_is_always_on_top(other));
    assert_eq!(state.backend_get_window_size(other), None);
    // An unknown window reports zero.
    assert_eq!(state.backend_get_window_size(99), Some((0, 0)));
}

#[test]
fn the_inner_position_is_guessed_until_it_is_known() {
    let mut state = Backend::new();
    let w = state.backend_create_window(None);
    state.backend_set_window_position(w, 100, 50);
    let chrome = FrameChrome::Windows { dx: 8, dy: 31 };
    assert_eq!(state.backend_get_window_inner_position(w, chrome), (108, 81));
    assert_eq!(state.backend_get_window_inner_position(99, chrome), (0, 0));
}

fn menu_template() -> Box<laufey::raw_value::LaufeyValue> {
    let items = vec![MenuItem::Item {
        label: "Go".to_string(),
        id: Some("go".to_string()),
        accelerator: None,
        enabled: true,
        checked: false,
        icon: None,
        tooltip: None,
    }];
    Value::List(template_values(&items)).to_raw(&create_backend_api()).unwrap()
}

/// A backend with one native window, ready for its events.
fn opened() -> (App, Backend, WindowHandles, u32) {
    let mut app = App::new();
    let mut state = Backend::new();
    let mut handles = WindowHandles::new();
    let w = state.backend_create_window(None);
    let created = state.queue.remove(0);
    match app.user_event(&mut state, &mut handles, created, Platform::Linux) {
        LoopAction::Create { window_id, attributes } => {
            assert_eq!(window_id, w);
            assert_eq!(attributes.resizable, None);
        }
        _ => panic!("a window to build"),
    }
    let ops = app.create_window(
        &mut state,
        &mut handles,
        w,
        1000,
        Geometry { size: Some((640, 480)), scale: f(2.0), inner: Some((0, 20)) },
        Platform::Linux,
        Some(NativeWindow::Xlib { window: 11 }),
        Some(NativeDisplay::Xlib { display: Some(22) }),
    );
    assert!(ops.is_empty());
    (app, state, handles, w)
}

#[test]
fn a_created_window_has_its_geometry_and_handles() {
    let (app, state, handles, w) = opened();
    assert_eq!(app.laufey_id(1000), Some(w));
    assert_eq!(app.focused_window(), Some(w));
    assert_eq!(state.backend_get_window_size(w), Some((640, 480)));
    assert_eq!(state.backend_get_window_scale_factor(w), f(2.0));
    assert_eq!(state.backend_get_window_inner_position(w, FrameChrome::Unmeasured), (0, 20));
    assert_eq!(backend_get_window_handle(&handles, w), 11);
    assert_eq!(backend_get_display_handle(&handles, w), 22);
    assert_eq!(backend_get_window_handle_type(&handles, w), LAUFEY_WINDOW_HANDLE_X11);
    assert_eq!(backend_get_window_handle(&handles, 99), 0);
    assert_eq!(backend_get_window_handle_type(&handles, 99), LAUFEY_WINDOW_HANDLE_UNKNOWN);
    assert!(!wait_for_window_handle(&handles, w, 0));
    assert!(wait_for_window_handle(&handles, 99, 0));
    assert!(!wait_for_window_handle(&handles, 99, 5000));
}

#[test]
fn handles_are_of_the_platform_kind() {
    let mut handles = WindowHandles::new();
    store_window_handles(
        &mut handles,
        1,
        Platform::MacOs,
        Some(NativeWindow::AppKit { ns_view: 5 }),
        None,
    );
    store_window_handles(
        &mut handles,
        2,
        Platform::Windows,
        Some(NativeWindow::Win32 { hwnd: 6 }),
        None,
    );
    store_window_handles(
        &mut handles,
        3,
        Platform::Linux,
        Some(NativeWindow::Wayland { surface: 7 }),
        Some(NativeDisplay::Wayland { display: 8 }),
    );
    store_window_handles(
        &mut handles,
        4,
        Platform::Linux,
        Some(NativeWindow::Win32 { hwnd: 9 }),
        Some(NativeDisplay::Xlib { display: None }),
    );
    assert_eq!(backend_get_window_handle_type(&handles, 1), LAUFEY_WINDOW_HANDLE_APPKIT);
    assert_eq!(backend_get_window_handle(&handles, 1), 5);
    assert_eq!(backend_get_window_handle_type(&handles, 2), LAUFEY_WINDOW_HANDLE_WIN32);
    assert_eq!(backend_get_window_handle(&handles, 2), 6);
    assert_eq!(backend_get_window_handle_type(&handles, 3), LAUFEY_WINDOW_HANDLE_WAYLAND);
    assert_eq!(backend_get_display_handle(&handles, 3), 8);
    // A handle of another platform is no handle.
    assert_eq!(backend_get_window_handle_type(&handles, 4), LAUFEY_WINDOW_HANDLE_UNKNOWN);
    assert_eq!(backend_get_window_handle(&handles, 4), 0);
    assert_eq!(backend_get_display_handle(&handles, 4), 0);
    remove_window_handles(&mut handles, 2);
    assert_eq!(backend_get_window_handle(&handles, 2), 0);
    assert_eq!(backend_get_window_handle(&handles, 3), 7);
}

#[test]
fn what_was_asked_early_shapes_the_window() {
    let mut app = App::new();
    let mut state = Backend::new();
    let mut handles = WindowHandles::new();
    let w = state.backend_create_window_ex(LAUFEY_WINDOW_FLAG_FRAMELESS, None);
    state.backend_set_title(w, Some("T".to_string()));
    state.backend_set_window_size(w, 200, 100);
    state.backend_set_always_on_top(w, true);
    let a = app.creation_attributes(&state, w);
    assert_eq!(a.title.as_deref(), Some("T"));
    assert_eq!(a.inner_size, Some((200, 100)));
    assert_eq!(a.decorations, Some(false));
    let ops = app.create_window(
        &mut state,
        &mut handles,
        w,
        5,
        Geometry { size: None, scale: f(1.0), inner: None },
        Platform::Other,
        None,
        None,
    );
    assert!(matches!(ops[..], [WindowOp::SetWindowLevel { always_on_top: true }]));
}

#[test]
fn queued_settings_become_operations_once() {
    let (mut app, mut state, mut handles, w) = opened();
    state.backend_set_title(w, Some("T".to_string()));
    state.backend_focus(w);
    state.backend_quit();
    let queue = std::mem::take(&mut state.queue);
    let mut actions = Vec::new();
    for e in queue {
        actions.push(app.user_event(&mut state, &mut handles, e, Platform::Linux));
    }
    assert!(matches!(&actions[0], LoopAction::Operate { op: Some(WindowOp::SetTitle(t)), .. } if t == "T"));
    assert!(matches!(&actions[1], LoopAction::Operate { op: Some(WindowOp::FocusWindow), .. }));
    assert!(matches!(&actions[2], LoopAction::Exit));
    // A title is handed over once.
    let again = app.user_event(&mut state, &mut handles, CommonEvent::SetTitle { window_id: w }, Platform::Linux);
    assert!(matches!(again, LoopAction::Operate { op: None, .. }));
    let nobody = app.user_event(&mut state, &mut handles, CommonEvent::SetTitle { window_id: 77 }, Platform::Linux);
    assert!(matches!(nobody, LoopAction::Nothing));
    // A setting that was applied still reads back.
    state.backend_set_resizable(w, false);
    let e = state.queue.remove(0);
    let applied = app.user_event(&mut state, &mut handles, e, Platform::Linux);
    assert!(matches!(applied, LoopAction::Operate { op: Some(WindowOp::SetResizable(false)), .. }));
    assert!(!state.backend_is_resizable(w));
    let task = app.user_event(&mut state, &mut handles, CommonEvent::UiTask { task: 3, data: 4 }, Platform::Linux);
    assert!(matches!(task, LoopAction::RunTask { task: 3, data: 4 }));
}

#[test]
fn an_installed_menu_answers_clicks() {
    let (mut app, mut state, mut handles, w) = opened();
    state.backend_set_application_menu(w, Some(&menu_template()), Some(50), 60);
    assert!(state.backend_test_click_menu_item(Some("go")).is_none());
    let e = state.queue.remove(0);
    match app.user_event(&mut state, &mut handles, e, Platform::Linux) {
        LoopAction::Operate { op: Some(WindowOp::InstallMenu { nodes }), .. } => {
            assert_eq!(nodes.len(), 1)
        }
        _ => panic!("a menu to install"),
    }
    let info = state.backend_test_click_menu_item(Some("go")).unwrap();
    assert_eq!((info.callback, info.callback_data, info.window_id), (50, 60, w));
    assert!(state.backend_test_click_menu_item(Some("other")).is_none());
    assert!(state.backend_test_click_menu_item(None).is_none());
    state.backend_show_context_menu(w, 1, 2, Some(&menu_template()), Some(51), 0);
    let e = state.queue.remove(0);
    assert!(matches!(
        app.user_event(&mut state, &mut handles, e, Platform::Linux),
        LoopAction::Operate { op: Some(WindowOp::PopupMenu { x: 1, y: 2, .. }), .. }
    ));
    assert_eq!(state.backend_test_click_menu_item(Some("go")).unwrap().callback, 51);
}

#[test]
fn closing_the_last_window_ends_the_loop() {
    let (mut app, mut state, mut handles, w) = opened();
    let outcome = app.window_event(&mut state, &mut handles, 1000, WindowEvent::CloseRequested);
    assert_eq!((outcome.closed, outcome.exit), (Some(w), true));
    assert_eq!(app.laufey_id(1000), None);
    assert!(state.common.window(w).is_none());
    assert_eq!(backend_get_window_handle(&handles, w), 0);
}

#[test]
fn a_close_handler_keeps_the_window() {
    let (mut app, mut state, mut handles, w) = opened();
    state.backend_set_close_requested_handler(to(9));
    let outcome = app.window_event(&mut state, &mut handles, 1000, WindowEvent::CloseRequested);
    assert!(outcome.closed.is_none() && !outcome.exit);
    assert!(matches!(outcome.calls[..], [HandlerCall::CloseRequested { window_id, .. }] if window_id == w));
    let (told, call) = state.backend_test_trigger_close_requested(w);
    assert!(told);
    assert!(call.is_some());
    match app.user_event(&mut state, &mut handles, CommonEvent::CloseWindow { window_id: w }, Platform::Linux) {
        LoopAction::Closed { window_id, exit } => assert_eq!((window_id, exit), (w, true)),
        _ => panic!("a closed window"),
    }
}

#[test]
fn creation_resizes_stay_silent() {
    let (mut app, mut state, mut handles, w) = opened();
    state.backend_set_resize_handler(to(3));
    let early = app.window_event(&mut state, &mut handles, 1000, WindowEvent::Resized { width: 1, height: 2 });
    assert!(early.calls.is_empty());
    assert_eq!(state.backend_get_window_size(w), Some((1, 2)));
    let geometry = Geometry { size: Some((640, 480)), scale: f(1.0), inner: None };
    assert!(settle_creation_geometry(&mut state, w, geometry));
    assert!(!settle_creation_geometry(&mut state, w, geometry));
    let same = app.window_event(&mut state, &mut handles, 1000, WindowEvent::Resized { width: 640, height: 480 });
    assert!(same.calls.is_empty());
    let real = app.window_event(&mut state, &mut handles, 1000, WindowEvent::Resized { width: 700, height: 480 });
    assert!(matches!(real.calls[..], [HandlerCall::Resize { width: 700, height: 480, .. }]));
}

#[test]
fn pointer_events_reach_their_handlers() {
    let (mut app, mut state, mut handles, _) = opened();
    state.backend_set_mouse_move_handler(to(1));
    state.backend_set_cursor_enter_leave_handler(to(2));
    state.backend_set_mouse_click_handler(to(3));
    state.backend_set_wheel_handler(to(4));
    let mut tell = |e: WindowEvent| app.window_event(&mut state, &mut handles, 1000, e).calls;
    assert!(tell(WindowEvent::CursorEntered).is_empty());
    let moved = tell(WindowEvent::CursorMoved { x: f(5.0), y: f(6.0) });
    assert!(matches!(moved[0], HandlerCall::CursorEnterLeave { entered: 1, x, .. } if x == f(5.0)));
    assert!(matches!(moved[1], HandlerCall::MouseMove { y, .. } if y == f(6.0)));
    let press = |now: u64| WindowEvent::MouseInput {
        pressed: true,
        button: MouseButton::Left,
        pointer: None,
        nearby: true,
        now,
    };
    assert!(matches!(tell(press(1_000))[..], [HandlerCall::MouseClick { click_count: 1, button: 0, state: 0, .. }]));
    assert!(matches!(tell(press(2_000))[..], [HandlerCall::MouseClick { click_count: 2, .. }]));
    let release = tell(WindowEvent::MouseInput {
        pressed: false,
        button: MouseButton::Left,
        pointer: None,
        nearby: true,
        now: 3_000,
    });
    assert!(matches!(release[..], [HandlerCall::MouseClick { click_count: 2, state: 1, .. }]));
    let unknown = tell(WindowEvent::MouseInput {
        pressed: true,
        button: MouseButton::Other(7),
        pointer: None,
        nearby: true,
        now: 4_000,
    });
    assert!(unknown.is_empty());
    let wheel = tell(WindowEvent::MouseWheel { delta: ScrollDelta::Line(f(0.0), f(1.0)) });
    assert!(matches!(wheel[..], [HandlerCall::Wheel { delta_y, x, .. }] if delta_y == f(-1.0) && x == f(5.0)));
    let left = tell(WindowEvent::CursorLeft);
    assert!(matches!(left[..], [HandlerCall::CursorEnterLeave { entered: 0, .. }]));
}

#[test]
fn keys_and_modifiers_reach_their_handler() {
    let (mut app, mut state, mut handles, w) = opened();
    state.backend_set_keyboard_event_handler(to(1));
    state.backend_set_focused_handler(to(2));
    state.backend_set_move_handler(to(3));
    let shift = shift_report(ModifiersKeyState::Pressed, ModifiersKeyState::Unknown);
    let mut tell = |e: WindowEvent| app.window_event(&mut state, &mut handles, 1000, e).calls;
    match &tell(WindowEvent::ModifiersChanged(shift))[..] {
        [HandlerCall::Keyboard { state: 0, key, code, modifiers: 1, repeat: false, .. }] => {
            assert_eq!((key.as_str(), code.as_str()), ("Shift", "ShiftLeft"))
        }
        _ => panic!("shift goes down"),
    }
    let key = KeyEvent {
        logical_key: Key::Character("A".to_string()),
        physical_key: PhysicalKey::Code(KeyCode::Other("KeyA".to_string())),
        pressed: false,
        repeat: true,
    };
    match &tell(WindowEvent::KeyboardInput(key))[..] {
        [HandlerCall::Keyboard { state: 1, key, code, modifiers: 1, repeat: true, .. }] => {
            assert_eq!((key.as_str(), code.as_str()), ("A", "KeyA"))
        }
        _ => panic!("a key goes up"),
    }
    assert!(matches!(tell(WindowEvent::Focused(true))[..], [HandlerCall::Focused { focused: 1, .. }]));
    let moved = WindowEvent::Moved { x: 3, y: 4, inner: Some((5, 36)) };
    assert!(matches!(tell(moved)[..], [HandlerCall::Move { x: 3, y: 4, .. }]));
    assert!(tell(WindowEvent::ScaleFactorChanged { scale: f(3.0), inner: None }).is_empty());
    assert!(tell(WindowEvent::Ignored).is_empty());
    assert_eq!(app.focused_window(), Some(w));
    assert_eq!(state.backend_get_window_position(w), Some((3, 4)));
    assert_eq!(state.backend_get_window_scale_factor(w), f(3.0));
    assert_eq!(state.backend_get_window_inner_position(w, FrameChrome::Unmeasured), (5, 36));
    let stranger = app.window_event(&mut state, &mut handles, 4, WindowEvent::CloseRequested);
    assert!(stranger.calls.is_empty() && stranger.closed.is_none());
}

#[test]
fn dock_and_tray_requests_are_queued() {
    let mut state = Backend::new();
    state.backend_set_dock_badge(Some("1".to_string()));
    state.backend_set_dock_visible(false);
    assert!(matches!(&state.dock_ops[0], DockOp::SetBadge(Some(t)) if t == "1"));
    assert!(matches!(state.dock_ops[1], DockOp::SetVisible(false)));
    assert!(state.queue.contains(&CommonEvent::DockTask));
    let t = state.backend_create_tray_icon();
    state.backend_set_tray_icon(t, vec![1]);
    state.backend_set_tray_menu(t, Some(&menu_template()), None, 0);
    state.backend_destroy_tray_icon(t);
    assert!(matches!(state.tray_ops[0], TrayOp::Create { tray_id } if tray_id == t));
    assert!(matches!(&state.tray_ops[1], TrayOp::SetIcon { png, .. } if png == &vec![1]));
    assert!(matches!(&state.tray_ops[2], TrayOp::SetMenu { items, .. } if items.len() == 1));
    assert!(matches!(state.tray_ops[3], TrayOp::Destroy { .. }));
    assert_ne!(state.backend_create_tray_icon(), t);
}

#[test]
fn prompts_quote_what_they_are_given() {
    assert_eq!(quote_double("a\"b\\c"), "a\\\"b\\\\c");
    assert_eq!(quote_single("it's"), "it''s");
    match show_prompt_dialog(Platform::MacOs, "T", "say \"hi\"", "d") {
        PromptStep::Run(c) => {
            assert_eq!(c.program, "osascript");
            assert_eq!(c.args[0], "-e");
            assert!(c.args[1].starts_with("set result to display dialog \"say \\\"hi\\\"\""));
        }
        _ => panic!("a command"),
    }
    match show_prompt_dialog(Platform::Windows, "T", "it's", "d") {
        PromptStep::Run(c) => {
            assert_eq!(c.program, "powershell");
            assert!(c.args[1].ends_with("InputBox('it''s', 'T', 'd')"));
        }
        _ => panic!("a command"),
    }
    match show_prompt_dialog(Platform::Linux, "T", "M", "d") {
        PromptStep::Run(c) => {
            assert_eq!(c.program, "zenity");
            assert_eq!(c.args, vec!["--entry", "--title", "T", "--text", "M", "--entry-text", "d"]);
        }
        _ => panic!("a command"),
    }
    match show_prompt_dialog(Platform::Other, "T", "M", "d") {
        PromptStep::Answer { confirmed, input } => {
            assert_eq!((confirmed, input.as_deref()), (true, Some("d")))
        }
        _ => panic!("an answer"),
    }
}

#[test]
fn prompt_output_is_an_answer() {
    assert_eq!(prompt_result(Platform::Linux, true, b" yes\n"), (true, Some("yes".to_string())));
    assert_eq!(prompt_result(Platform::Linux, true, b"\n"), (true, Some(String::new())));
    assert_eq!(prompt_result(Platform::Windows, true, b"\r\n"), (false, None));
    assert_eq!(prompt_result(Platform::Linux, false, b"yes"), (false, None));
    // What is not UTF-8 is replaced.
    assert_eq!(prompt_result(Platform::Linux, true, b"a\xff"), (true, Some("a\u{fffd}".to_string())));
}

#[test]
fn dialogs_are_of_their_kind() {
    let of = |kind: i32| show_native_dialog(kind, Platform::Linux, "t", "m", "d");
    assert!(matches!(of(LAUFEY_DIALOG_ALERT), NativeDialog::Message { cancellable: false }));
    assert!(matches!(of(LAUFEY_DIALOG_CONFIRM), NativeDialog::Message { cancellable: true }));
    assert!(matches!(of(LAUFEY_DIALOG_PROMPT), NativeDialog::Prompt(_)));
    assert!(matches!(of(17), NativeDialog::Unknown));
    assert!(message_confirmed(false, false) && !message_confirmed(true, false));
    assert_eq!(backend_show_dialog(true, Some("x".to_string()), true), (1, Some("x".to_string())));
    assert_eq!(backend_show_dialog(false, Some("x".to_string()), false), (0, None));
    assert_eq!(backend_show_dialog(true, Some("a\0b".to_string()), true), (1, None));
}

#[test]
fn clipboard_tools_are_tried_in_turn() {
    let first = write_clipboard_text_native(Platform::Linux, "x", 0).unwrap();
    assert_eq!((first.command.program.as_str(), first.input.as_str()), ("wl-copy", "x"));
    let second = write_clipboard_text_native(Platform::Linux, "x", 1).unwrap();
    assert_eq!(second.command.args, vec!["-selection", "clipboard"]);
    assert!(write_clipboard_text_native(Platform::Linux, "x", 2).is_none());
    assert_eq!(read_clipboard_text_native(Platform::MacOs, 0).unwrap().program, "pbpaste");
    assert!(read_clipboard_text_native(Platform::MacOs, 1).is_none());
    assert!(read_clipboard_text_native(Platform::Other, 0).is_none());
    assert_eq!(clipboard_text(Platform::Windows, b"a\n\r\n"), "a\n");
    assert_eq!(clipboard_text(Platform::Windows, b"a\n"), "a");
    assert_eq!(clipboard_text(Platform::Linux, b"a\n"), "a\n");
    assert_eq!(clipboard_text(Platform::Linux, b"\xc3\xa9\xff"), "é\u{fffd}");
    assert_eq!(backend_read_clipboard_text(Some("t".to_string())), Some("t".to_string()));
    assert_eq!(backend_read_clipboard_text(Some("\0".to_string())), None);
    assert_eq!(backend_read_clipboard_text(None), None);
}

fn texts(t: &[&str]) -> Vec<String> {
    t.iter().map(|s| s.to_string()).collect()
}

#[test]
fn the_runtime_is_looked_for_in_order() {
    let args = texts(&["--runtime", "a.so", "x", "--runtime=b.so", "--runtime"]);
    assert_eq!(paths_from_args(&args), texts(&["a.so", "b.so"]));
    let all = runtime_candidates(&args, Some("env.so".to_string()), Some("beside.so".to_string()));
    assert_eq!(all[..5], texts(&["a.so", "b.so", "env.so", "beside.so", "./libruntime.dylib"])[..]);
    assert_eq!(all.len(), 10);
    assert_eq!(find_runtime_library(&texts(&["a", "b", "c"]), &[false, true, true]), Some(1));
    assert_eq!(find_runtime_library(&texts(&["a"]), &[false]), None);
    assert_eq!(runtime_extension(Platform::Windows), "dll");
    assert_eq!(runtime_extension(Platform::MacOs), "dylib");
    assert_eq!(runtime_extension(Platform::Linux), "so");
    let beside = |exists: bool, program: bool| find_colocated_runtime("p".to_string(), exists, program);
    assert_eq!(beside(true, false), Some("p".to_string()));
    assert_eq!(beside(true, true), None);
    assert_eq!(beside(false, false), None);
}

#[test]
fn the_runtime_starts_after_it_was_initialised() {
    let mut step = LoadStep::OpenLibrary;
    let mut seen = vec![step];
    loop {
        match load_and_start_runtime(step, 0) {
            LoadNext::Continue(next) => {
                step = next;
                seen.push(next);
            }
            LoadNext::Started { report_failure } => {
                assert!(!report_failure);
                break;
            }
            LoadNext::Failed => panic!("nothing failed"),
        }
    }
    assert_eq!(
        seen,
        vec![
            LoadStep::OpenLibrary,
            LoadStep::FindInit,
            LoadStep::FindStart,
            LoadStep::CallInit,
            LoadStep::CallStart
        ]
    );
    assert_eq!(load_and_start_runtime(LoadStep::CallInit, 1), LoadNext::Failed);
    assert_eq!(
        load_and_start_runtime(LoadStep::CallStart, 1),
        LoadNext::Started { report_failure: true }
    );
}

#[test]
fn texts_are_trimmed_and_compared() {
    assert_eq!(trim("\u{3000} a b\t\n"), "a b");
    assert_eq!(trim(" \n "), "");
    assert!(text_eq("é", "é") && !text_eq("e", "é"));
    assert_eq!(to_c_string("ok"), "ok");
    assert_eq!(to_c_string("a\0b"), "");
}

fn shift_key(code: KeyCode, pressed: bool, repeat: bool) -> WindowEvent {
    WindowEvent::KeyboardInput(KeyEvent {
        logical_key: Key::Named(NamedKey::Shift),
        physical_key: PhysicalKey::Code(code),
        pressed,
        repeat,
    })
}

/// Shift is active, and this is known of its two keys.
fn shift_report(left: ModifiersKeyState, right: ModifiersKeyState) -> Modifiers {
    Modifiers {
        lshift: left,
        rshift: right,
        ..Modifiers::from_state(ModifiersState { bits: WINIT_SHIFT })
    }
}

#[test]
fn a_modifier_key_is_told_once() {
    let (mut app, mut state, mut handles, _) = opened();
    state.backend_set_keyboard_event_handler(to(1));
    let right = shift_report(ModifiersKeyState::Unknown, ModifiersKeyState::Pressed);
    let mut tell = |e: WindowEvent| app.window_event(&mut state, &mut handles, 1000, e).calls;
    // A report that knows the side comes first, then the key event.
    match &tell(WindowEvent::ModifiersChanged(right))[..] {
        [HandlerCall::Keyboard { state: 0, key, code, .. }] => {
            assert_eq!((key.as_str(), code.as_str()), ("Shift", "ShiftRight"))
        }
        _ => panic!("shift goes down"),
    }
    assert!(tell(shift_key(KeyCode::ShiftRight, true, false)).is_empty());
    assert_eq!(tell(shift_key(KeyCode::ShiftRight, true, true)).len(), 1);
    // The key event comes first, then the report.
    match &tell(shift_key(KeyCode::ShiftRight, false, false))[..] {
        [HandlerCall::Keyboard { state: 1, key, code, .. }] => {
            assert_eq!((key.as_str(), code.as_str()), ("Shift", "ShiftRight"))
        }
        _ => panic!("shift goes up"),
    }
    assert!(tell(WindowEvent::ModifiersChanged(Modifiers::default())).is_empty());
    // One that comes in one way only is told too.
    assert_eq!(tell(WindowEvent::ModifiersChanged(right)).len(), 1);
    assert_eq!(tell(WindowEvent::ModifiersChanged(Modifiers::default())).len(), 1);
    assert_eq!(tell(shift_key(KeyCode::ShiftLeft, true, false)).len(), 1);
    assert_eq!(tell(shift_key(KeyCode::ShiftLeft, false, false)).len(), 1);
}

#[test]
fn a_report_without_a_side_leaves_it_to_the_key_event() {
    let (mut app, mut state, mut handles, _) = opened();
    state.backend_set_keyboard_event_handler(to(1));
    let shift = Modifiers::from_state(ModifiersState { bits: WINIT_SHIFT });
    let mut tell = |e: WindowEvent| app.window_event(&mut state, &mut handles, 1000, e).calls;
    for (report, pressed, number) in [(shift, true, 0), (Modifiers::default(), false, 1)] {
        assert!(tell(WindowEvent::ModifiersChanged(report)).is_empty());
        match &tell(shift_key(KeyCode::ShiftRight, pressed, false))[..] {
            [HandlerCall::Keyboard { state, key, code, .. }] => {
                assert_eq!((*state, key.as_str(), code.as_str()), (number, "Shift", "ShiftRight"))
            }
            _ => panic!("the right shift key"),
        }
    }
}

#[test]
fn a_key_of_the_other_side_is_told() {
    let (mut app, mut state, mut handles, _) = opened();
    state.backend_set_keyboard_event_handler(to(1));
    let left = shift_report(ModifiersKeyState::Pressed, ModifiersKeyState::Unknown);
    let mut tell = |e: WindowEvent| app.window_event(&mut state, &mut handles, 1000, e).calls;
    assert_eq!(tell(WindowEvent::ModifiersChanged(left)).len(), 1);
    assert_eq!(tell(shift_key(KeyCode::ShiftRight, true, false)).len(), 1);
    assert!(tell(shift_key(KeyCode::ShiftLeft, true, false)).is_empty());
}

#[test]
fn a_window_created_hidden_stays_hidden_until_shown() {
    let mut app = App::new();
    let mut state = Backend::new();
    let mut handles = WindowHandles::new();
    let w = state.backend_create_window_ex(LAUFEY_WINDOW_FLAG_HIDDEN, None);
    let plain = state.backend_create_window(None);
    assert!(!state.backend_is_visible(w));
    assert!(state.backend_is_visible(plain));
    assert_eq!(app.creation_attributes(&state, w).visible, Some(false));
    assert_eq!(app.creation_attributes(&state, plain).visible, None);
    let ops = app.create_window(
        &mut state,
        &mut handles,
        w,
        5,
        Geometry { size: None, scale: f(1.0), inner: None },
        Platform::Other,
        None,
        None,
    );
    assert!(matches!(ops[..], [WindowOp::SetVisible(false)]));
    state.queue.clear();
    // Giving it the focus shows it, once.
    state.backend_focus(w);
    state.backend_focus(w);
    assert!(state.backend_is_visible(w));
    assert_eq!(
        state.queue,
        vec![
            CommonEvent::Show { window_id: w },
            CommonEvent::Focus { window_id: w },
            CommonEvent::Focus { window_id: w },
        ]
    );
    // Hidden again, it is a window like any other.
    state.backend_hide(w);
    state.queue.clear();
    state.backend_focus(w);
    assert!(!state.backend_is_visible(w));
    assert_eq!(state.queue, vec![CommonEvent::Focus { window_id: w }]);
}

#[test]
fn hiding_before_the_window_exists_is_left_to_its_event() {
    let mut app = App::new();
    let mut state = Backend::new();
    let mut handles = WindowHandles::new();
    let w = state.backend_create_window(None);
    state.backend_hide(w);
    assert!(!state.backend_is_visible(w));
    assert_eq!(app.creation_attributes(&state, w).visible, None);
    let ops = app.create_window(
        &mut state,
        &mut handles,
        w,
        5,
        Geometry { size: None, scale: f(1.0), inner: None },
        Platform::Other,
        None,
        None,
    );
    assert!(ops.is_empty());
    let queue = std::mem::take(&mut state.queue);
    assert_eq!(
        queue,
        vec![CommonEvent::CreateWindow { window_id: w }, CommonEvent::Hide { window_id: w }]
    );
    let hidden = app.user_event(&mut state, &mut handles, queue[1], Platform::Other);
    assert!(matches!(hidden, LoopAction::Operate { op: Some(WindowOp::SetVisible(false)), .. }));
}

#[test]
fn a_tray_menu_answers_clicks() {
    let mut state = Backend::new();
    let t = state.backend_create_tray_icon();
    state.backend_set_tray_menu(t, Some(&menu_template()), Some(50), 60);
    let info = state.backend_test_click_menu_item(Some("go")).unwrap();
    assert_eq!((info.callback, info.callback_data, info.window_id), (50, 60, t));
    assert!(state.backend_test_click_menu_item(Some("other")).is_none());
}

#[test]
fn compositions_reach_their_handler() {
    let (mut app, mut state, mut handles, w) = opened();
    state.backend_set_ime_event_handler(to(9));
    let mut told = Vec::new();
    for input in [
        ImeInput::Preedit("k".to_string()),
        ImeInput::Preedit(String::new()),
        ImeInput::Commit("か".to_string()),
    ] {
        for call in app.window_event(&mut state, &mut handles, 1000, WindowEvent::Ime(input)).calls {
            match call {
                HandlerCall::Ime { to, window_id, state, data } => {
                    assert_eq!((to.func, window_id), (9, w));
                    told.push((state, data));
                }
                _ => panic!("a composition"),
            }
        }
    }
    assert_eq!(
        told,
        vec![
            (LAUFEY_IME_START, String::new()),
            (LAUFEY_IME_UPDATE, "k".to_string()),
            (LAUFEY_IME_END, "か".to_string()),
        ]
    );
}

#[test]
fn the_input_method_is_set_up_by_operations() {
    let (mut app, mut state, mut handles, w) = opened();
    let area = ImeCursorArea { x: f(1.0), y: f(2.0), width: f(3.0), height: f(4.0) };
    state.backend_set_ime_allowed(w, true);
    state.backend_set_ime_cursor_area(w, area);
    let queue = std::mem::take(&mut state.queue);
    let mut ops = Vec::new();
    for e in queue {
        match app.user_event(&mut state, &mut handles, e, Platform::Linux) {
            LoopAction::Operate { op, .. } => ops.extend(op),
            _ => panic!("an operation"),
        }
    }
    assert!(matches!(ops[..], [WindowOp::SetImeAllowed(true), WindowOp::SetImeCursorArea(a)] if a == area));
}
