//! The embedder's side: windows, events, bindings, dialogs, tray, dock,
//! permissions, URL schemes and printing.

use laufey::api::{create_api_base, create_backend_api, LaufeyBackendApi, LAUFEY_API_VERSION};
use laufey::dialog::{
    alert, confirm, confirm_reply, dialog_reply, prompt, prompt_reply, quit, read_clipboard_text,
    set_js_namespace, test_click_menu_item, test_trigger_close_requested, write_clipboard_text,
};
use laufey::dock::{
    bounce_dock, clear_dock_menu, dock_menu_click_callback, dock_reopen_callback, on_dock_reopen,
    set_dock_badge, set_dock_menu, set_dock_visible, DockBounceType,
};
use laufey::events::{
    close_requested_trampoline, event_handler, on_keyboard_event, on_mouse_move, on_resize,
};
use laufey::float::Float64;
use laufey::js::{
    add_binding, execute_js_result, js_call_handler, poll_js_calls, remove_binding, run, run_step,
    JsCall,
};
use laufey::menu::MenuItem;
use laufey::native_dialog::{LAUFEY_DIALOG_ALERT, LAUFEY_DIALOG_CONFIRM, LAUFEY_DIALOG_PROMPT};
use laufey::pdf::{after_write, PdfDelivery, PdfSlot, PRINT_TO_PDF_TIMEOUT_MILLIS};
use laufey::permission::{
    query_permission, request_permission, PermissionKind, PermissionStatus,
    LAUFEY_PERMISSION_NOTIFICATIONS, LAUFEY_PERMISSION_STATUS_DENIED,
    LAUFEY_PERMISSION_STATUS_GRANTED, LAUFEY_PERMISSION_STATUS_PROMPT,
    LAUFEY_PERMISSION_STATUS_UNSUPPORTED,
};
use laufey::raw_value::{value_get_int, value_get_string, value_list_size, LaufeyValue};
use laufey::runtime::{
    init_api, should_shutdown, shutdown, BackendCall, BindingHandler, EventKind, HandlerId, Query,
    Runtime,
};
use laufey::scheme::{
    flatten_headers, parse_flat_headers, register_scheme_handler, scheme_request_trampoline,
};
use laufey::tray::{
    tray_click_callback, tray_dblclick_callback, tray_menu_click_callback, TrayIcon,
};
use laufey::value::Value;
use laufey::window::{
    context_menu_click_callback, menu_click_callback, reported_pair, Window, WindowOptions,
};
use laufey::window_state::{
    LAUFEY_WINDOW_FLAG_FRAMELESS, LAUFEY_WINDOW_FLAG_NO_ACTIVATE, LAUFEY_WINDOW_FLAG_TRANSPARENT,
    LAUFEY_WINDOW_FLAG_TRANSPARENT_TITLEBAR,
};

fn h(token: u64) -> HandlerId {
    HandlerId { token }
}

fn runtime_with(api: LaufeyBackendApi) -> Runtime {
    let mut rt = Runtime::new();
    assert_eq!(init_api(&mut rt, Some(api)), 0);
    rt
}

/// A table with every entry that these tests use.
fn full_table() -> LaufeyBackendApi {
    let mut api = create_backend_api();
    api.set_window_opacity = true;
    api.get_window_opacity = true;
    api.set_click_passthrough_forward = true;
    api.is_click_passthrough_forward = true;
    api.print_to_pdf = true;
    api.open_devtools = true;
    api.set_js_namespace = true;
    api.poll_js_calls = true;
    api.set_js_call_notify = true;
    api.set_ime_allowed = true;
    api.set_ime_cursor_area = true;
    api.query_permission = true;
    api.request_permission = true;
    api.register_scheme_handler = true;
    api.scheme_request_read_body = true;
    api.scheme_response_begin = true;
    api.scheme_response_write = true;
    api.scheme_response_finish = true;
    api.get_tray_icon_bounds = true;
    api
}

#[test]
fn permission_status_from_raw_known() {
    assert_eq!(
        PermissionStatus::from_raw(LAUFEY_PERMISSION_STATUS_GRANTED),
        PermissionStatus::Granted
    );
    assert_eq!(
        PermissionStatus::from_raw(LAUFEY_PERMISSION_STATUS_DENIED),
        PermissionStatus::Denied
    );
    assert_eq!(
        PermissionStatus::from_raw(LAUFEY_PERMISSION_STATUS_PROMPT),
        PermissionStatus::Prompt
    );
    assert_eq!(
        PermissionStatus::from_raw(LAUFEY_PERMISSION_STATUS_UNSUPPORTED),
        PermissionStatus::Unsupported
    );
}

#[test]
fn permission_status_from_raw_unknown_is_unsupported() {
    assert_eq!(PermissionStatus::from_raw(99), PermissionStatus::Unsupported);
    assert_eq!(PermissionStatus::from_raw(-1), PermissionStatus::Unsupported);
}

#[test]
fn permission_kind_repr_i32_matches_capi_constants() {
    assert_eq!(PermissionKind::Notifications.to_raw(), LAUFEY_PERMISSION_NOTIFICATIONS);
}

#[test]
fn permissions_are_asked_of_the_backend() {
    let mut rt = runtime_with(full_table());
    assert_eq!(query_permission(&mut rt, PermissionKind::Notifications, h(1)), None);
    assert_eq!(request_permission(&mut rt, PermissionKind::Notifications, h(2)), None);
    assert!(matches!(rt.calls[0], BackendCall::QueryPermission { kind: 1, callback } if callback == h(1)));
    assert!(matches!(rt.calls[1], BackendCall::RequestPermission { kind: 1, callback } if callback == h(2)));
    let mut bare = runtime_with(create_api_base());
    assert_eq!(
        request_permission(&mut bare, PermissionKind::Notifications, h(2)),
        Some(PermissionStatus::Unsupported)
    );
    assert!(bare.calls.is_empty());
}

#[test]
fn window_options_map_to_flags() {
    assert_eq!(WindowOptions::default().to_flags(), 0);
    assert_eq!(
        WindowOptions { frameless: true, ..Default::default() }.to_flags(),
        LAUFEY_WINDOW_FLAG_FRAMELESS
    );
    assert_eq!(
        WindowOptions { no_activate: true, ..Default::default() }.to_flags(),
        LAUFEY_WINDOW_FLAG_NO_ACTIVATE
    );
    assert_eq!(
        WindowOptions { transparent_titlebar: true, ..Default::default() }.to_flags(),
        LAUFEY_WINDOW_FLAG_TRANSPARENT_TITLEBAR
    );
    assert_eq!(
        WindowOptions { transparent: true, ..Default::default() }.to_flags(),
        LAUFEY_WINDOW_FLAG_TRANSPARENT
    );
    assert_eq!(
        WindowOptions { frameless: true, no_activate: true, ..Default::default() }.to_flags(),
        LAUFEY_WINDOW_FLAG_FRAMELESS | LAUFEY_WINDOW_FLAG_NO_ACTIVATE
    );
    assert_eq!(
        WindowOptions { frameless: true, transparent: true, ..Default::default() }.to_flags(),
        LAUFEY_WINDOW_FLAG_FRAMELESS | LAUFEY_WINDOW_FLAG_TRANSPARENT
    );
}

#[test]
fn dock_bounce_type_is_copy_and_distinct() {
    let a = DockBounceType::Informational;
    let b = a;
    let _ = a; // still usable after copy
    let c = DockBounceType::Critical;
    assert!(matches!(a, DockBounceType::Informational));
    assert!(matches!(b, DockBounceType::Informational));
    assert!(matches!(c, DockBounceType::Critical));
}

#[test]
fn the_table_is_installed_once() {
    let mut rt = Runtime::new();
    assert_ne!(init_api(&mut rt, None), 0);
    let mut api = create_backend_api();
    assert_eq!(api.version, LAUFEY_API_VERSION);
    assert_eq!(init_api(&mut rt, Some(api)), 0);
    api.version = 1;
    init_api(&mut rt, Some(api));
    assert_eq!(rt.api().version, LAUFEY_API_VERSION);
    assert!(!should_shutdown(&rt));
    shutdown(&mut rt);
    assert!(should_shutdown(&rt));
}

#[test]
fn windows_are_created_by_what_the_table_has() {
    let rt = runtime_with(full_table());
    assert!(matches!(
        Window::new_with_options(&rt, WindowOptions { frameless: true, ..Default::default() }),
        Query::Ask(BackendCall::CreateWindowEx { flags: 1 })
    ));
    let rt = runtime_with(create_api_base());
    assert!(matches!(Window::new_with_options(&rt, WindowOptions::default()), Query::Known(0)));
    let mut rt = runtime_with(full_table());
    let w = Window::new(&mut rt, 4, 640, 480);
    assert_eq!(w.id(), 4);
    assert!(matches!(
        rt.calls[0],
        BackendCall::SetWindowSize { window_id: 4, width: 640, height: 480 }
    ));
}

#[test]
fn window_settings_go_to_the_backend() {
    let mut rt = runtime_with(full_table());
    let w = Window::from_id(2)
        .title(&mut rt, "Title")
        .load(&mut rt, "app://index.html")
        .size(&mut rt, 10, 20)
        .position(&mut rt, -5, 6)
        .resizable(&mut rt, false)
        .always_on_top(&mut rt, true)
        .opacity(&mut rt, Float64::from_bits(1.5f64.to_bits()))
        .click_passthrough(&mut rt, true)
        .click_passthrough_forward(&mut rt, true);
    w.show(&mut rt);
    w.hide_window(&mut rt);
    w.focus(&mut rt);
    w.set_ime_allowed(&mut rt, true);
    w.open_devtools(&mut rt);
    w.close(&mut rt);
    let c = &rt.calls;
    assert!(matches!(&c[0], BackendCall::SetTitle { window_id: 2, title } if title == "Title"));
    assert!(matches!(&c[1], BackendCall::Navigate { window_id: 2, url } if url == "app://index.html"));
    assert!(matches!(c[2], BackendCall::SetWindowSize { window_id: 2, width: 10, height: 20 }));
    assert!(matches!(c[3], BackendCall::SetWindowPosition { window_id: 2, x: -5, y: 6 }));
    assert!(matches!(c[4], BackendCall::SetResizable { window_id: 2, resizable: false }));
    assert!(matches!(c[5], BackendCall::SetAlwaysOnTop { window_id: 2, always_on_top: true }));
    // An opacity beyond 1 is limited to it.
    assert!(matches!(c[6], BackendCall::SetWindowOpacity { window_id: 2, opacity } if opacity == Float64::one()));
    assert!(matches!(c[7], BackendCall::SetClickPassthrough { window_id: 2, passthrough: true }));
    assert!(matches!(c[8], BackendCall::SetClickPassthroughForward { window_id: 2, forward: true }));
    assert!(matches!(c[9], BackendCall::Show { window_id: 2 }));
    assert!(matches!(c[10], BackendCall::Hide { window_id: 2 }));
    assert!(matches!(c[11], BackendCall::Focus { window_id: 2 }));
    assert!(matches!(c[12], BackendCall::SetImeAllowed { window_id: 2, allowed: true }));
    assert!(matches!(c[13], BackendCall::OpenDevtools { window_id: 2 }));
    assert!(matches!(c[14], BackendCall::CloseWindow { window_id: 2 }));
    assert_eq!(c.len(), 15);
}

#[test]
fn a_bare_table_gets_no_calls() {
    let mut rt = runtime_with(create_api_base());
    let w = Window::from_id(1).title(&mut rt, "bad\0title").size(&mut rt, 1, 2);
    w.show(&mut rt);
    w.close(&mut rt);
    assert!(rt.calls.is_empty());
    assert!(matches!(w.get_size(&rt), Query::Known((0, 0))));
    assert!(matches!(w.get_resizable(&rt), Query::Known(_)));
    assert!(matches!(w.get_window_handle(&rt), Query::Known(0)));
    assert!(matches!(w.get_opacity(&rt), Query::Known(x) if x == Float64::one()));
}

#[test]
fn the_windowing_backend_has_no_opacity_and_no_forwarding() {
    let mut rt = runtime_with(create_backend_api());
    let w = Window::from_id(1);
    w.set_opacity(&mut rt, Float64::zero());
    w.set_click_passthrough_forward(&mut rt, true);
    assert!(rt.calls.is_empty());
    assert!(matches!(w.get_opacity(&rt), Query::Known(x) if x == Float64::one()));
    assert!(matches!(w.get_click_passthrough_forward(&rt), Query::Known(false)));
    assert!(matches!(
        w.get_scale_factor(&rt),
        Query::Ask(BackendCall::GetWindowScaleFactor { window_id: 1 })
    ));
}

#[test]
fn window_state_is_asked_for() {
    let rt = runtime_with(full_table());
    let w = Window::from_id(3);
    assert!(matches!(w.get_size(&rt), Query::Ask(BackendCall::GetWindowSize { window_id: 3 })));
    assert!(matches!(w.get_position(&rt), Query::Ask(BackendCall::GetWindowPosition { window_id: 3 })));
    assert!(matches!(w.get_visible(&rt), Query::Ask(BackendCall::IsVisible { window_id: 3 })));
    assert!(matches!(
        w.get_window_handle_type(&rt),
        Query::Ask(BackendCall::GetWindowHandleType { window_id: 3 })
    ));
    assert_eq!(reported_pair(Some((3, 4))), (3, 4));
    assert_eq!(reported_pair(None), (0, 0));
}

#[test]
fn event_handlers_are_found_again() {
    let mut rt = runtime_with(full_table());
    on_resize(&mut rt, 1, h(5));
    on_resize(&mut rt, 2, h(6));
    on_keyboard_event(&mut rt, 1, h(7));
    assert_eq!(event_handler(&rt, EventKind::Resize, 1), Some(h(5)));
    assert_eq!(event_handler(&rt, EventKind::Resize, 2), Some(h(6)));
    assert_eq!(event_handler(&rt, EventKind::Keyboard, 1), Some(h(7)));
    assert_eq!(event_handler(&rt, EventKind::Keyboard, 2), None);
    // The backend is told of the first handler of each kind only.
    assert_eq!(rt.calls.len(), 2);
    assert!(matches!(rt.calls[0], BackendCall::SetEventHandler { kind: EventKind::Resize }));
    assert!(matches!(rt.calls[1], BackendCall::SetEventHandler { kind: EventKind::Keyboard }));
    on_mouse_move(&mut rt, 1, h(8));
    on_mouse_move(&mut rt, 1, h(9));
    assert_eq!(event_handler(&rt, EventKind::MouseMove, 1), Some(h(9)));
}

#[test]
fn an_unanswered_close_request_closes_the_window() {
    let mut rt = runtime_with(full_table());
    let w = Window::from_id(1).on_close_requested(&mut rt, h(1));
    let before = rt.calls.len();
    assert_eq!(close_requested_trampoline(&mut rt, w.id()), Some(h(1)));
    assert_eq!(rt.calls.len(), before);
    assert_eq!(close_requested_trampoline(&mut rt, 2), None);
    assert!(matches!(rt.calls[before], BackendCall::CloseWindow { window_id: 2 }));
}

fn list_of(values: Vec<Value>) -> Box<LaufeyValue> {
    Value::List(values).to_raw(&create_backend_api()).unwrap()
}

#[test]
fn bindings_are_called_and_answered() {
    let mut rt = runtime_with(full_table());
    add_binding(&mut rt, 1, "sum", BindingHandler::Sync(h(3)));
    let args = list_of(vec![Value::Int(2), Value::Int(3)]);
    let (to, call) =
        js_call_handler(&mut rt, 1, 40, Some("sum".to_string()), Some(&args)).unwrap();
    assert_eq!(to, BindingHandler::Sync(h(3)));
    assert_eq!((call.window_id, call.call_id, call.method.as_str()), (1, 40, "sum"));
    assert_eq!(call.args.iter().map(|v| v.as_int().unwrap()).sum::<i32>(), 5);
    call.resolve(&mut rt, Value::Int(5));
    match rt.calls.last().unwrap() {
        BackendCall::JsCallRespond { call_id: 40, result: Some(r), error: None } => {
            assert_eq!(value_get_int(Some(r)), 5)
        }
        _ => panic!("the call is answered"),
    }
    // What is bound for one window is not bound for another.
    assert!(js_call_handler(&mut rt, 2, 41, Some("sum".to_string()), None).is_none());
    remove_binding(&mut rt, 1, "sum");
    assert!(js_call_handler(&mut rt, 1, 42, Some("sum".to_string()), None).is_none());
    match rt.calls.last().unwrap() {
        BackendCall::JsCallRespond { call_id: 42, result: None, error: Some(e) } => {
            assert!(value_get_string(Some(e)).unwrap().contains("sum"))
        }
        _ => panic!("the call is refused"),
    }
}

#[test]
fn rejected_calls_carry_the_error() {
    let mut rt = runtime_with(full_table());
    let call = JsCall { window_id: 1, call_id: 9, method: "m".to_string(), args: Vec::new() };
    call.reject(&mut rt, Value::String("no".to_string()));
    match rt.calls.last().unwrap() {
        BackendCall::JsCallRespond { call_id: 9, result: None, error: Some(e) } => {
            assert_eq!(value_get_string(Some(e)), Some(&"no".to_string()))
        }
        _ => panic!("the call is refused"),
    }
}

#[test]
fn the_js_handler_is_registered_once() {
    let mut rt = runtime_with(full_table());
    run(&mut rt);
    let first = rt.calls.len();
    assert!(first > 0);
    run(&mut rt);
    Window::from_id(1).bind_async(&mut rt, "f", h(1)).unbind(&mut rt, "f");
    assert_eq!(rt.calls.len(), first);
    poll_js_calls(&mut rt);
    assert!(matches!(rt.calls.last().unwrap(), BackendCall::PollJsCalls));
}

#[test]
fn scripts_give_a_result_or_an_error() {
    let api = create_backend_api();
    let n = Value::Int(7).to_raw(&api).unwrap();
    match execute_js_result(&api, Some(&n), None) {
        Ok(v) => assert_eq!(v.as_int(), Some(7)),
        Err(_) => panic!("a result"),
    }
    match execute_js_result(&api, None, Some(&n)) {
        Err(v) => assert_eq!(v.as_int(), Some(7)),
        Ok(_) => panic!("an error"),
    }
    assert!(matches!(execute_js_result(&api, None, None), Ok(Value::Null)));
    let mut rt = runtime_with(full_table());
    Window::from_id(1).execute_js(&mut rt, "1+1", Some(h(2)));
    assert!(matches!(&rt.calls[0], BackendCall::ExecuteJs { window_id: 1, script, callback: Some(cb) }
        if script == "1+1" && *cb == h(2)));
}

fn one_item() -> Vec<MenuItem> {
    vec![MenuItem::Role { role: "copy".to_string() }]
}

#[test]
fn menus_go_to_the_backend_and_clicks_come_back() {
    let mut rt = runtime_with(full_table());
    let w = Window::from_id(6);
    w.set_menu(&mut rt, &one_item(), h(1));
    w.show_context_menu(&mut rt, 3, 4, &one_item(), h(2));
    match &rt.calls[0] {
        BackendCall::SetApplicationMenu { window_id: 6, template: Some(t) } => {
            assert_eq!(value_list_size(Some(t)), 1)
        }
        _ => panic!("a menu"),
    }
    assert!(matches!(
        &rt.calls[1],
        BackendCall::ShowContextMenu { window_id: 6, x: 3, y: 4, template: Some(_) }
    ));
    let (to, id) = menu_click_callback(&rt, 6, Some("copy".to_string())).unwrap();
    assert_eq!((to, id.as_str()), (h(1), "copy"));
    let (to, _) = context_menu_click_callback(&rt, 6, Some("copy".to_string())).unwrap();
    assert_eq!(to, h(2));
    assert!(menu_click_callback(&rt, 7, Some("copy".to_string())).is_none());
}

#[test]
fn dialogs_are_asked_and_answered() {
    let mut rt = runtime_with(full_table());
    alert(&mut rt, "t", "m");
    assert!(matches!(
        &rt.calls[0],
        BackendCall::ShowDialog { window_id: 0, dialog_type: LAUFEY_DIALOG_ALERT, .. }
    ));
    assert!(matches!(
        confirm(&rt, "t", "m"),
        Query::Ask(BackendCall::ShowDialog { window_id: 0, dialog_type: LAUFEY_DIALOG_CONFIRM, .. })
    ));
    match prompt(&rt, "t", "m", "d") {
        Query::Ask(BackendCall::ShowDialog { dialog_type, title, message, default_value, wants_input, .. }) => {
            assert_eq!(dialog_type, LAUFEY_DIALOG_PROMPT);
            assert_eq!((title.as_str(), message.as_str(), default_value.as_str()), ("t", "m", "d"));
            assert!(wants_input);
        }
        _ => panic!("the backend is asked"),
    }
    assert!(matches!(
        Window::from_id(5).confirm(&rt, "t", "m"),
        Query::Ask(BackendCall::ShowDialog { window_id: 5, .. })
    ));
    assert!(confirm_reply(1) && !confirm_reply(0));
    assert_eq!(prompt_reply(1, Some("x".to_string())), Some("x".to_string()));
    assert_eq!(prompt_reply(0, Some("x".to_string())), None);
    assert_eq!(dialog_reply(1, None), (true, None));
    assert_eq!(dialog_reply(1, Some("x".to_string())), (true, Some("x".to_string())));
    assert_eq!(dialog_reply(0, Some("x".to_string())), (false, None));
    let bare = runtime_with(create_api_base());
    assert!(matches!(confirm(&bare, "t", "m"), Query::Known(false)));
    assert!(matches!(prompt(&bare, "t", "m", "d"), Query::Known(None)));
}

#[test]
fn the_clipboard_and_test_hooks_go_through() {
    let mut rt = runtime_with(full_table());
    write_clipboard_text(&mut rt, "x");
    quit(&mut rt);
    set_js_namespace(&mut rt, "app");
    assert!(matches!(&rt.calls[0], BackendCall::WriteClipboardText { text } if text == "x"));
    assert!(matches!(rt.calls[1], BackendCall::Quit));
    assert!(matches!(&rt.calls[2], BackendCall::SetJsNamespace { name } if name == "app"));
    assert!(matches!(read_clipboard_text(&rt), Query::Ask(BackendCall::ReadClipboardText)));
    assert!(matches!(
        test_click_menu_item(&rt, "id"),
        Query::Ask(BackendCall::TestClickMenuItem { item_id }) if item_id == "id"
    ));
    assert!(matches!(
        test_trigger_close_requested(&rt, 3),
        Query::Ask(BackendCall::TestTriggerCloseRequested { window_id: 3 })
    ));
    let bare = runtime_with(create_api_base());
    assert!(matches!(read_clipboard_text(&bare), Query::Known(None)));
    assert!(matches!(test_click_menu_item(&bare, "id"), Query::Known(false)));
}

#[test]
fn the_dock_is_set_and_answers() {
    let mut rt = runtime_with(full_table());
    set_dock_badge(&mut rt, Some("3"));
    set_dock_badge(&mut rt, None);
    bounce_dock(&mut rt, DockBounceType::Critical);
    set_dock_visible(&mut rt, false);
    set_dock_menu(&mut rt, &one_item(), h(4));
    assert!(matches!(&rt.calls[0], BackendCall::SetDockBadge { text: Some(t) } if t == "3"));
    assert!(matches!(&rt.calls[1], BackendCall::SetDockBadge { text: None }));
    assert!(matches!(rt.calls[2], BackendCall::BounceDock { .. }));
    assert!(matches!(rt.calls[3], BackendCall::SetDockVisible { visible: false }));
    assert!(matches!(&rt.calls[4], BackendCall::SetDockMenu { template: Some(_), with_callback: true }));
    let (to, id) = dock_menu_click_callback(&rt, Some("copy".to_string())).unwrap();
    assert_eq!((to, id.as_str()), (h(4), "copy"));
    clear_dock_menu(&mut rt);
    assert!(dock_menu_click_callback(&rt, Some("copy".to_string())).is_none());
    assert!(dock_reopen_callback(&rt, true).is_none());
    on_dock_reopen(&mut rt, h(5));
    assert_eq!(dock_reopen_callback(&rt, true), Some((h(5), true)));
}

#[test]
fn tray_icons_are_set_and_released() {
    let mut rt = runtime_with(full_table());
    assert!(matches!(TrayIcon::creation(&rt), Query::Ask(BackendCall::CreateTrayIcon)));
    let tray = TrayIcon::new(5)
        .icon(&mut rt, &[1, 2])
        .tooltip(&mut rt, "tip")
        .menu(&mut rt, &one_item(), h(1))
        .on_click(&mut rt, h(2))
        .on_double_click(&mut rt, h(3));
    assert!(matches!(&rt.calls[0], BackendCall::SetTrayIcon { tray_id: 5, png } if png == &vec![1, 2]));
    assert!(matches!(&rt.calls[1], BackendCall::SetTrayTooltip { tray_id: 5, text: Some(t) } if t == "tip"));
    assert_eq!(tray_menu_click_callback(&rt, 5, Some("copy".to_string())).unwrap().0, h(1));
    assert_eq!(tray_click_callback(&rt, 5), Some(h(2)));
    assert_eq!(tray_dblclick_callback(&rt, 5), Some(h(3)));
    assert!(matches!(
        tray.get_bounds(&rt),
        Query::Ask(BackendCall::GetTrayIconBounds { tray_id: 5 })
    ));
    tray.release(&mut rt);
    assert!(matches!(rt.calls.last().unwrap(), BackendCall::DestroyTrayIcon { tray_id: 5 }));
    assert_eq!(tray_click_callback(&rt, 5), None);
    assert!(tray_menu_click_callback(&rt, 5, Some("copy".to_string())).is_none());
    // A handle that was only looked up owns nothing.
    let before = rt.calls.len();
    TrayIcon::from_id(5).release(&mut rt);
    assert_eq!(rt.calls.len(), before);
}

#[test]
fn a_tray_icon_without_an_id_does_nothing() {
    let mut rt = Runtime::new();
    let tray = TrayIcon::new(0);
    tray.set_icon(&mut rt, &[1]);
    tray.set_tooltip(&mut rt, None);
    tray.clear_menu(&mut rt);
    tray.release(&mut rt);
    assert!(rt.calls.is_empty());
}

#[test]
fn headers_survive_the_wire_format() {
    let headers = vec![
        ("Content-Type".to_string(), "text/html".to_string()),
        ("X-Empty".to_string(), String::new()),
    ];
    let flat = flatten_headers(&headers);
    assert_eq!(parse_flat_headers(&flat), headers);
    assert_eq!(parse_flat_headers(&[]), vec![]);
    assert_eq!(flatten_headers(&[]), Vec::<u8>::new());
}

#[test]
fn scheme_requests_are_handed_on_and_answered() {
    let mut rt = runtime_with(full_table());
    register_scheme_handler(&mut rt, "app", h(9));
    assert!(matches!(&rt.calls[0], BackendCall::RegisterSchemeHandler { scheme } if scheme == "app"));
    let flat = flatten_headers(&[("Host".to_string(), "x".to_string())]);
    let (to, request) = scheme_request_trampoline(
        &mut rt,
        2,
        77,
        Some("GET".to_string()),
        Some("app://x/".to_string()),
        &flat,
    )
    .unwrap();
    assert_eq!(to, h(9));
    assert_eq!((request.window_id, request.method.as_str(), request.url.as_str()), (2, "GET", "app://x/"));
    assert_eq!(request.headers, vec![("Host".to_string(), "x".to_string())]);
    let exchange = request.exchange;
    assert!(matches!(
        exchange.read_body(&rt, 16),
        Query::Ask(BackendCall::SchemeRequestReadBody { exchange: 77, capacity: 16 })
    ));
    exchange.begin(&mut rt, 200, &[]);
    assert!(matches!(
        exchange.write(&rt, b"hi"),
        Query::Ask(BackendCall::SchemeResponseWrite { exchange: 77, bytes }) if bytes == b"hi".to_vec()
    ));
    exchange.finish(&mut rt);
    assert!(matches!(&rt.calls[1], BackendCall::SchemeResponseBegin { exchange: 77, status: 200, .. }));
    assert!(matches!(rt.calls[2], BackendCall::SchemeResponseFinish { exchange: 77 }));
}

#[test]
fn print_to_pdf_marshals_bytes_and_writes_path() {
    let mut rt = runtime_with(full_table());

    // Success without a path: the bytes come back.
    let mut slot = Window::from_id(1).print_to_pdf(&mut rt, None).unwrap();
    assert!(matches!(rt.calls[0], BackendCall::PrintToPdf { window_id: 1 }));
    assert_eq!(slot.timeout_millis, PRINT_TO_PDF_TIMEOUT_MILLIS);
    match slot.complete(b"%PDF-1.4 fake".to_vec(), None) {
        Some(PdfDelivery::Resolve(Ok(bytes))) => assert_eq!(bytes, b"%PDF-1.4 fake"),
        _ => panic!("the bytes"),
    }

    // With a path, the bytes are written to it and come back too.
    let mut slot = Window::from_id(1).print_to_pdf(&mut rt, Some("out.pdf")).unwrap();
    match slot.complete(b"%PDF-1.4 fake".to_vec(), None) {
        Some(PdfDelivery::WriteThenResolve { path, bytes }) => {
            assert_eq!(path, "out.pdf");
            assert_eq!(after_write(&path, bytes, None).unwrap(), b"%PDF-1.4 fake");
        }
        _ => panic!("a file to write"),
    }

    // Empty output resolves to empty bytes, not an error.
    let mut slot = Window::from_id(999).print_to_pdf(&mut rt, None).unwrap();
    match slot.complete(Vec::new(), None) {
        Some(PdfDelivery::Resolve(Ok(bytes))) => assert!(bytes.is_empty()),
        _ => panic!("no bytes"),
    }

    // A path that cannot be written is reported as an error.
    let mut slot = Window::from_id(1).print_to_pdf(&mut rt, Some("bad\0path.pdf")).unwrap();
    match slot.complete(b"%PDF-1.4 fake".to_vec(), None) {
        Some(PdfDelivery::WriteThenResolve { path, bytes }) => {
            let err = after_write(&path, bytes, Some("file name contained a NUL")).unwrap_err();
            assert!(err.contains("failed to write PDF"), "unexpected error: {err}");
            assert_eq!(err, "failed to write PDF to bad\0path.pdf: file name contained a NUL");
        }
        _ => panic!("a file to write"),
    }

    // What the backend reports as an error is one.
    let mut slot = PdfSlot::new(Some("out.pdf"), 5);
    match slot.complete(Vec::new(), Some("broken".to_string())) {
        Some(PdfDelivery::Resolve(Err(e))) => assert_eq!(e, "broken"),
        _ => panic!("an error"),
    }
    let mut bare = runtime_with(create_api_base());
    match Window::from_id(1).print_to_pdf(&mut bare, None) {
        Err(e) => assert_eq!(e, "print_to_pdf is not supported by this backend"),
        Ok(_) => panic!("nobody can print"),
    }
}

#[test]
fn print_to_pdf_times_out_and_ignores_late_completion() {
    let mut rt = runtime_with(full_table());
    let mut slot = Window::from_id(777).print_to_pdf_with_timeout(&mut rt, None, 100).unwrap();
    assert!(slot.watchdog_waits(99));
    assert!(!slot.watchdog_waits(100));
    let err = slot.time_out("0.1").unwrap().unwrap_err();
    assert!(err.contains("timed out"), "unexpected error: {err}");
    // The late completion is dropped, and so is a second timeout.
    assert!(slot.complete(b"%PDF-late".to_vec(), None).is_none());
    assert!(slot.time_out("0.1").is_none());
    // A completion in time keeps the watchdog silent.
    let mut slot = Window::from_id(778).print_to_pdf_with_timeout(&mut rt, None, 100).unwrap();
    assert!(slot.complete(b"%PDF".to_vec(), None).is_some());
    assert!(!slot.watchdog_waits(0));
    assert!(slot.time_out("0.1").is_none());
}

#[test]
fn shutdown_ends_a_run() {
    let mut rt = runtime_with(full_table());
    run(&mut rt);
    let before = rt.calls.len();
    assert!(run_step(&mut rt, false));
    assert_eq!(rt.calls.len(), before);
    assert!(run_step(&mut rt, true));
    assert!(matches!(rt.calls[before..], [BackendCall::PollJsCalls]));
    assert!(shutdown(&mut rt));
    assert!(shutdown(&mut rt));
    assert!(should_shutdown(&rt));
    assert!(!run_step(&mut rt, true));
    assert!(matches!(rt.calls[before..], [BackendCall::PollJsCalls, BackendCall::PollJsCalls]));
}

#[test]
fn a_run_that_was_shut_down_early_never_waits() {
    let mut rt = runtime_with(full_table());
    assert!(!shutdown(&mut rt));
    run(&mut rt);
    assert!(!run_step(&mut rt, false));
}
