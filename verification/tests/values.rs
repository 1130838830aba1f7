//! Values, menus and notifications, and how they cross the boundary.

use laufey::api::{create_api_base, create_backend_api};
use laufey::float::Float64;
use laufey::menu::{parse_menu_template, template_values, MenuItem, ParsedMenuItem};
use laufey::menu_build::{
    build_muda_context_menu, build_muda_menu, dispatch_menu_click_by_id, predefined_menu_item,
    register_menu_callbacks, MenuNode, PredefinedItem,
};
use laufey::notification::{
    notification_event_callback, notification_shown, Notification, NotificationEvent,
    NotificationHandle, LAUFEY_NOTIFICATION_ACTION, LAUFEY_NOTIFICATION_CLICKED,
    LAUFEY_NOTIFICATION_CLOSED, LAUFEY_NOTIFICATION_SHOWN,
};
use laufey::platform::Platform;
use laufey::raw_value::{
    value_binary, value_bool, value_dict, value_dict_get, value_dict_has, value_dict_keys,
    value_dict_set, value_dict_size, value_double, value_get_binary, value_get_bool,
    value_get_callback_id, value_get_double, value_get_int, value_get_string, value_int,
    value_is_binary, value_is_bool, value_is_callback, value_is_dict, value_is_double,
    value_is_int, value_is_list, value_is_null, value_is_string, value_list, value_list_append,
    value_list_get, value_list_set, value_list_size, value_null, value_string,
};
use laufey::runtime::{init_api, BackendCall, HandlerId, Query, Runtime};
use laufey::text_map::TextMap;
use laufey::value::{Dict, Value};

fn dict_get<'a>(v: &'a Value, key: &str) -> Option<&'a Value> {
    v.as_dict().and_then(|d| d.get(key))
}

fn double(x: f64) -> Value {
    Value::Double(Float64::from_bits(x.to_bits()))
}

#[test]
fn value_accessors() {
    assert_eq!(Value::String("hi".into()).as_string(), Some("hi"));
    assert_eq!(Value::Int(42).as_int(), Some(42));
    assert_eq!(Value::Bool(true).as_bool(), Some(true));
    assert!(Value::List(vec![Value::Int(1)]).as_list().is_some());
    assert!(Value::Dict(Dict::new()).as_dict().is_some());

    assert!(Value::Int(1).as_string().is_none());
    assert!(Value::String("x".into()).as_int().is_none());
    assert!(Value::Null.as_bool().is_none());
}

#[test]
fn value_accessors_for_null_and_double_and_binary() {
    let n = Value::Null;
    assert!(n.as_string().is_none());
    assert!(n.as_int().is_none());
    assert!(n.as_bool().is_none());
    assert!(n.as_list().is_none());
    assert!(n.as_dict().is_none());

    assert!(double(1.5).as_int().is_none());

    match Value::Binary(vec![0xDE, 0xAD]) {
        Value::Binary(b) => assert_eq!(b, vec![0xDE, 0xAD]),
        _ => unreachable!(),
    }
}

#[test]
fn value_list_and_dict_nest_arbitrarily() {
    let inner = Value::Dict({
        let mut m = Dict::new();
        m.insert("k".to_string(), Value::Int(1));
        m
    });
    let outer = Value::List(vec![Value::Null, inner]);
    let list = outer.as_list().unwrap();
    assert_eq!(list.len(), 2);
    assert!(matches!(list[0], Value::Null));
    let inner_dict = list[1].as_dict().unwrap();
    assert_eq!(inner_dict.get("k").and_then(|v| v.as_int()), Some(1));
}

#[test]
fn setting_a_key_again_replaces_its_value() {
    let mut d = Dict::new();
    d.insert("a".to_string(), Value::Int(1));
    d.insert("b".to_string(), Value::Int(2));
    d.insert("a".to_string(), Value::Int(3));
    assert_eq!(d.len(), 2);
    assert_eq!(d.get("a").and_then(|v| v.as_int()), Some(3));
    assert_eq!(d.get("b").and_then(|v| v.as_int()), Some(2));
    assert!(d.get("c").is_none());
    assert!(d.contains_key("b") && !d.contains_key("c"));
    assert_eq!(d.entry_at(0).0, "a");
}

#[test]
fn a_copy_is_its_own_value() {
    let mut d = Dict::new();
    d.insert("list".to_string(), Value::List(vec![Value::Bool(true), double(0.5)]));
    let mut copy = d.get("list").unwrap().clone();
    if let Value::List(items) = &mut copy {
        items.push(Value::Null);
    }
    assert_eq!(copy.as_list().unwrap().len(), 3);
    assert_eq!(d.get("list").unwrap().as_list().unwrap().len(), 2);
    let whole = Value::Dict(d).clone();
    assert_eq!(dict_get(&whole, "list").unwrap().as_list().unwrap()[0].as_bool(), Some(true));
}

#[test]
fn values_survive_the_boundary() {
    let api = create_backend_api();
    let mut d = Dict::new();
    d.insert("text".to_string(), Value::String("héllo".to_string()));
    d.insert("n".to_string(), Value::Int(-7));
    d.insert("x".to_string(), double(1.25));
    d.insert("bytes".to_string(), Value::Binary(vec![0, 255]));
    d.insert("none".to_string(), Value::Null);
    let v = Value::List(vec![Value::Dict(d), Value::Bool(true)]);
    assert!(v.is_sendable(&api));
    let raw = v.to_raw(&api).unwrap();
    let back = Value::from_raw(&api, Some(&raw)).unwrap();
    let list = back.as_list().unwrap();
    assert_eq!(list[1].as_bool(), Some(true));
    assert_eq!(dict_get(&list[0], "text").and_then(|v| v.as_string()), Some("héllo"));
    assert_eq!(dict_get(&list[0], "n").and_then(|v| v.as_int()), Some(-7));
    assert!(matches!(dict_get(&list[0], "x"), Some(Value::Double(x)) if x.to_bits() == 1.25f64.to_bits()));
    assert!(matches!(dict_get(&list[0], "bytes"), Some(Value::Binary(b)) if b == &vec![0, 255]));
    assert!(matches!(dict_get(&list[0], "none"), Some(Value::Null)));
    assert!(Value::from_raw(&api, None).is_none());
}

#[test]
fn a_table_without_an_entry_does_without_it() {
    let mut api = create_api_base();
    api.value_string = false;
    api.value_is_int = false;
    assert!(Value::String("x".to_string()).to_raw(&api).is_none());
    let raw = Value::List(vec![Value::String("x".to_string()), Value::Int(4)]).to_raw(&api).unwrap();
    // The text has no value, so the list holds the number alone.
    assert_eq!(value_list_size(Some(&raw)), 1);
    // The number cannot be told for one.
    let back = Value::from_raw(&api, Some(&raw)).unwrap();
    assert!(matches!(back.as_list().unwrap()[0], Value::Null));
}

#[test]
fn a_nul_character_is_not_sendable() {
    let api = create_backend_api();
    assert!(!Value::String("a\0b".to_string()).is_sendable(&api));
    assert!(!Value::List(vec![Value::Int(1), Value::String("\0".to_string())]).is_sendable(&api));
    let mut d = Dict::new();
    d.insert("k\0".to_string(), Value::Null);
    assert!(!Value::Dict(d).is_sendable(&api));
    assert!(Value::Binary(vec![0]).is_sendable(&api));
}

#[test]
fn raw_values_answer_for_their_kind() {
    let n = value_null();
    let b = value_bool(true);
    let i = value_int(5);
    let d = value_double(Float64::one());
    let s = value_string(Some("s".to_string()));
    let bin = value_binary(Some(vec![1, 2]));
    assert!(value_is_null(Some(&n)) && value_is_null(None) && !value_is_null(Some(&b)));
    assert!(value_is_bool(Some(&b)) && value_get_bool(Some(&b)) && !value_get_bool(Some(&i)));
    assert!(value_is_int(Some(&i)) && value_get_int(Some(&i)) == 5 && value_get_int(None) == 0);
    assert!(value_is_double(Some(&d)) && value_get_double(Some(&d)) == Float64::one());
    assert_eq!(value_get_double(Some(&s)), Float64::zero());
    assert!(value_is_string(Some(&s)));
    assert_eq!(value_get_string(Some(&s)), Some(&"s".to_string()));
    assert_eq!(value_get_string(Some(&b)), None);
    assert!(value_is_binary(Some(&bin)));
    assert_eq!(value_get_binary(Some(&bin)), Some(&vec![1, 2]));
    assert!(!value_is_callback(Some(&n)));
    assert_eq!(value_get_callback_id(Some(&i)), 0);
}

#[test]
fn raw_lists_and_dictionaries_are_filled() {
    let mut list = value_list();
    assert!(value_list_append(&mut list, &mut Some(Box::new(value_int(1)))));
    assert!(value_list_append(&mut list, &mut Some(Box::new(value_int(2)))));
    assert!(value_list_set(&mut list, 0, &mut Some(Box::new(value_int(9)))));
    assert!(!value_list_set(&mut list, 2, &mut Some(Box::new(value_int(9)))));
    assert!(!value_list_append(&mut list, &mut None));
    assert!(value_is_list(Some(&list)));
    assert_eq!(value_list_size(Some(&list)), 2);
    assert_eq!(value_get_int(value_list_get(Some(&list), 0)), 9);
    assert!(value_list_get(Some(&list), 2).is_none());

    let mut dict = value_dict();
    assert!(value_dict_set(&mut dict, Some("a".to_string()), &mut Some(Box::new(value_int(1)))));
    assert!(value_dict_set(&mut dict, Some("a".to_string()), &mut Some(Box::new(value_int(2)))));
    assert!(value_dict_set(&mut dict, Some("b".to_string()), &mut Some(Box::new(value_list()))));
    assert!(!value_dict_set(&mut dict, None, &mut Some(Box::new(value_null()))));
    assert!(value_is_dict(Some(&dict)));
    assert_eq!(value_dict_size(Some(&dict)), 2);
    assert_eq!(value_get_int(value_dict_get(Some(&dict), Some("a"))), 2);
    assert!(value_dict_has(Some(&dict), Some("b")) && !value_dict_has(Some(&dict), Some("c")));
    assert!(value_dict_get(Some(&dict), None).is_none());
    assert_eq!(value_dict_keys(Some(&dict)), Some(vec!["a".to_string(), "b".to_string()]));
    assert_eq!(value_dict_keys(Some(&list)), None);
}

#[test]
fn menu_item_to_value_item_minimal() {
    let item = MenuItem::Item {
        label: "Quit".into(),
        id: None,
        accelerator: None,
        enabled: true,
        checked: false,
        icon: None,
        tooltip: None,
    };
    let v = item.to_value();
    assert_eq!(dict_get(&v, "label").and_then(|v| v.as_string()), Some("Quit"));
    assert!(dict_get(&v, "id").is_none());
    assert!(dict_get(&v, "accelerator").is_none());
    assert!(dict_get(&v, "enabled").is_none());
}

#[test]
fn menu_item_to_value_item_full() {
    let item = MenuItem::Item {
        label: "Open…".into(),
        id: Some("file.open".into()),
        accelerator: Some("CmdOrCtrl+O".into()),
        enabled: false,
        checked: true,
        icon: Some(vec![0x89, b'P', b'N', b'G']),
        tooltip: Some("Open a file".into()),
    };
    let v = item.to_value();
    assert_eq!(dict_get(&v, "id").and_then(|v| v.as_string()), Some("file.open"));
    assert_eq!(dict_get(&v, "accelerator").and_then(|v| v.as_string()), Some("CmdOrCtrl+O"));
    assert_eq!(dict_get(&v, "enabled").and_then(|v| v.as_bool()), Some(false));
    assert_eq!(dict_get(&v, "checked").and_then(|v| v.as_bool()), Some(true));
    match dict_get(&v, "icon") {
        Some(Value::Binary(b)) => assert_eq!(b, &vec![0x89, b'P', b'N', b'G']),
        _ => panic!("icon must be Value::Binary"),
    }
    assert_eq!(dict_get(&v, "tooltip").and_then(|v| v.as_string()), Some("Open a file"));
}

#[test]
fn menu_item_to_value_submenu_separator_role() {
    let sub = MenuItem::Submenu { label: "File".into(), items: vec![MenuItem::Separator] };
    let v = sub.to_value();
    assert_eq!(dict_get(&v, "label").and_then(|v| v.as_string()), Some("File"));
    let items = dict_get(&v, "submenu").and_then(|v| v.as_list()).unwrap();
    assert_eq!(items.len(), 1);
    assert_eq!(dict_get(&items[0], "type").and_then(|v| v.as_string()), Some("separator"));

    let role = MenuItem::Role { role: "copy".into() };
    let rv = role.to_value();
    assert_eq!(dict_get(&rv, "role").and_then(|v| v.as_string()), Some("copy"));
}

#[test]
fn menu_item_role_does_not_carry_label_or_id() {
    let v = MenuItem::Role { role: "quit".into() }.to_value();
    let dict = v.as_dict().unwrap();
    assert!(dict.get("role").is_some());
    assert!(dict.get("label").is_none());
    assert!(dict.get("id").is_none());
    assert!(dict.get("submenu").is_none());
}

#[test]
fn menu_item_nested_submenus_recursively_serialize() {
    let menu = MenuItem::Submenu {
        label: "File".into(),
        items: vec![MenuItem::Submenu {
            label: "Recent".into(),
            items: vec![MenuItem::Item {
                label: "Open project.toml".into(),
                id: Some("recent.0".into()),
                accelerator: None,
                enabled: true,
                checked: false,
                icon: None,
                tooltip: None,
            }],
        }],
    };
    let v = menu.to_value();
    let outer = v.as_dict().unwrap();
    let outer_items = outer.get("submenu").and_then(|v| v.as_list()).unwrap();
    assert_eq!(outer_items.len(), 1);
    let inner = outer_items[0].as_dict().expect("nested submenu must be dict");
    let inner_items = inner.get("submenu").and_then(|v| v.as_list()).unwrap();
    assert_eq!(inner_items.len(), 1);
    assert_eq!(
        inner_items[0].as_dict().and_then(|d| d.get("id")).and_then(|v| v.as_string()),
        Some("recent.0")
    );
}

/// A menu with one item of each sort, as it arrives at the backend.
fn parsed_menu() -> Vec<ParsedMenuItem> {
    let api = create_backend_api();
    let template = vec![
        MenuItem::Item {
            label: "Open".into(),
            id: Some("open".into()),
            accelerator: Some("CmdOrCtrl+O".into()),
            enabled: true,
            checked: false,
            icon: None,
            tooltip: None,
        },
        MenuItem::Submenu {
            label: "More".into(),
            items: vec![
                MenuItem::Separator,
                MenuItem::Role { role: "COPY".into() },
                MenuItem::Item {
                    label: "Bad keys".into(),
                    id: Some("bad".into()),
                    accelerator: Some("Not+A+Key".into()),
                    enabled: false,
                    checked: false,
                    icon: None,
                    tooltip: None,
                },
            ],
        },
        MenuItem::Role { role: "no such role".into() },
    ];
    let raw = Value::List(template_values(&template)).to_raw(&api).unwrap();
    parse_menu_template(Some(&raw))
}

#[test]
fn a_menu_template_reaches_the_backend() {
    let items = parsed_menu();
    assert_eq!(items.len(), 3);
    match &items[0] {
        ParsedMenuItem::Item { id, label, accelerator, enabled } => {
            assert_eq!((id.as_str(), label.as_str(), *enabled), ("open", "Open", true));
            assert_eq!(accelerator.as_deref(), Some("CmdOrCtrl+O"));
        }
        _ => panic!("an item"),
    }
    match &items[1] {
        ParsedMenuItem::Submenu { label, items } => {
            assert_eq!(label, "More");
            assert!(matches!(items[0], ParsedMenuItem::Separator));
            assert!(matches!(&items[1], ParsedMenuItem::Role { role } if role == "COPY"));
            assert!(matches!(&items[2], ParsedMenuItem::Item { enabled: false, .. }));
        }
        _ => panic!("a submenu"),
    }
    assert!(parse_menu_template(None).is_empty());
    assert!(parse_menu_template(Some(&value_int(3))).is_empty());
}

#[test]
fn menus_are_built_for_the_platform() {
    let nodes = build_muda_menu(&parsed_menu(), Platform::Linux);
    // A role that nobody knows has no item.
    assert_eq!(nodes.len(), 2);
    match &nodes[0] {
        MenuNode::Item { id, accelerator, .. } => {
            assert_eq!(id, "open");
            assert_eq!(accelerator.as_deref(), Some("CmdOrCtrl+O"));
        }
        _ => panic!("an item"),
    }
    match &nodes[1] {
        MenuNode::Submenu { children, .. } => {
            assert!(matches!(children[0], MenuNode::Predefined(PredefinedItem::Separator)));
            // Roles are told whatever case they are written in.
            assert!(matches!(children[1], MenuNode::Predefined(PredefinedItem::Copy)));
            // Keys that make no accelerator are left out.
            assert!(
                matches!(&children[2], MenuNode::Item { accelerator: None, enabled: false, .. })
            );
        }
        _ => panic!("a submenu"),
    }
    assert_eq!(build_muda_context_menu(&parsed_menu(), Platform::Linux).len(), 2);
    assert_eq!(predefined_menu_item("SelectAll", Platform::MacOs), Some(PredefinedItem::SelectAll));
    assert_eq!(predefined_menu_item("ToggleFullScreen", Platform::Linux), Some(PredefinedItem::Fullscreen));
    assert_eq!(predefined_menu_item("hideOthers", Platform::MacOs), Some(PredefinedItem::HideOthers));
    assert_eq!(predefined_menu_item("showAll", Platform::MacOs), Some(PredefinedItem::ShowAll));
    assert_eq!(predefined_menu_item("showAll", Platform::Windows), None);
    assert_eq!(predefined_menu_item("nothing", Platform::MacOs), None);
}

#[test]
fn registered_menu_items_answer_clicks() {
    let mut store = TextMap::new();
    register_menu_callbacks(&mut store, &parsed_menu(), Some(77), 5, 2);
    let info = dispatch_menu_click_by_id(&store, "bad").unwrap();
    assert_eq!((info.callback, info.callback_data, info.window_id), (77, 5, 2));
    assert!(dispatch_menu_click_by_id(&store, "open").is_some());
    assert!(dispatch_menu_click_by_id(&store, "More").is_none());
    let mut silent = TextMap::new();
    register_menu_callbacks(&mut silent, &parsed_menu(), None, 5, 2);
    assert!(dispatch_menu_click_by_id(&silent, "open").is_none());
}

#[test]
fn notification_to_value_title_only() {
    let v = Notification::new("hi".to_string()).to_value();
    assert_eq!(dict_get(&v, "title").and_then(|v| v.as_string()), Some("hi"));
    for k in ["body", "icon", "tag", "silent", "require_interaction", "actions"] {
        assert!(dict_get(&v, k).is_none(), "key {k} should be absent when not set");
    }
}

#[test]
fn notification_to_value_full() {
    let v = Notification::new("t".to_string())
        .body("b".to_string())
        .icon(vec![1u8, 2, 3])
        .tag("g".to_string())
        .silent(true)
        .require_interaction(true)
        .action("ok".to_string(), "OK".to_string())
        .action("dismiss".to_string(), "Dismiss".to_string())
        .to_value();
    assert_eq!(dict_get(&v, "body").and_then(|v| v.as_string()), Some("b"));
    assert_eq!(dict_get(&v, "tag").and_then(|v| v.as_string()), Some("g"));
    assert_eq!(dict_get(&v, "silent").and_then(|v| v.as_bool()), Some(true));
    assert_eq!(dict_get(&v, "require_interaction").and_then(|v| v.as_bool()), Some(true));
    let actions = dict_get(&v, "actions").and_then(|v| v.as_list()).unwrap();
    assert_eq!(actions.len(), 2);
    assert_eq!(dict_get(&actions[0], "id").and_then(|v| v.as_string()), Some("ok"));
    assert_eq!(dict_get(&actions[1], "title").and_then(|v| v.as_string()), Some("Dismiss"));
    match dict_get(&v, "icon") {
        Some(Value::Binary(b)) => assert_eq!(b, &vec![1u8, 2, 3]),
        _ => panic!("icon must be Value::Binary"),
    }
}

#[test]
fn notification_empty_actions_list_is_omitted() {
    let v = Notification::new("t".to_string()).body("b".to_string()).to_value();
    assert!(v.as_dict().unwrap().get("actions").is_none());
}

#[test]
fn notification_partial_options_serialize_only_set_fields() {
    let v = Notification::new("t".to_string()).body("b".to_string()).silent(false).to_value();
    let d = v.as_dict().unwrap();
    assert_eq!(d.get("body").and_then(|v| v.as_string()), Some("b"));
    assert_eq!(d.get("silent").and_then(|v| v.as_bool()), Some(false));
    assert!(d.get("tag").is_none());
    assert!(d.get("require_interaction").is_none());
    assert!(d.get("icon").is_none());
    assert!(d.get("actions").is_none());
}

#[test]
fn notification_handle_id_zero_is_noop_close() {
    let h = NotificationHandle { id: 0 };
    assert_eq!(h.id(), 0);
    // No table was ever installed, and none is needed.
    let mut rt = Runtime::new();
    h.close(&mut rt);
    assert!(rt.calls.is_empty());
}

#[test]
fn notifications_are_shown_and_told_of() {
    let mut rt = Runtime::new();
    let mut api = create_backend_api();
    api.show_notification = true;
    api.close_notification = true;
    init_api(&mut rt, Some(api));
    let asked = Notification::builder("t".to_string()).on_event(&rt);
    match asked {
        Query::Ask(BackendCall::ShowNotification { options, with_callback }) => {
            assert!(with_callback);
            let raw = options.unwrap();
            assert_eq!(
                value_get_string(value_dict_get(Some(&raw), Some("title"))),
                Some(&"t".to_string())
            );
        }
        _ => panic!("the backend is asked"),
    }
    let handle = notification_shown(&mut rt, 8, Some(HandlerId { token: 1 }));
    let (to, event) = notification_event_callback(&mut rt, 8, LAUFEY_NOTIFICATION_SHOWN, None).unwrap();
    assert_eq!(to, HandlerId { token: 1 });
    assert!(matches!(event, NotificationEvent::Shown));
    let (_, event) = notification_event_callback(&mut rt, 8, LAUFEY_NOTIFICATION_CLICKED, None).unwrap();
    assert!(matches!(event, NotificationEvent::Clicked));
    let (_, event) =
        notification_event_callback(&mut rt, 8, LAUFEY_NOTIFICATION_ACTION, Some("ok".to_string()))
            .unwrap();
    assert!(matches!(event, NotificationEvent::Action(id) if id == "ok"));
    assert!(notification_event_callback(&mut rt, 8, 99, None).is_none());
    assert!(notification_event_callback(&mut rt, 9, LAUFEY_NOTIFICATION_SHOWN, None).is_none());
    let (_, event) = notification_event_callback(&mut rt, 8, LAUFEY_NOTIFICATION_CLOSED, None).unwrap();
    assert!(matches!(event, NotificationEvent::Closed));
    // Closed is the last thing the handler hears.
    assert!(notification_event_callback(&mut rt, 8, LAUFEY_NOTIFICATION_CLICKED, None).is_none());
    handle.close(&mut rt);
    assert!(matches!(rt.calls[0], BackendCall::CloseNotification { notification_id: 8 }));
}

#[test]
fn without_notifications_the_handle_has_no_id() {
    let mut rt = Runtime::new();
    init_api(&mut rt, Some(create_api_base()));
    match Notification::new("t".to_string()).show(&rt) {
        Query::Known(h) => assert_eq!(h.id(), 0),
        Query::Ask(_) => panic!("nobody can be asked"),
    }
    notification_shown(&mut rt, 0, Some(HandlerId { token: 1 }));
    assert!(notification_event_callback(&mut rt, 0, LAUFEY_NOTIFICATION_CLICKED, None).is_none());
}
