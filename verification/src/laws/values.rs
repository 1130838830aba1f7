//! Values and the table: what crosses the boundary is what was meant.

use crate::api::{create_api_base, create_backend_api, fill_common_api, LaufeyBackendApi};
use crate::convert;
use crate::float::Float64;
use crate::raw_value;
use crate::raw_value::{
    value_binary, value_bool, value_dict, value_dict_get, value_dict_has, 
    value_dict_set, value_dict_size, value_double, value_get_binary, value_get_bool,
    value_get_double, value_get_int, value_get_string, value_int, value_is_binary, value_is_bool,
    value_is_dict, value_is_double, value_is_int, value_is_list, value_is_null, value_is_string,
    value_list, value_list_append, value_list_get, value_list_set, value_list_size, value_null,
    value_string, LaufeyValue,
};
use crate::runtime::{init_api, Runtime};
use crate::value;
use crate::text_map::TextMap;
use crate::value::{Dict, Value, ValueView};
use vstd::prelude::*;

verus! {

/// The table that every backend starts from has the operations on values and the
/// entries for calls of page scripts, and nothing that needs windows.
pub proof fn every_table_has_the_value_operations(api: LaufeyBackendApi)
    requires
        call_ensures(create_api_base, (), api),
    ensures
        api.version == 35,
        ({
            &&& api.value_is_null && api.value_is_bool && api.value_is_int
            &&& api.value_is_double && api.value_is_string && api.value_is_list
            &&& api.value_is_dict && api.value_is_binary && api.value_is_callback
            &&& api.value_get_bool && api.value_get_int && api.value_get_double
            &&& api.value_get_string && api.value_free_string && api.value_list_size
            &&& api.value_list_get && api.value_dict_get && api.value_dict_has
            &&& api.value_dict_size && api.value_dict_keys && api.value_free_keys
            &&& api.value_get_binary && api.value_get_callback_id && api.value_null
            &&& api.value_bool && api.value_int && api.value_double
            &&& api.value_string && api.value_list && api.value_dict
            &&& api.value_binary && api.value_list_append && api.value_list_set
            &&& api.value_dict_set && api.value_free && api.set_js_call_handler
            &&& api.js_call_respond && api.invoke_js_callback && api.release_js_callback
        }),
        ({
            &&& !api.create_window && !api.close_window && !api.create_window_ex
            &&& !api.navigate && !api.set_title && !api.execute_js
            &&& !api.quit && !api.set_window_size && !api.get_window_size
            &&& !api.set_window_position && !api.get_window_position && !api.set_resizable
            &&& !api.is_resizable && !api.set_always_on_top && !api.is_always_on_top
            &&& !api.is_visible && !api.show && !api.hide
            &&& !api.focus && !api.post_ui_task && !api.get_window_handle
            &&& !api.get_display_handle && !api.get_window_handle_type && !api.set_keyboard_event_handler
            &&& !api.set_mouse_click_handler && !api.set_mouse_move_handler && !api.set_wheel_handler
            &&& !api.set_cursor_enter_leave_handler && !api.set_focused_handler && !api.set_resize_handler
            &&& !api.set_move_handler && !api.set_close_requested_handler && !api.set_page_load_handler
            &&& !api.poll_js_calls && !api.set_js_call_notify && !api.set_application_menu
            &&& !api.show_context_menu && !api.open_devtools && !api.set_js_namespace
            &&& !api.show_dialog && !api.string_free && !api.set_dock_badge
            &&& !api.bounce_dock && !api.set_dock_menu && !api.set_dock_visible
            &&& !api.set_dock_reopen_handler && !api.create_tray_icon && !api.destroy_tray_icon
            &&& !api.set_tray_icon && !api.set_tray_tooltip && !api.set_tray_menu
            &&& !api.set_tray_click_handler && !api.set_tray_double_click_handler && !api.set_tray_icon_dark
            &&& !api.get_tray_icon_bounds && !api.show_notification && !api.close_notification
            &&& !api.query_permission && !api.request_permission && !api.read_clipboard_text
            &&& !api.write_clipboard_text && !api.register_scheme_handler && !api.scheme_request_read_body
            &&& !api.scheme_response_begin && !api.scheme_response_write && !api.scheme_response_finish
            &&& !api.set_window_opacity && !api.get_window_opacity && !api.test_click_menu_item
            &&& !api.test_trigger_close_requested && !api.print_to_pdf && !api.set_click_passthrough
            &&& !api.is_click_passthrough && !api.set_click_passthrough_forward && !api.is_click_passthrough_forward
            &&& !api.get_window_scale_factor && !api.get_window_inner_position && !api.set_ime_event_handler
            &&& !api.set_ime_allowed && !api.set_ime_cursor_area
        }),
{
}

/// Filling in the window management adds these entries, and leaves the others of
/// any table as they are.
pub proof fn window_management_is_filled_in(api: &mut LaufeyBackendApi)
    requires
        call_ensures(fill_common_api, (api,), ()),
    ensures
        ({
            &&& final(api).create_window && final(api).create_window_ex && final(api).close_window
            &&& final(api).set_title && final(api).quit && final(api).set_window_size
            &&& final(api).get_window_size && final(api).get_window_scale_factor && final(api).get_window_inner_position
            &&& final(api).set_window_position && final(api).get_window_position && final(api).set_resizable
            &&& final(api).is_resizable && final(api).set_always_on_top && final(api).is_always_on_top
            &&& final(api).set_click_passthrough && final(api).is_click_passthrough && final(api).is_visible
            &&& final(api).show && final(api).hide && final(api).focus
            &&& final(api).post_ui_task && final(api).get_window_handle && final(api).get_display_handle
            &&& final(api).get_window_handle_type && final(api).set_keyboard_event_handler && final(api).set_mouse_click_handler
            &&& final(api).set_mouse_move_handler && final(api).set_wheel_handler && final(api).set_cursor_enter_leave_handler
            &&& final(api).set_focused_handler && final(api).set_resize_handler && final(api).set_move_handler
            &&& final(api).set_close_requested_handler && final(api).show_dialog && final(api).string_free
            &&& final(api).set_application_menu && final(api).show_context_menu && final(api).set_dock_badge
            &&& final(api).bounce_dock && final(api).set_dock_menu && final(api).set_dock_visible
            &&& final(api).set_dock_reopen_handler && final(api).create_tray_icon && final(api).destroy_tray_icon
            &&& final(api).set_tray_icon && final(api).set_tray_tooltip && final(api).set_tray_menu
            &&& final(api).set_tray_click_handler && final(api).set_tray_double_click_handler && final(api).set_tray_icon_dark
            &&& final(api).get_tray_icon_bounds && final(api).show_notification && final(api).close_notification
            &&& final(api).query_permission && final(api).request_permission && final(api).read_clipboard_text
            &&& final(api).write_clipboard_text && final(api).test_click_menu_item && final(api).test_trigger_close_requested
        }),
        ({
            &&& final(api).navigate == old(api).navigate
            &&& final(api).execute_js == old(api).execute_js
            &&& final(api).value_is_null == old(api).value_is_null
            &&& final(api).value_is_bool == old(api).value_is_bool
            &&& final(api).value_is_int == old(api).value_is_int
            &&& final(api).value_is_double == old(api).value_is_double
            &&& final(api).value_is_string == old(api).value_is_string
            &&& final(api).value_is_list == old(api).value_is_list
            &&& final(api).value_is_dict == old(api).value_is_dict
            &&& final(api).value_is_binary == old(api).value_is_binary
            &&& final(api).value_is_callback == old(api).value_is_callback
            &&& final(api).value_get_bool == old(api).value_get_bool
            &&& final(api).value_get_int == old(api).value_get_int
            &&& final(api).value_get_double == old(api).value_get_double
            &&& final(api).value_get_string == old(api).value_get_string
            &&& final(api).value_free_string == old(api).value_free_string
            &&& final(api).value_list_size == old(api).value_list_size
            &&& final(api).value_list_get == old(api).value_list_get
            &&& final(api).value_dict_get == old(api).value_dict_get
            &&& final(api).value_dict_has == old(api).value_dict_has
            &&& final(api).value_dict_size == old(api).value_dict_size
            &&& final(api).value_dict_keys == old(api).value_dict_keys
            &&& final(api).value_free_keys == old(api).value_free_keys
            &&& final(api).value_get_binary == old(api).value_get_binary
            &&& final(api).value_get_callback_id == old(api).value_get_callback_id
            &&& final(api).value_null == old(api).value_null
            &&& final(api).value_bool == old(api).value_bool
            &&& final(api).value_int == old(api).value_int
            &&& final(api).value_double == old(api).value_double
            &&& final(api).value_string == old(api).value_string
            &&& final(api).value_list == old(api).value_list
            &&& final(api).value_dict == old(api).value_dict
            &&& final(api).value_binary == old(api).value_binary
            &&& final(api).value_list_append == old(api).value_list_append
            &&& final(api).value_list_set == old(api).value_list_set
            &&& final(api).value_dict_set == old(api).value_dict_set
            &&& final(api).value_free == old(api).value_free
            &&& final(api).set_js_call_handler == old(api).set_js_call_handler
            &&& final(api).js_call_respond == old(api).js_call_respond
            &&& final(api).invoke_js_callback == old(api).invoke_js_callback
            &&& final(api).release_js_callback == old(api).release_js_callback
            &&& final(api).set_page_load_handler == old(api).set_page_load_handler
            &&& final(api).poll_js_calls == old(api).poll_js_calls
            &&& final(api).set_js_call_notify == old(api).set_js_call_notify
            &&& final(api).open_devtools == old(api).open_devtools
            &&& final(api).set_js_namespace == old(api).set_js_namespace
            &&& final(api).register_scheme_handler == old(api).register_scheme_handler
            &&& final(api).scheme_request_read_body == old(api).scheme_request_read_body
            &&& final(api).scheme_response_begin == old(api).scheme_response_begin
            &&& final(api).scheme_response_write == old(api).scheme_response_write
            &&& final(api).scheme_response_finish == old(api).scheme_response_finish
            &&& final(api).set_window_opacity == old(api).set_window_opacity
            &&& final(api).get_window_opacity == old(api).get_window_opacity
            &&& final(api).print_to_pdf == old(api).print_to_pdf
            &&& final(api).set_click_passthrough_forward == old(api).set_click_passthrough_forward
            &&& final(api).is_click_passthrough_forward == old(api).is_click_passthrough_forward
            &&& final(api).set_ime_event_handler == old(api).set_ime_event_handler
            &&& final(api).set_ime_allowed == old(api).set_ime_allowed
            &&& final(api).set_ime_cursor_area == old(api).set_ime_cursor_area
        }),
        final(api).version == old(api).version,
        final(api).backend_data == old(api).backend_data,
{
}

/// The windowing backend has no web engine: it takes addresses and scripts, and
/// has the operations on values, the window management and the input methods, and
/// no entry beyond those.
pub proof fn the_windowing_table_is_complete(api: LaufeyBackendApi)
    requires
        call_ensures(create_backend_api, (), api),
    ensures
        api.version == 35,
        ({
            &&& api.create_window && api.close_window && api.create_window_ex
            &&& api.navigate && api.set_title && api.execute_js
            &&& api.quit && api.set_window_size && api.get_window_size
            &&& api.set_window_position && api.get_window_position && api.set_resizable
            &&& api.is_resizable && api.set_always_on_top && api.is_always_on_top
            &&& api.is_visible && api.show && api.hide
            &&& api.focus && api.post_ui_task && api.value_is_null
            &&& api.value_is_bool && api.value_is_int && api.value_is_double
            &&& api.value_is_string && api.value_is_list && api.value_is_dict
            &&& api.value_is_binary && api.value_is_callback && api.value_get_bool
            &&& api.value_get_int && api.value_get_double && api.value_get_string
            &&& api.value_free_string && api.value_list_size && api.value_list_get
            &&& api.value_dict_get && api.value_dict_has && api.value_dict_size
            &&& api.value_dict_keys && api.value_free_keys && api.value_get_binary
            &&& api.value_get_callback_id && api.value_null && api.value_bool
            &&& api.value_int && api.value_double && api.value_string
            &&& api.value_list && api.value_dict && api.value_binary
            &&& api.value_list_append && api.value_list_set && api.value_dict_set
            &&& api.value_free && api.set_js_call_handler && api.js_call_respond
            &&& api.invoke_js_callback && api.release_js_callback && api.get_window_handle
            &&& api.get_display_handle && api.get_window_handle_type && api.set_keyboard_event_handler
            &&& api.set_mouse_click_handler && api.set_mouse_move_handler && api.set_wheel_handler
            &&& api.set_cursor_enter_leave_handler && api.set_focused_handler && api.set_resize_handler
            &&& api.set_move_handler && api.set_close_requested_handler && api.set_application_menu
            &&& api.show_context_menu && api.show_dialog && api.string_free
            &&& api.set_dock_badge && api.bounce_dock && api.set_dock_menu
            &&& api.set_dock_visible && api.set_dock_reopen_handler && api.create_tray_icon
            &&& api.destroy_tray_icon && api.set_tray_icon && api.set_tray_tooltip
            &&& api.set_tray_menu && api.set_tray_click_handler && api.set_tray_double_click_handler
            &&& api.set_tray_icon_dark && api.get_tray_icon_bounds && api.show_notification
            &&& api.close_notification && api.query_permission && api.request_permission
            &&& api.read_clipboard_text && api.write_clipboard_text && api.test_click_menu_item
            &&& api.test_trigger_close_requested && api.set_click_passthrough && api.is_click_passthrough
            &&& api.get_window_scale_factor && api.get_window_inner_position && api.set_ime_event_handler
            &&& api.set_ime_allowed && api.set_ime_cursor_area
        }),
        ({
            &&& !api.set_page_load_handler && !api.poll_js_calls && !api.set_js_call_notify
            &&& !api.open_devtools && !api.set_js_namespace && !api.register_scheme_handler
            &&& !api.scheme_request_read_body && !api.scheme_response_begin && !api.scheme_response_write
            &&& !api.scheme_response_finish && !api.set_window_opacity && !api.get_window_opacity
            &&& !api.print_to_pdf && !api.set_click_passthrough_forward && !api.is_click_passthrough_forward
        }),
{
}

/// A runtime takes the first table of its own version, and that one for good. It
/// refuses a table of another version, and no table.
pub proof fn a_runtime_takes_one_table(
    rt: &mut Runtime,
    again: &mut Runtime,
    table: Option<LaufeyBackendApi>,
    second: Option<LaufeyBackendApi>,
    code: i32,
    code2: i32,
)
    requires
        call_ensures(init_api, (rt, table), code),
        *old(again) == *final(rt),
        call_ensures(init_api, (again, second), code2),
        old(rt).api is None,
    ensures
        table matches Some(t) && t.version == 35 ==> code == 0 && final(rt).api == table,
        table matches Some(t) && t.version != 35 ==> code == -2 && final(rt).api is None,
        table is None ==> code == -1 && final(rt).api is None,
        final(rt).api is Some ==> final(again).api == final(rt).api,
        final(rt).api is Some && (second matches Some(t) && t.version == 35) ==> code2 == -3,
        final(rt).calls@ == old(rt).calls@,
{
}

/// The values are the same, each of its kind: lists element by element, and
/// dictionaries key by key.
pub open spec fn same_value(a: Value, b: Value) -> bool {
    match a {
        Value::Null => b is Null,
        Value::Bool(x) => b == Value::Bool(x),
        Value::Int(x) => b == Value::Int(x),
        Value::Double(x) => b == Value::Double(x),
        Value::String(x) => b matches Value::String(y) && y@ == x@,
        Value::Binary(x) => b matches Value::Binary(y) && y@ == x@,
        Value::List(x) => b matches Value::List(y) && y@.len() == x@.len() && forall|i: int|
            0 <= i < x@.len() ==> (#[trigger] y@[i])@ == x@[i]@,
        Value::Dict(x) => b matches Value::Dict(y) && forall|key: Seq<char>|
            value::lookup(x@, key) == #[trigger] value::lookup(y@, key),
    }
}

/// A value that is sent through a table with every operation, and read back, is
/// the one that was sent.
pub proof fn values_come_back_as_they_were(
    api: LaufeyBackendApi,
    v: Value,
    raw: Option<Box<LaufeyValue>>,
    r: Option<Value>,
)
    requires
        call_ensures(create_backend_api, (), api) || call_ensures(create_api_base, (), api),
        call_ensures(Value::to_raw, (&v, &api), raw),
        call_ensures(
            Value::from_raw,
            (
                &api,
                match raw {
                    Some(p) => Some(&*p),
                    None => None,
                },
            ),
            r,
        ),
    ensures
        raw is Some,
        r matches Some(w) && same_value(v, w),
{
    convert::value_round_trip(api, v@);
    convert::building_is_exact(api, v@);
    match v {
        Value::List(l) => {
            value::values_view_elements(l@);
            match r {
                Some(Value::List(m)) => {
                    value::values_view_elements(m@);
                    assert(value::values_view(l@) == value::values_view(m@));
                    assert forall|i: int| 0 <= i < l@.len() implies (#[trigger] m@[i])@
                        == l@[i]@ by {
                        assert(value::values_view(l@)[i] == l@[i]@);
                        assert(value::values_view(m@)[i] == m@[i]@);
                    }
                },
                _ => {},
            }
        },
        _ => {},
    }
}

/// What the backend sees of a value that was sent through a table with every
/// operation: its kind and its contents, the elements of a list in their order,
/// and the values of a dictionary under their keys.
pub proof fn sent_values_read_as_meant(
    api: LaufeyBackendApi,
    v: Value,
    raw: Box<LaufeyValue>,
    i: usize,
    key: &str,
    boolean: bool,
    number: i32,
    double: Float64,
    string: Option<&String>,
    binary: Option<&Vec<u8>>,
    size: usize,
    element: Option<&LaufeyValue>,
    entry: Option<&LaufeyValue>,
    kinds: (bool, bool, bool, bool, bool, bool, bool, bool),
)
    requires
        call_ensures(create_backend_api, (), api) || call_ensures(create_api_base, (), api),
        call_ensures(Value::to_raw, (&v, &api), Some(raw)),
        call_ensures(value_is_null, (Some(&*raw),), kinds.0),
        call_ensures(value_is_bool, (Some(&*raw),), kinds.1),
        call_ensures(value_is_int, (Some(&*raw),), kinds.2),
        call_ensures(value_is_double, (Some(&*raw),), kinds.3),
        call_ensures(value_is_string, (Some(&*raw),), kinds.4),
        call_ensures(value_is_list, (Some(&*raw),), kinds.5),
        call_ensures(value_is_dict, (Some(&*raw),), kinds.6),
        call_ensures(value_is_binary, (Some(&*raw),), kinds.7),
        call_ensures(value_get_bool, (Some(&*raw),), boolean),
        call_ensures(value_get_int, (Some(&*raw),), number),
        call_ensures(value_get_double, (Some(&*raw),), double),
        call_ensures(value_get_string, (Some(&*raw),), string),
        call_ensures(value_get_binary, (Some(&*raw),), binary),
        call_ensures(value_list_size, (Some(&*raw),), size),
        call_ensures(value_list_get, (Some(&*raw), i), element),
        call_ensures(value_dict_get, (Some(&*raw), Some(key)), entry),
    ensures
        kinds == (
            v is Null,
            v is Bool,
            v is Int,
            v is Double,
            v is String,
            v is List,
            v is Dict,
            v is Binary,
        ),
        v matches Value::Bool(x) ==> boolean == x,
        v matches Value::Int(x) ==> number == x,
        v matches Value::Double(x) ==> double == x,
        v matches Value::String(x) ==> string is Some && string->0@ == x@,
        v matches Value::Binary(x) ==> binary is Some && binary->0@ == x@,
        v matches Value::List(l) ==> size == l@.len() && (element is Some <==> i < l@.len()) && (i
            < l@.len() ==> element->0@ == l@[i as int]@),
        v matches Value::Dict(d) ==> (match value::lookup(d@, key@) {
            Some(x) => entry is Some && entry->0@ == x,
            None => entry is None,
        }),
{
    convert::building_is_exact(api, v@);
    match v {
        Value::List(l) => {
            value::values_view_elements(l@);
        },
        _ => {},
    }
}

/// What the runtime reads of a value of the backend, through a table with every
/// operation, is of the same kind and has the same contents, element by element
/// and key by key.
pub proof fn received_values_read_as_meant(
    api: LaufeyBackendApi,
    raw: &LaufeyValue,
    v: Value,
    number: i32,
    boolean: bool,
    double: Float64,
    string: Option<&String>,
    binary: Option<&Vec<u8>>,
    is_null: bool,
    is_int: bool,
    is_bool: bool,
    is_double: bool,
    size: usize,
    i: usize,
    element: Option<&LaufeyValue>,
    read: Option<Value>,
    key: &str,
    entry: Option<&LaufeyValue>,
    read_entry: Option<Value>,
)
    requires
        call_ensures(create_backend_api, (), api) || call_ensures(create_api_base, (), api),
        call_ensures(Value::from_raw, (&api, Some(raw)), Some(v)),
        call_ensures(value_is_null, (Some(raw),), is_null),
        call_ensures(value_is_int, (Some(raw),), is_int),
        call_ensures(value_is_bool, (Some(raw),), is_bool),
        call_ensures(value_is_double, (Some(raw),), is_double),
        call_ensures(value_get_bool, (Some(raw),), boolean),
        call_ensures(value_get_int, (Some(raw),), number),
        call_ensures(value_get_double, (Some(raw),), double),
        call_ensures(value_get_string, (Some(raw),), string),
        call_ensures(value_get_binary, (Some(raw),), binary),
        call_ensures(value_list_size, (Some(raw),), size),
        call_ensures(value_list_get, (Some(raw), i), element),
        call_ensures(Value::from_raw, (&api, element), read),
        call_ensures(value_dict_get, (Some(raw), Some(key)), entry),
        call_ensures(Value::from_raw, (&api, entry), read_entry),
    ensures
        is_null == (v is Null),
        is_int ==> v == Value::Int(number),
        is_bool ==> v == Value::Bool(boolean),
        is_double ==> v == Value::Double(double),
        string matches Some(s) ==> v is String && v->String_0@ == s@,
        binary matches Some(b) ==> v is Binary && v->Binary_0@ == b@,
        v matches Value::List(l) ==> size == l@.len() && (i < size ==> read is Some && read->0@
            == l@[i as int]@),
        v matches Value::Dict(d) ==> match read_entry {
            Some(x) => value::lookup(d@, key@) == Some(x@),
            None => value::lookup(d@, key@) is None,
        },
{
    convert::reading_is_exact(api, raw@);
    match element {
        Some(e) => {
            convert::reading_is_exact(api, e@);
        },
        None => {},
    }
    match entry {
        Some(e) => {
            convert::reading_is_exact(api, e@);
        },
        None => {},
    }
    match v {
        Value::List(l) => {
            value::values_view_elements(l@);
        },
        _ => {},
    }
}

/// What the table cannot test for reads as null, and contents that it cannot
/// fetch read as false, zero or empty.
pub proof fn partial_tables_read_less(
    api: LaufeyBackendApi,
    raw: LaufeyValue,
    r: Value,
    b: bool,
    i: i32,
    d: Float64,
    s: String,
    bytes: Vec<u8>,
)
    requires
        call_ensures(Value::from_raw, (&api, Some(&raw)), Some(r)),
    ensures
        call_ensures(value_null, (), raw) ==> r is Null,
        call_ensures(value_bool, (b,), raw) ==> {
            &&& !api.value_is_bool ==> r is Null
            &&& api.value_is_bool && api.value_get_bool ==> r == Value::Bool(b)
            &&& api.value_is_bool && !api.value_get_bool ==> r == Value::Bool(false)
        },
        call_ensures(value_int, (i,), raw) ==> {
            &&& !api.value_is_int ==> r is Null
            &&& api.value_is_int && api.value_get_int ==> r == Value::Int(i)
            &&& api.value_is_int && !api.value_get_int ==> r == Value::Int(0)
        },
        call_ensures(value_double, (d,), raw) ==> {
            &&& !api.value_is_double ==> r is Null
            &&& api.value_is_double && api.value_get_double ==> r == Value::Double(d)
            &&& api.value_is_double && !api.value_get_double ==> r == Value::Double(
                Float64 { bits: 0 },
            )
        },
        call_ensures(value_string, (Some(s),), raw) ==> {
            &&& !api.value_is_string ==> r is Null
            &&& api.value_is_string ==> r is String
            &&& api.value_is_string && api.value_get_string ==> r->String_0@ == s@
            &&& api.value_is_string && !api.value_get_string ==> r->String_0@.len() == 0
        },
        call_ensures(value_binary, (Some(bytes),), raw) ==> {
            &&& !api.value_is_binary ==> r is Null
            &&& api.value_is_binary ==> r is Binary
            &&& api.value_is_binary && api.value_get_binary ==> r->Binary_0@ == bytes@
            &&& api.value_is_binary && !api.value_get_binary ==> r->Binary_0@.len() == 0
        },
        call_ensures(value_list, (), raw) ==> {
            &&& !api.value_is_list ==> r is Null
            &&& api.value_is_list ==> r is List && r->List_0@.len() == 0
        },
        call_ensures(value_dict, (), raw) ==> {
            &&& !api.value_is_dict ==> r is Null
            &&& api.value_is_dict ==> r is Dict && r->Dict_0@.len() == 0
        },
{
    match r {
        Value::List(l) => {
            value::values_view_elements(l@);
        },
        _ => {},
    }
}

/// A value can be sent exactly where the table can make one of its kind.
pub proof fn values_are_sent_where_they_can_be_made(
    api: LaufeyBackendApi,
    v: Value,
    raw: Option<Box<LaufeyValue>>,
)
    requires
        call_ensures(Value::to_raw, (&v, &api), raw),
    ensures
        v is Null ==> raw is Some == api.value_null,
        v is Bool ==> raw is Some == api.value_bool,
        v is Int ==> raw is Some == api.value_int,
        v is Double ==> raw is Some == api.value_double,
        v is String ==> raw is Some == api.value_string,
        v is List ==> raw is Some == api.value_list,
        v is Dict ==> raw is Some == api.value_dict,
        v is Binary ==> raw is Some == api.value_binary,
{
}

/// A backend value that was made is of its kind and has the contents that it was
/// made with; no text and no bytes make an empty one.
pub proof fn made_values_have_their_contents(
    raw: LaufeyValue,
    b: bool,
    i: i32,
    d: Float64,
    s: Option<String>,
    bytes: Option<Vec<u8>>,
    boolean: bool,
    number: i32,
    double: Float64,
    string: Option<&String>,
    binary: Option<&Vec<u8>>,
    is_null: bool,
    size: usize,
    entries: usize,
)
    requires
        call_ensures(value_get_bool, (Some(&raw),), boolean),
        call_ensures(value_get_int, (Some(&raw),), number),
        call_ensures(value_get_double, (Some(&raw),), double),
        call_ensures(value_get_string, (Some(&raw),), string),
        call_ensures(value_get_binary, (Some(&raw),), binary),
        call_ensures(value_is_null, (Some(&raw),), is_null),
        call_ensures(value_list_size, (Some(&raw),), size),
        call_ensures(value_dict_size, (Some(&raw),), entries),
    ensures
        call_ensures(value_null, (), raw) ==> is_null && !boolean && number == 0 && double.bits == 0
            && string is None && binary is None && size == 0 && entries == 0,
        call_ensures(value_bool, (b,), raw) ==> boolean == b && !is_null && number == 0,
        call_ensures(value_int, (i,), raw) ==> number == i && !is_null && !boolean,
        call_ensures(value_double, (d,), raw) ==> double == d && !is_null && number == 0,
        call_ensures(value_string, (s,), raw) ==> string is Some && !is_null,
        call_ensures(value_string, (s,), raw) && s is Some ==> string->0@ == s->0@,
        call_ensures(value_string, (s,), raw) && s is None ==> string->0@.len() == 0,
        call_ensures(value_binary, (bytes,), raw) ==> binary is Some && !is_null,
        call_ensures(value_binary, (bytes,), raw) && bytes is Some ==> binary->0@ == bytes->0@,
        call_ensures(value_binary, (bytes,), raw) && bytes is None ==> binary->0@.len() == 0,
        call_ensures(value_list, (), raw) ==> size == 0 && !is_null,
        call_ensures(value_dict, (), raw) ==> entries == 0 && !is_null,
{
}

/// A value that is appended to a list is its last element, and one that is set at
/// an index is the element there; the others stay where they were.
pub proof fn lists_keep_their_order(
    list: &mut LaufeyValue,
    val: &mut Option<Box<LaufeyValue>>,
    idx: usize,
    i: usize,
    r: bool,
    size: usize,
    before: Option<&LaufeyValue>,
    after: Option<&LaufeyValue>,
    new_size: usize,
)
    requires
        call_ensures(value_list_size, (Some(&*old(list)),), size),
        call_ensures(value_list_size, (Some(&*final(list)),), new_size),
        call_ensures(value_list_get, (Some(&*old(list)), i), before),
        call_ensures(value_list_get, (Some(&*final(list)), i), after),
        old(list)@ is List,
        *old(val) is Some,
    ensures
        call_ensures(value_list_append, (list, val), r) ==> {
            &&& r && new_size == size + 1
            &&& i < size ==> after is Some && after->0@ == before->0@
            &&& i == size ==> after is Some && after->0@ == (*old(val))->0@
            &&& i > size ==> after is None
        },
        call_ensures(value_list_set, (list, idx, val), r) ==> {
            &&& r == (idx < size) && new_size == size
            &&& i < size && i != idx ==> after is Some && after->0@ == before->0@
            &&& i < size && i == idx ==> after is Some && after->0@ == (*old(val))->0@
        },
{
}

/// What is stored under a key of a dictionary is found under it, in a backend's
/// dictionary and in an embedder's; what other keys hold stays.
pub proof fn dictionaries_find_what_was_stored(
    raw: &mut LaufeyValue,
    dict: &mut Dict,
    name: String,
    stored: &mut Option<Box<LaufeyValue>>,
    v: Value,
    key: &str,
    r: bool,
    before: Option<&LaufeyValue>,
    after: Option<&LaufeyValue>,
    has: bool,
    found_before: Option<&Value>,
    found: Option<&Value>,
    contains: bool,
    length: usize,
)
    requires
        old(raw)@ is Dict,
        raw_value::c_clean(old(raw)@),
        *old(stored) is Some,
        call_ensures(value_dict_set, (raw, Some(name), stored), r),
        call_ensures(value_dict_get, (Some(&*old(raw)), Some(key)), before),
        call_ensures(value_dict_get, (Some(&*final(raw)), Some(key)), after),
        call_ensures(value_dict_has, (Some(&*final(raw)), Some(key)), has),
        call_ensures(Dict::len, (&*old(dict),), length),
        call_ensures(Dict::insert, (dict, name, v), ()),
        call_ensures(Dict::get, (&*old(dict), key), found_before),
        call_ensures(Dict::get, (&*final(dict), key), found),
        call_ensures(Dict::contains_key, (&*final(dict), key), contains),
    ensures
        r,
        key@ == name@ ==> after is Some && after->0@ == (*old(stored))->0@ && has,
        key@ != name@ ==> after is Some == before is Some,
        key@ != name@ && before is Some ==> after->0@ == before->0@,
        key@ == name@ ==> found is Some && found->0@ == v@ && contains,
        key@ != name@ ==> found is Some == found_before is Some,
        key@ != name@ && found_before is Some ==> found->0@ == found_before->0@,
{
    let e = old(raw)@->Dict_0;
    value::set_then_get(e, name@, (*old(stored))->0@, key@);
    value::set_then_get(old(dict)@, name@, v@, key@);
    if key@ == name@ {
        assert(value::has_key(final(raw)@->Dict_0, key@)) by {
            if !value::has_key(final(raw)@->Dict_0, key@) {
                value::lookup_misses(final(raw)@->Dict_0, key@);
            }
        }
        assert(value::has_key(final(dict)@, key@)) by {
            if !value::has_key(final(dict)@, key@) {
                value::lookup_misses(final(dict)@, key@);
            }
        }
    }
}

/// An embedder reads of a value what it was made of, and only as its own kind.
pub proof fn values_are_read_as_their_kind(
    v: Value,
    text: Option<&str>,
    number: Option<i32>,
    boolean: Option<bool>,
    list: Option<&Vec<Value>>,
    dict: Option<&Dict>,
)
    requires
        call_ensures(Value::as_string, (&v,), text),
        call_ensures(Value::as_int, (&v,), number),
        call_ensures(Value::as_bool, (&v,), boolean),
        call_ensures(Value::as_list, (&v,), list),
        call_ensures(Value::as_dict, (&v,), dict),
    ensures
        (text is Some) == (v is String) && (v is String ==> text->0@ == v->String_0@),
        number == (match v {
            Value::Int(i) => Some(i),
            _ => None,
        }),
        boolean == (match v {
            Value::Bool(b) => Some(b),
            _ => None,
        }),
        (list is Some) == (v is List),
        v matches Value::List(l) ==> list->0@.len() == l@.len() && forall|i: int|
            0 <= i < l@.len() ==> (#[trigger] list->0@[i])@ == l@[i]@,
        (dict is Some) == (v is Dict) && (v matches Value::Dict(d) ==> dict->0@ == d@),
{
    match (v, list) {
        (Value::List(l), Some(m)) => {
            value::values_view_elements(l@);
            value::values_view_elements(m@);
            assert(value::values_view(l@) == value::values_view(m@));
            assert forall|i: int| 0 <= i < l@.len() implies (#[trigger] m@[i])@ == l@[i]@ by {
                assert(value::values_view(l@)[i] == l@[i]@);
                assert(value::values_view(m@)[i] == m@[i]@);
            }
        },
        _ => {},
    }
}

proof fn read_elements(t: LaufeyBackendApi, l: Seq<ValueView>)
    ensures
        convert::decoded_list(t, l).len() == l.len(),
        forall|i: int|
            0 <= i < l.len() ==> #[trigger] convert::decoded_list(t, l)[i] == convert::decoded(
                t,
                l[i],
            ),
    decreases l.len(),
{
    if l.len() > 0 {
        read_elements(t, l.drop_last());
    }
}

/// Through any table that tells lists, a list is read element by element, each as
/// it would be read by itself; a table that cannot count them or fetch them reads
/// none.
pub proof fn lists_are_read_element_by_element(
    api: LaufeyBackendApi,
    raw: &LaufeyValue,
    is_list: bool,
    size: usize,
    i: usize,
    element: Option<&LaufeyValue>,
    alone: Option<Value>,
    r: Value,
)
    requires
        call_ensures(Value::from_raw, (&api, Some(raw)), Some(r)),
        call_ensures(value_is_list, (Some(raw),), is_list),
        call_ensures(value_list_size, (Some(raw),), size),
        call_ensures(value_list_get, (Some(raw), i), element),
        call_ensures(Value::from_raw, (&api, element), alone),
        is_list,
    ensures
        !api.value_is_list ==> r is Null,
        api.value_is_list ==> r is List,
        api.value_is_list && api.value_list_size && api.value_list_get ==> r->List_0@.len() == size
            && (i < size ==> alone is Some && r->List_0@[i as int]@ == alone->0@),
        api.value_is_list && !(api.value_list_size && api.value_list_get) ==> r->List_0@.len() == 0,
{
    let elements = raw@->List_0;
    assert(raw@ == ValueView::List(elements));
    read_elements(api, elements);
    match r {
        Value::List(l) => {
            value::values_view_elements(l@);
            if api.value_list_size && api.value_list_get && i < size {
                assert(value::values_view(l@) == convert::decoded_list(api, elements));
                assert(value::values_view(l@)[i as int] == l@[i as int]@);
                assert(element is Some && element->0@ == elements[i as int]);
            }
        },
        _ => {},
    }
}

proof fn made_elements(t: LaufeyBackendApi, l: Seq<ValueView>)
    requires
        forall|i: int| 0 <= i < l.len() ==> convert::encoded(t, #[trigger] l[i]) is Some,
    ensures
        convert::encoded_list(t, l).len() == l.len(),
        forall|i: int|
            0 <= i < l.len() ==> Some(#[trigger] convert::encoded_list(t, l)[i])
                == convert::encoded(t, l[i]),
    decreases l.len(),
{
    if l.len() > 0 {
        let rest = l.drop_last();
        assert forall|i: int| 0 <= i < rest.len() implies convert::encoded(
            t,
            #[trigger] rest[i],
        ) is Some by {
            assert(rest[i] == l[i]);
        }
        made_elements(t, rest);
        assert(l[l.len() - 1] == l.last());
    }
}

/// Through any table that makes lists and appends to them, a list whose elements
/// can all be made is made element by element, each as it would be by itself; a
/// table that cannot append makes an empty one.
pub proof fn lists_are_made_element_by_element(
    api: LaufeyBackendApi,
    l: Vec<Value>,
    raw: Box<LaufeyValue>,
    size: usize,
    i: usize,
    element: Option<&LaufeyValue>,
    alone: Option<Box<LaufeyValue>>,
)
    requires
        call_ensures(Value::to_raw, (&Value::List(l), &api), Some(raw)),
        call_ensures(value_list_size, (Some(&*raw),), size),
        call_ensures(value_list_get, (Some(&*raw), i), element),
        i < l@.len(),
        call_ensures(Value::to_raw, (&l@[i as int], &api), alone),
    ensures
        !api.value_list_append ==> size == 0,
        api.value_list_append && (forall|k: int|
            0 <= k < l@.len() ==> convert::encoded(api, (#[trigger] l@[k])@) is Some) ==> {
            &&& size == l@.len()
            &&& element is Some && alone is Some && element->0@ == alone->0@
        },
{
    value::values_view_elements(l@);
    let view = value::values_view(l@);
    if forall|k: int| 0 <= k < l@.len() ==> convert::encoded(api, (#[trigger] l@[k])@) is Some {
        assert forall|k: int| 0 <= k < view.len() implies convert::encoded(
            api,
            #[trigger] view[k],
        ) is Some by {
            assert(view[k] == l@[k]@);
        }
        made_elements(api, view);
    }
}

/// What is stored in a map under a text is found under it, until it is removed;
/// what other texts lead to stays.
pub proof fn text_maps_find_what_was_stored(
    map: &mut TextMap<u32>,
    removing: &mut TextMap<u32>,
    key: String,
    name: &str,
    v: u32,
    any: &str,
    before: Option<&u32>,
    after: Option<&u32>,
    removed: Option<&u32>,
)
    requires
        call_ensures(TextMap::<u32>::insert, (map, key, v), ()),
        name@ == key@,
        *old(removing) == *final(map),
        call_ensures(TextMap::<u32>::remove, (removing, name), ()),
        call_ensures(TextMap::<u32>::get, (&*old(map), any), before),
        call_ensures(TextMap::<u32>::get, (&*final(map), any), after),
        call_ensures(TextMap::<u32>::get, (&*final(removing), any), removed),
    ensures
        any@ == key@ ==> after is Some && *after->0 == v && removed is None,
        any@ != key@ ==> (after is Some) == (before is Some) && (removed is Some) == (before
            is Some),
        any@ != key@ && before is Some ==> *after->0 == *before->0 && *removed->0 == *before->0,
{
}

/// A list with one more element is made as the list without it, with what the
/// element makes after it; an element that cannot be made is left out.
pub proof fn elements_that_cannot_be_made_are_left_out(
    api: LaufeyBackendApi,
    l: Vec<Value>,
    longer: Vec<Value>,
    last: Value,
    raw: Box<LaufeyValue>,
    raw_longer: Box<LaufeyValue>,
    made: Option<Box<LaufeyValue>>,
    size: usize,
    size_longer: usize,
    i: usize,
    element: Option<&LaufeyValue>,
    element_longer: Option<&LaufeyValue>,
)
    requires
        api.value_list_append,
        longer@ == l@.push(last),
        call_ensures(Value::to_raw, (&Value::List(l), &api), Some(raw)),
        call_ensures(Value::to_raw, (&Value::List(longer), &api), Some(raw_longer)),
        call_ensures(Value::to_raw, (&last, &api), made),
        call_ensures(value_list_size, (Some(&*raw),), size),
        call_ensures(value_list_size, (Some(&*raw_longer),), size_longer),
        call_ensures(value_list_get, (Some(&*raw), i), element),
        call_ensures(value_list_get, (Some(&*raw_longer), i), element_longer),
    ensures
        made is Some ==> size_longer == size + 1,
        made is None ==> size_longer == size,
        i < size ==> element is Some && element_longer is Some && element_longer->0@
            == element->0@,
        made is Some && i == size ==> element_longer is Some && element_longer->0@ == made->0@,
{
    assert(longer@.drop_last() =~= l@);
    assert(value::values_view(longer@) == value::values_view(l@).push(last@));
    let (a, b) = (value::values_view(l@), value::values_view(longer@));
    assert(b.drop_last() =~= a);
    assert(b.last() == last@);
}

proof fn read_entry(t: LaufeyBackendApi, e: Seq<(Seq<char>, ValueView)>, key: Seq<char>)
    ensures
        value::lookup(convert::decoded_entries(t, e), key) == (match value::lookup(e, key) {
            Some(v) => Some(convert::decoded(t, v)),
            None => None,
        }),
    decreases e.len(),
{
    if e.len() > 0 {
        read_entry(t, e.drop_last(), key);
        let all = convert::decoded_entries(t, e);
        assert(all.drop_last() =~= convert::decoded_entries(t, e.drop_last()));
    }
}

/// Through any table that tells dictionaries, a dictionary is read key by key, each
/// value as it would be read by itself; a table that cannot list the keys or fetch
/// the values reads none.
pub proof fn dictionaries_are_read_key_by_key(
    api: LaufeyBackendApi,
    raw: &LaufeyValue,
    is_dict: bool,
    key: &str,
    entry: Option<&LaufeyValue>,
    alone: Option<Value>,
    r: Value,
)
    requires
        call_ensures(Value::from_raw, (&api, Some(raw)), Some(r)),
        call_ensures(value_is_dict, (Some(raw),), is_dict),
        call_ensures(value_dict_get, (Some(raw), Some(key)), entry),
        call_ensures(Value::from_raw, (&api, entry), alone),
        is_dict,
    ensures
        !api.value_is_dict ==> r is Null,
        api.value_is_dict ==> r is Dict,
        api.value_is_dict && api.value_dict_keys && api.value_dict_get ==> match alone {
            Some(v) => value::lookup(r->Dict_0@, key@) == Some(v@),
            None => value::lookup(r->Dict_0@, key@) is None,
        },
        api.value_is_dict && !(api.value_dict_keys && api.value_dict_get) ==> r->Dict_0@.len() == 0,
{
    let e = raw@->Dict_0;
    assert(raw@ == ValueView::Dict(e));
    read_entry(api, e, key@);
}

proof fn made_entry(t: LaufeyBackendApi, e: Seq<(Seq<char>, ValueView)>, key: Seq<char>)
    requires
        value::keys_distinct(e),
    ensures
        value::lookup(convert::encoded_entries(t, e), key) == (match value::lookup(e, key) {
            Some(v) => convert::encoded(t, v),
            None => None,
        }),
    decreases e.len(),
{
    if e.len() > 0 {
        let rest = e.drop_last();
        assert forall|a: int, b: int| 0 <= a < b < rest.len() implies (#[trigger] rest[a]).0 != (
        #[trigger] rest[b]).0 by {
            assert(e[a].0 != e[b].0);
        }
        made_entry(t, rest, key);
        let all = convert::encoded_entries(t, e);
        if convert::encoded(t, e.last().1) is Some {
            assert(all.drop_last() =~= convert::encoded_entries(t, rest));
        } else if e.last().0 == key {
            assert(!value::has_key(rest, key)) by {
                if value::has_key(rest, key) {
                    let i = choose|i: int| 0 <= i < rest.len() && (#[trigger] rest[i]).0 == key;
                    assert(e[i].0 != e[e.len() - 1].0);
                }
            }
            value::lookup_misses(rest, key);
        }
    }
}

/// Through any table that makes dictionaries and sets their keys, a dictionary is
/// made key by key, each value as it would be by itself, and without those that
/// cannot be made; a table that cannot set keys makes an empty one.
pub proof fn dictionaries_are_made_key_by_key(
    api: LaufeyBackendApi,
    d: Dict,
    raw: Box<LaufeyValue>,
    key: &str,
    found: Option<&Value>,
    alone: Option<Box<LaufeyValue>>,
    entry: Option<&LaufeyValue>,
    length: usize,
    size: usize,
)
    requires
        call_ensures(Value::to_raw, (&Value::Dict(d), &api), Some(raw)),
        call_ensures(Dict::len, (&d,), length),
        call_ensures(Dict::get, (&d, key), found),
        found matches Some(v) ==> call_ensures(Value::to_raw, (v, &api), alone),
        call_ensures(value_dict_get, (Some(&*raw), Some(key)), entry),
        call_ensures(value_dict_size, (Some(&*raw),), size),
    ensures
        !api.value_dict_set ==> size == 0,
        api.value_dict_set && found is None ==> entry is None,
        api.value_dict_set && found is Some ==> (entry is Some) == (alone is Some) && (alone is Some
            ==> entry->0@ == alone->0@),
{
    made_entry(api, d@, key@);
}

} // verus!
