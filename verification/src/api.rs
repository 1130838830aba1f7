//! The table of backend entry points.

use vstd::prelude::*;

verus! {

/// Version of the table layout. A runtime refuses a table of any other version.
pub const LAUFEY_API_VERSION: u32 = 35;

/// The backend's entry points as the runtime sees them: for each slot, whether
/// the backend has filled it. `backend_data` is the word handed back on every
/// call.
#[derive(Clone, Copy)]
pub struct LaufeyBackendApi {
    pub version: u32,
    pub backend_data: usize,
    pub create_window: bool,
    pub close_window: bool,
    pub create_window_ex: bool,
    pub navigate: bool,
    pub set_title: bool,
    pub execute_js: bool,
    pub quit: bool,
    pub set_window_size: bool,
    pub get_window_size: bool,
    pub set_window_position: bool,
    pub get_window_position: bool,
    pub set_resizable: bool,
    pub is_resizable: bool,
    pub set_always_on_top: bool,
    pub is_always_on_top: bool,
    pub is_visible: bool,
    pub show: bool,
    pub hide: bool,
    pub focus: bool,
    pub post_ui_task: bool,
    pub value_is_null: bool,
    pub value_is_bool: bool,
    pub value_is_int: bool,
    pub value_is_double: bool,
    pub value_is_string: bool,
    pub value_is_list: bool,
    pub value_is_dict: bool,
    pub value_is_binary: bool,
    pub value_is_callback: bool,
    pub value_get_bool: bool,
    pub value_get_int: bool,
    pub value_get_double: bool,
    pub value_get_string: bool,
    pub value_free_string: bool,
    pub value_list_size: bool,
    pub value_list_get: bool,
    pub value_dict_get: bool,
    pub value_dict_has: bool,
    pub value_dict_size: bool,
    pub value_dict_keys: bool,
    pub value_free_keys: bool,
    pub value_get_binary: bool,
    pub value_get_callback_id: bool,
    pub value_null: bool,
    pub value_bool: bool,
    pub value_int: bool,
    pub value_double: bool,
    pub value_string: bool,
    pub value_list: bool,
    pub value_dict: bool,
    pub value_binary: bool,
    pub value_list_append: bool,
    pub value_list_set: bool,
    pub value_dict_set: bool,
    pub value_free: bool,
    pub set_js_call_handler: bool,
    pub js_call_respond: bool,
    pub invoke_js_callback: bool,
    pub release_js_callback: bool,
    pub get_window_handle: bool,
    pub get_display_handle: bool,
    pub get_window_handle_type: bool,
    pub set_keyboard_event_handler: bool,
    pub set_mouse_click_handler: bool,
    pub set_mouse_move_handler: bool,
    pub set_wheel_handler: bool,
    pub set_cursor_enter_leave_handler: bool,
    pub set_focused_handler: bool,
    pub set_resize_handler: bool,
    pub set_move_handler: bool,
    pub set_close_requested_handler: bool,
    pub set_page_load_handler: bool,
    pub poll_js_calls: bool,
    pub set_js_call_notify: bool,
    pub set_application_menu: bool,
    pub show_context_menu: bool,
    pub open_devtools: bool,
    pub set_js_namespace: bool,
    pub show_dialog: bool,
    pub string_free: bool,
    pub set_dock_badge: bool,
    pub bounce_dock: bool,
    pub set_dock_menu: bool,
    pub set_dock_visible: bool,
    pub set_dock_reopen_handler: bool,
    pub create_tray_icon: bool,
    pub destroy_tray_icon: bool,
    pub set_tray_icon: bool,
    pub set_tray_tooltip: bool,
    pub set_tray_menu: bool,
    pub set_tray_click_handler: bool,
    pub set_tray_double_click_handler: bool,
    pub set_tray_icon_dark: bool,
    pub get_tray_icon_bounds: bool,
    pub show_notification: bool,
    pub close_notification: bool,
    pub query_permission: bool,
    pub request_permission: bool,
    pub read_clipboard_text: bool,
    pub write_clipboard_text: bool,
    pub register_scheme_handler: bool,
    pub scheme_request_read_body: bool,
    pub scheme_response_begin: bool,
    pub scheme_response_write: bool,
    pub scheme_response_finish: bool,
    pub set_window_opacity: bool,
    pub get_window_opacity: bool,
    pub test_click_menu_item: bool,
    pub test_trigger_close_requested: bool,
    pub print_to_pdf: bool,
    pub set_click_passthrough: bool,
    pub is_click_passthrough: bool,
    pub set_click_passthrough_forward: bool,
    pub is_click_passthrough_forward: bool,
    pub get_window_scale_factor: bool,
    pub get_window_inner_position: bool,
    pub set_ime_event_handler: bool,
    pub set_ime_allowed: bool,
    pub set_ime_cursor_area: bool,
}

/// A table of the current version with every slot empty.
pub open spec fn empty_table() -> LaufeyBackendApi {
    LaufeyBackendApi {
        version: LAUFEY_API_VERSION,
        backend_data: 0,
        create_window: false,
        close_window: false,
        create_window_ex: false,
        navigate: false,
        set_title: false,
        execute_js: false,
        quit: false,
        set_window_size: false,
        get_window_size: false,
        set_window_position: false,
        get_window_position: false,
        set_resizable: false,
        is_resizable: false,
        set_always_on_top: false,
        is_always_on_top: false,
        is_visible: false,
        show: false,
        hide: false,
        focus: false,
        post_ui_task: false,
        value_is_null: false,
        value_is_bool: false,
        value_is_int: false,
        value_is_double: false,
        value_is_string: false,
        value_is_list: false,
        value_is_dict: false,
        value_is_binary: false,
        value_is_callback: false,
        value_get_bool: false,
        value_get_int: false,
        value_get_double: false,
        value_get_string: false,
        value_free_string: false,
        value_list_size: false,
        value_list_get: false,
        value_dict_get: false,
        value_dict_has: false,
        value_dict_size: false,
        value_dict_keys: false,
        value_free_keys: false,
        value_get_binary: false,
        value_get_callback_id: false,
        value_null: false,
        value_bool: false,
        value_int: false,
        value_double: false,
        value_string: false,
        value_list: false,
        value_dict: false,
        value_binary: false,
        value_list_append: false,
        value_list_set: false,
        value_dict_set: false,
        value_free: false,
        set_js_call_handler: false,
        js_call_respond: false,
        invoke_js_callback: false,
        release_js_callback: false,
        get_window_handle: false,
        get_display_handle: false,
        get_window_handle_type: false,
        set_keyboard_event_handler: false,
        set_mouse_click_handler: false,
        set_mouse_move_handler: false,
        set_wheel_handler: false,
        set_cursor_enter_leave_handler: false,
        set_focused_handler: false,
        set_resize_handler: false,
        set_move_handler: false,
        set_close_requested_handler: false,
        set_page_load_handler: false,
        poll_js_calls: false,
        set_js_call_notify: false,
        set_application_menu: false,
        show_context_menu: false,
        open_devtools: false,
        set_js_namespace: false,
        show_dialog: false,
        string_free: false,
        set_dock_badge: false,
        bounce_dock: false,
        set_dock_menu: false,
        set_dock_visible: false,
        set_dock_reopen_handler: false,
        create_tray_icon: false,
        destroy_tray_icon: false,
        set_tray_icon: false,
        set_tray_tooltip: false,
        set_tray_menu: false,
        set_tray_click_handler: false,
        set_tray_double_click_handler: false,
        set_tray_icon_dark: false,
        get_tray_icon_bounds: false,
        show_notification: false,
        close_notification: false,
        query_permission: false,
        request_permission: false,
        read_clipboard_text: false,
        write_clipboard_text: false,
        register_scheme_handler: false,
        scheme_request_read_body: false,
        scheme_response_begin: false,
        scheme_response_write: false,
        scheme_response_finish: false,
        set_window_opacity: false,
        get_window_opacity: false,
        test_click_menu_item: false,
        test_trigger_close_requested: false,
        print_to_pdf: false,
        set_click_passthrough: false,
        is_click_passthrough: false,
        set_click_passthrough_forward: false,
        is_click_passthrough_forward: false,
        get_window_scale_factor: false,
        get_window_inner_position: false,
        set_ime_event_handler: false,
        set_ime_allowed: false,
        set_ime_cursor_area: false,
    }
}

/// The table with the value operations and the script-call stubs filled, and
/// nothing else.
pub open spec fn base_table() -> LaufeyBackendApi {
    LaufeyBackendApi {
        value_is_null: true,
        value_is_bool: true,
        value_is_int: true,
        value_is_double: true,
        value_is_string: true,
        value_is_list: true,
        value_is_dict: true,
        value_is_binary: true,
        value_is_callback: true,
        value_get_bool: true,
        value_get_int: true,
        value_get_double: true,
        value_get_string: true,
        value_free_string: true,
        value_list_size: true,
        value_list_get: true,
        value_dict_get: true,
        value_dict_has: true,
        value_dict_size: true,
        value_dict_keys: true,
        value_free_keys: true,
        value_get_binary: true,
        value_get_callback_id: true,
        value_null: true,
        value_bool: true,
        value_int: true,
        value_double: true,
        value_string: true,
        value_list: true,
        value_dict: true,
        value_binary: true,
        value_list_append: true,
        value_list_set: true,
        value_dict_set: true,
        value_free: true,
        set_js_call_handler: true,
        js_call_respond: true,
        invoke_js_callback: true,
        release_js_callback: true,
        ..empty_table()
    }
}

/// `api` with the window-management entries filled.
pub open spec fn with_common_entries(api: LaufeyBackendApi) -> LaufeyBackendApi {
    LaufeyBackendApi {
        create_window: true,
        create_window_ex: true,
        close_window: true,
        set_title: true,
        quit: true,
        set_window_size: true,
        get_window_size: true,
        get_window_scale_factor: true,
        get_window_inner_position: true,
        set_window_position: true,
        get_window_position: true,
        set_resizable: true,
        is_resizable: true,
        set_always_on_top: true,
        is_always_on_top: true,
        set_click_passthrough: true,
        is_click_passthrough: true,
        is_visible: true,
        show: true,
        hide: true,
        focus: true,
        post_ui_task: true,
        get_window_handle: true,
        get_display_handle: true,
        get_window_handle_type: true,
        set_keyboard_event_handler: true,
        set_mouse_click_handler: true,
        set_mouse_move_handler: true,
        set_wheel_handler: true,
        set_cursor_enter_leave_handler: true,
        set_focused_handler: true,
        set_resize_handler: true,
        set_move_handler: true,
        set_close_requested_handler: true,
        show_dialog: true,
        string_free: true,
        set_application_menu: true,
        show_context_menu: true,
        set_dock_badge: true,
        bounce_dock: true,
        set_dock_menu: true,
        set_dock_visible: true,
        set_dock_reopen_handler: true,
        create_tray_icon: true,
        destroy_tray_icon: true,
        set_tray_icon: true,
        set_tray_tooltip: true,
        set_tray_menu: true,
        set_tray_click_handler: true,
        set_tray_double_click_handler: true,
        set_tray_icon_dark: true,
        get_tray_icon_bounds: true,
        show_notification: true,
        close_notification: true,
        query_permission: true,
        request_permission: true,
        read_clipboard_text: true,
        write_clipboard_text: true,
        test_click_menu_item: true,
        test_trigger_close_requested: true,
        ..api
    }
}

/// The table of a backend that draws windows but has no web engine: navigation
/// and script execution are accepted and do nothing.
pub open spec fn windowing_table() -> LaufeyBackendApi {
    LaufeyBackendApi {
        navigate: true,
        execute_js: true,
        set_ime_event_handler: true,
        set_ime_allowed: true,
        set_ime_cursor_area: true,
        ..with_common_entries(base_table())
    }
}

impl LaufeyBackendApi {
    /// Every operation that reading a backend value uses is there.
    pub open spec fn reads_values(self) -> bool {
        &&& self.value_is_null && self.value_is_bool && self.value_is_int
        &&& self.value_is_double && self.value_is_string && self.value_is_list
        &&& self.value_is_dict && self.value_is_binary
        &&& self.value_get_bool && self.value_get_int && self.value_get_double
        &&& self.value_get_string && self.value_list_size && self.value_list_get
        &&& self.value_dict_keys && self.value_dict_get && self.value_get_binary
    }

    /// Every operation that building a backend value uses is there.
    pub open spec fn builds_values(self) -> bool {
        &&& self.value_null && self.value_bool && self.value_int
        &&& self.value_double && self.value_string && self.value_list
        &&& self.value_dict && self.value_binary
        &&& self.value_list_append && self.value_dict_set
    }
}

/// The table's starting point: the value operations and the script-call stubs
/// are filled, and the backend's own entries are left for the caller.
pub fn create_api_base() -> (r: LaufeyBackendApi)
    ensures
        r == base_table(),
{
    LaufeyBackendApi {
        version: LAUFEY_API_VERSION,
        backend_data: 0,
        create_window: false,
        close_window: false,
        create_window_ex: false,
        navigate: false,
        set_title: false,
        execute_js: false,
        quit: false,
        set_window_size: false,
        get_window_size: false,
        set_window_position: false,
        get_window_position: false,
        set_resizable: false,
        is_resizable: false,
        set_always_on_top: false,
        is_always_on_top: false,
        is_visible: false,
        show: false,
        hide: false,
        focus: false,
        post_ui_task: false,
        value_is_null: true,
        value_is_bool: true,
        value_is_int: true,
        value_is_double: true,
        value_is_string: true,
        value_is_list: true,
        value_is_dict: true,
        value_is_binary: true,
        value_is_callback: true,
        value_get_bool: true,
        value_get_int: true,
        value_get_double: true,
        value_get_string: true,
        value_free_string: true,
        value_list_size: true,
        value_list_get: true,
        value_dict_get: true,
        value_dict_has: true,
        value_dict_size: true,
        value_dict_keys: true,
        value_free_keys: true,
        value_get_binary: true,
        value_get_callback_id: true,
        value_null: true,
        value_bool: true,
        value_int: true,
        value_double: true,
        value_string: true,
        value_list: true,
        value_dict: true,
        value_binary: true,
        value_list_append: true,
        value_list_set: true,
        value_dict_set: true,
        value_free: true,
        set_js_call_handler: true,
        js_call_respond: true,
        invoke_js_callback: true,
        release_js_callback: true,
        get_window_handle: false,
        get_display_handle: false,
        get_window_handle_type: false,
        set_keyboard_event_handler: false,
        set_mouse_click_handler: false,
        set_mouse_move_handler: false,
        set_wheel_handler: false,
        set_cursor_enter_leave_handler: false,
        set_focused_handler: false,
        set_resize_handler: false,
        set_move_handler: false,
        set_close_requested_handler: false,
        set_page_load_handler: false,
        poll_js_calls: false,
        set_js_call_notify: false,
        set_application_menu: false,
        show_context_menu: false,
        open_devtools: false,
        set_js_namespace: false,
        show_dialog: false,
        string_free: false,
        set_dock_badge: false,
        bounce_dock: false,
        set_dock_menu: false,
        set_dock_visible: false,
        set_dock_reopen_handler: false,
        create_tray_icon: false,
        destroy_tray_icon: false,
        set_tray_icon: false,
        set_tray_tooltip: false,
        set_tray_menu: false,
        set_tray_click_handler: false,
        set_tray_double_click_handler: false,
        set_tray_icon_dark: false,
        get_tray_icon_bounds: false,
        show_notification: false,
        close_notification: false,
        query_permission: false,
        request_permission: false,
        read_clipboard_text: false,
        write_clipboard_text: false,
        register_scheme_handler: false,
        scheme_request_read_body: false,
        scheme_response_begin: false,
        scheme_response_write: false,
        scheme_response_finish: false,
        set_window_opacity: false,
        get_window_opacity: false,
        test_click_menu_item: false,
        test_trigger_close_requested: false,
        print_to_pdf: false,
        set_click_passthrough: false,
        is_click_passthrough: false,
        set_click_passthrough_forward: false,
        is_click_passthrough_forward: false,
        get_window_scale_factor: false,
        get_window_inner_position: false,
        set_ime_event_handler: false,
        set_ime_allowed: false,
        set_ime_cursor_area: false,
    }
}

/// Fills the window-management entries.
pub fn fill_common_api(api: &mut LaufeyBackendApi)
    ensures
        *final(api) == with_common_entries(*old(api)),
{
    api.create_window = true;
    api.create_window_ex = true;
    api.close_window = true;
    api.set_title = true;
    api.quit = true;
    api.set_window_size = true;
    api.get_window_size = true;
    api.get_window_scale_factor = true;
    api.get_window_inner_position = true;
    api.set_window_position = true;
    api.get_window_position = true;
    api.set_resizable = true;
    api.is_resizable = true;
    api.set_always_on_top = true;
    api.is_always_on_top = true;
    api.set_click_passthrough = true;
    api.is_click_passthrough = true;
    api.is_visible = true;
    api.show = true;
    api.hide = true;
    api.focus = true;
    api.post_ui_task = true;
    api.get_window_handle = true;
    api.get_display_handle = true;
    api.get_window_handle_type = true;
    api.set_keyboard_event_handler = true;
    api.set_mouse_click_handler = true;
    api.set_mouse_move_handler = true;
    api.set_wheel_handler = true;
    api.set_cursor_enter_leave_handler = true;
    api.set_focused_handler = true;
    api.set_resize_handler = true;
    api.set_move_handler = true;
    api.set_close_requested_handler = true;
    api.show_dialog = true;
    api.string_free = true;
    api.set_application_menu = true;
    api.show_context_menu = true;
    api.set_dock_badge = true;
    api.bounce_dock = true;
    api.set_dock_menu = true;
    api.set_dock_visible = true;
    api.set_dock_reopen_handler = true;
    api.create_tray_icon = true;
    api.destroy_tray_icon = true;
    api.set_tray_icon = true;
    api.set_tray_tooltip = true;
    api.set_tray_menu = true;
    api.set_tray_click_handler = true;
    api.set_tray_double_click_handler = true;
    api.set_tray_icon_dark = true;
    api.get_tray_icon_bounds = true;
    api.show_notification = true;
    api.close_notification = true;
    api.query_permission = true;
    api.request_permission = true;
    api.read_clipboard_text = true;
    api.write_clipboard_text = true;
    api.test_click_menu_item = true;
    api.test_trigger_close_requested = true;
}

/// The table that this windowing backend hands to a runtime.
pub fn create_backend_api() -> (r: LaufeyBackendApi)
    ensures
        r == windowing_table(),
        r.reads_values() && r.builds_values(),
{
    let mut api = create_api_base();
    fill_common_api(&mut api);
    api.navigate = true;
    api.execute_js = true;
    api.set_ime_event_handler = true;
    api.set_ime_allowed = true;
    api.set_ime_cursor_area = true;
    api
}

} // verus!
