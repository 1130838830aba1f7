//! Dialogs, the clipboard and other app-wide requests of the embedder.

use crate::native_dialog::{LAUFEY_DIALOG_ALERT, LAUFEY_DIALOG_CONFIRM, LAUFEY_DIALOG_PROMPT};
use crate::runtime::{BackendCall, Query, Runtime};
use crate::text;
use crate::text::is_nul_free;
use vstd::prelude::*;

verus! {

/// The call shows a dialog with the texts. Only a prompt has a place for text.
pub open spec fn is_dialog(
    c: BackendCall,
    window_id: u32,
    dialog_type: i32,
    title: Seq<char>,
    message: Seq<char>,
    default_value: Seq<char>,
) -> bool {
    &&& c matches BackendCall::ShowDialog {
        window_id: id,
        dialog_type: ty,
        title: t,
        message: m,
        default_value: d,
        wants_input,
    }
    &&& id == window_id
    &&& ty == dialog_type
    &&& t@ == title
    &&& m@ == message
    &&& d@ == default_value
    &&& wants_input == (dialog_type == LAUFEY_DIALOG_PROMPT)
}

/// How a dialog is shown: by the backend, which then has the answer; without one
/// that shows dialogs it counts as cancelled. Window 0 stands for the whole
/// application.
pub fn show_dialog_blocking(
    rt: &Runtime,
    window_id: u32,
    dialog_type: i32,
    title: &str,
    message: &str,
    default_value: &str,
) -> (r: Query<(bool, Option<String>)>)
    requires
        rt.ready(),
        rt.table().show_dialog ==> text::nul_free(title@) && text::nul_free(message@)
            && text::nul_free(default_value@),
    ensures
        if rt.table().show_dialog {
            r matches Query::Ask(c) && is_dialog(
                c,
                window_id,
                dialog_type,
                title@,
                message@,
                default_value@,
            )
        } else {
            r == Query::Known((false, None::<String>))
        },
{
    if rt.api().show_dialog {
        Query::Ask(
            BackendCall::ShowDialog {
                window_id,
                dialog_type,
                title: title.to_string(),
                message: message.to_string(),
                default_value: default_value.to_string(),
                wants_input: dialog_type == LAUFEY_DIALOG_PROMPT,
            },
        )
    } else {
        Query::Known((false, None))
    }
}

/// What a backend's answer to a dialog means: confirmed unless the code is zero.
/// There is text only where the dialog was a prompt, for which alone the backend
/// is asked for text, and was confirmed.
pub fn dialog_reply(code: i32, input: Option<String>) -> (r: (bool, Option<String>))
    ensures
        r == (code != 0, if code != 0 {
            input
        } else {
            None
        }),
{
    if code != 0 {
        (true, input)
    } else {
        (false, None)
    }
}

/// What a backend's answer to a confirm dialog means.
pub fn confirm_reply(code: i32) -> (r: bool)
    ensures
        r == (code != 0),
{
    code != 0
}

/// What a backend's answer to a prompt means: the text if it was confirmed, and
/// nothing if it was cancelled, whatever text came with that.
pub fn prompt_reply(code: i32, input: Option<String>) -> (r: Option<String>)
    ensures
        r == (if code != 0 {
            input
        } else {
            None
        }),
{
    let (_, text) = dialog_reply(code, input);
    text
}

/// Shows an alert on behalf of a window.
pub fn alert_for(rt: &mut Runtime, window_id: u32, title: &str, message: &str)
    requires
        old(rt).ready(),
        old(rt).table().show_dialog ==> text::nul_free(title@) && text::nul_free(message@),
    ensures
        if old(rt).table().show_dialog {
            final(rt).called_with(
                *old(rt),
                |c: BackendCall|
                    is_dialog(c, window_id, LAUFEY_DIALOG_ALERT, title@, message@, Seq::empty()),
            )
        } else {
            *final(rt) == *old(rt)
        },
{
    let empty = "";
    proof {
        reveal_strlit("");
        assert(empty@ =~= Seq::<char>::empty());
    }
    match show_dialog_blocking(rt, window_id, LAUFEY_DIALOG_ALERT, title, message, empty) {
        Query::Ask(c) => {
            rt.call(c);
            assert(rt.calls@.drop_last() =~= old(rt).calls@);
        },
        Query::Known(_) => {},
    }
}

/// How a confirm dialog is shown on behalf of a window.
pub fn confirm_for(rt: &Runtime, window_id: u32, title: &str, message: &str) -> (r: Query<bool>)
    requires
        rt.ready(),
        rt.table().show_dialog ==> text::nul_free(title@) && text::nul_free(message@),
    ensures
        if rt.table().show_dialog {
            r matches Query::Ask(c) && is_dialog(
                c,
                window_id,
                LAUFEY_DIALOG_CONFIRM,
                title@,
                message@,
                Seq::empty(),
            )
        } else {
            r == Query::Known(false)
        },
{
    let empty = "";
    proof {
        reveal_strlit("");
        assert(empty@ =~= Seq::<char>::empty());
    }
    match show_dialog_blocking(rt, window_id, LAUFEY_DIALOG_CONFIRM, title, message, empty) {
        Query::Ask(c) => Query::Ask(c),
        Query::Known((confirmed, _)) => Query::Known(confirmed),
    }
}

/// How a prompt is shown on behalf of a window.
pub fn prompt_for(
    rt: &Runtime,
    window_id: u32,
    title: &str,
    message: &str,
    default_value: &str,
) -> (r: Query<Option<String>>)
    requires
        rt.ready(),
        rt.table().show_dialog ==> text::nul_free(title@) && text::nul_free(message@)
            && text::nul_free(default_value@),
    ensures
        if rt.table().show_dialog {
            r matches Query::Ask(c) && is_dialog(
                c,
                window_id,
                LAUFEY_DIALOG_PROMPT,
                title@,
                message@,
                default_value@,
            )
        } else {
            r == Query::Known(None::<String>)
        },
{
    match show_dialog_blocking(
        rt,
        window_id,
        LAUFEY_DIALOG_PROMPT,
        title,
        message,
        default_value,
    ) {
        Query::Ask(c) => Query::Ask(c),
        Query::Known((confirmed, input)) => if confirmed {
            Query::Known(input)
        } else {
            Query::Known(None)
        },
    }
}

/// Show an alert dialog (app-wide, no parent window).
pub fn alert(rt: &mut Runtime, title: &str, message: &str)
    requires
        old(rt).ready(),
        old(rt).table().show_dialog ==> text::nul_free(title@) && text::nul_free(message@),
    ensures
        if old(rt).table().show_dialog {
            final(rt).called_with(
                *old(rt),
                |c: BackendCall|
                    is_dialog(c, 0, LAUFEY_DIALOG_ALERT, title@, message@, Seq::empty()),
            )
        } else {
            *final(rt) == *old(rt)
        },
{
    alert_for(rt, 0, title, message);
}

/// How a confirm dialog is shown (app-wide). See [`confirm_reply`].
pub fn confirm(rt: &Runtime, title: &str, message: &str) -> (r: Query<bool>)
    requires
        rt.ready(),
        rt.table().show_dialog ==> text::nul_free(title@) && text::nul_free(message@),
    ensures
        if rt.table().show_dialog {
            r matches Query::Ask(c) && is_dialog(
                c,
                0,
                LAUFEY_DIALOG_CONFIRM,
                title@,
                message@,
                Seq::empty(),
            )
        } else {
            r == Query::Known(false)
        },
{
    confirm_for(rt, 0, title, message)
}

/// How a prompt is shown (app-wide). See [`prompt_reply`].
pub fn prompt(rt: &Runtime, title: &str, message: &str, default_value: &str) -> (r: Query<
    Option<String>,
>)
    requires
        rt.ready(),
        rt.table().show_dialog ==> text::nul_free(title@) && text::nul_free(message@)
            && text::nul_free(default_value@),
    ensures
        if rt.table().show_dialog {
            r matches Query::Ask(c) && is_dialog(
                c,
                0,
                LAUFEY_DIALOG_PROMPT,
                title@,
                message@,
                default_value@,
            )
        } else {
            r == Query::Known(None::<String>)
        },
{
    prompt_for(rt, 0, title, message, default_value)
}

/// How the clipboard's text is read.
pub fn read_clipboard_text(rt: &Runtime) -> (r: Query<Option<String>>)
    requires
        rt.ready(),
    ensures
        r == (if rt.table().read_clipboard_text {
            Query::Ask(BackendCall::ReadClipboardText)
        } else {
            Query::Known(None::<String>)
        }),
{
    if rt.api().read_clipboard_text {
        Query::Ask(BackendCall::ReadClipboardText)
    } else {
        Query::Known(None)
    }
}

/// Replaces the clipboard's content with a text.
pub fn write_clipboard_text(rt: &mut Runtime, text: &str)
    requires
        old(rt).ready(),
        old(rt).table().write_clipboard_text ==> text::nul_free(text@),
    ensures
        if old(rt).table().write_clipboard_text {
            final(rt).called_with(
                *old(rt),
                |c: BackendCall|
                    c matches BackendCall::WriteClipboardText { text: t } && t@ == text@,
            )
        } else {
            *final(rt) == *old(rt)
        },
{
    if rt.api().write_clipboard_text {
        rt.call(BackendCall::WriteClipboardText { text: text.to_string() });
        assert(rt.calls@.drop_last() =~= old(rt).calls@);
    }
}

/// How a menu or tray item is clicked for a test. An id that cannot cross as a C
/// string is not found.
pub fn test_click_menu_item(rt: &Runtime, item_id: &str) -> (r: Query<bool>)
    requires
        rt.ready(),
    ensures
        if rt.table().test_click_menu_item && text::nul_free(item_id@) {
            r matches Query::Ask(BackendCall::TestClickMenuItem { item_id: id }) && id@ == item_id@
        } else {
            r == Query::Known(false)
        },
{
    if rt.api().test_click_menu_item && is_nul_free(item_id) {
        Query::Ask(BackendCall::TestClickMenuItem { item_id: item_id.to_string() })
    } else {
        Query::Known(false)
    }
}

/// How a close request is made for a test.
pub fn test_trigger_close_requested(rt: &Runtime, window_id: u32) -> (r: Query<bool>)
    requires
        rt.ready(),
    ensures
        r == (if rt.table().test_trigger_close_requested {
            Query::Ask(BackendCall::TestTriggerCloseRequested { window_id })
        } else {
            Query::Known(false)
        }),
{
    if rt.api().test_trigger_close_requested {
        Query::Ask(BackendCall::TestTriggerCloseRequested { window_id })
    } else {
        Query::Known(false)
    }
}

/// Ends the application's event loop.
pub fn quit(rt: &mut Runtime)
    requires
        old(rt).ready(),
    ensures
        final(rt).called(
            *old(rt),
            if old(rt).table().quit {
                Some(BackendCall::Quit)
            } else {
                None
            },
        ),
{
    let present = rt.api().quit;
    rt.call_if(present, BackendCall::Quit);
}

/// Set the name under which page scripts find the bound functions. Must be
/// called before creating any windows.
pub fn set_js_namespace(rt: &mut Runtime, name: &str)
    requires
        old(rt).ready(),
        old(rt).table().set_js_namespace ==> text::nul_free(name@),
    ensures
        if old(rt).table().set_js_namespace {
            final(rt).called_with(
                *old(rt),
                |c: BackendCall| c matches BackendCall::SetJsNamespace { name: n } && n@ == name@,
            )
        } else {
            *final(rt) == *old(rt)
        },
{
    if rt.api().set_js_namespace {
        rt.call(BackendCall::SetJsNamespace { name: name.to_string() });
        assert(rt.calls@.drop_last() =~= old(rt).calls@);
    }
}

} // verus!
