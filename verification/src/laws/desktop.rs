//! Dialogs, the clipboard, native handles and the loading of a runtime.

use crate::clipboard::{
    backend_read_clipboard_text, clipboard_text, read_clipboard_text_native, strip_printed,
    write_clipboard_text_native, PipeCommand,
};
use crate::dialog::{
    alert, alert_for, confirm, confirm_for, confirm_reply, dialog_reply, prompt, prompt_for,
    prompt_reply, read_clipboard_text, set_js_namespace, test_click_menu_item,
    test_trigger_close_requested, write_clipboard_text,
};
use crate::handles::{
    backend_get_display_handle, backend_get_window_handle, backend_get_window_handle_type,
    remove_window_handles, store_window_handles, wait_for_window_handle, NativeDisplay,
    NativeWindow, WindowHandles,
};
use crate::loader;
use crate::loader::{
    find_colocated_runtime, find_runtime_library, load_and_start_runtime, paths_from_args,
    runtime_candidates, runtime_extension, LoadNext, LoadStep,
};
use crate::native_dialog;
use crate::native_dialog::{
    backend_show_dialog, message_confirmed, prompt_answer, prompt_result, quote_double,
    quote_single, show_native_dialog, show_prompt_dialog, CommandLine, NativeDialog, PromptStep,
};
use crate::platform::Platform;
use crate::runtime::{BackendCall, Query, Runtime};
use crate::text;
use crate::text::{is_nul_free, text_eq, to_c_string, trim};
use crate::window::Window;
use vstd::prelude::*;

verus! {

/// The call asks for a dialog with these texts.
pub open spec fn shows(
    c: BackendCall,
    window: u32,
    number: i32,
    heading: Seq<char>,
    body: Seq<char>,
    default: Seq<char>,
    has_input: bool,
) -> bool {
    c matches BackendCall::ShowDialog {
        window_id,
        dialog_type,
        title,
        message,
        default_value,
        wants_input,
    } && window_id == window && dialog_type == number && title@ == heading && message@ == body
        && default_value@ == default && wants_input == has_input
}

/// An alert, a confirm dialog and a prompt reach the backend as numbers 0, 1 and
/// 2, with the title, the message and the default value each in its place, for the
/// window or, as window 0, for the application. Only a prompt hands text back.
/// Where the backend shows no dialogs, none is confirmed.
pub proof fn dialogs_reach_the_backend(
    rt: &mut Runtime,
    w: Window,
    title: &str,
    message: &str,
    default_value: &str,
    confirmed: Query<bool>,
    prompted: Query<Option<String>>,
)
    requires
        old(rt).api is Some,
    ensures
        ({
            let offered = (old(rt).api->0).show_dialog;
            let nothing = Seq::<char>::empty();
            &&& call_ensures(alert, (rt, title, message), ()) && offered ==> {
                &&& *final(rt) == (Runtime { calls: final(rt).calls, ..*old(rt) })
            &&& final(rt).calls@.len() == old(rt).calls@.len() + 1
                &&& final(rt).calls@.drop_last() =~= old(rt).calls@
                &&& shows(final(rt).calls@.last(), 0, 0, title@, message@, nothing, false)
            }
            &&& (call_ensures(alert_for, (rt, w.id, title, message), ()) || call_ensures(
                Window::alert,
                (&w, rt, title, message),
                (),
            )) && offered ==> {
                &&& *final(rt) == (Runtime { calls: final(rt).calls, ..*old(rt) })
            &&& final(rt).calls@.len() == old(rt).calls@.len() + 1
                &&& final(rt).calls@.drop_last() =~= old(rt).calls@
                &&& shows(final(rt).calls@.last(), w.id, 0, title@, message@, nothing, false)
            }
            &&& call_ensures(alert, (rt, title, message), ()) && !offered ==> *final(rt) == *old(rt)
            &&& call_ensures(confirm, (&*old(rt), title, message), confirmed) && offered ==> (confirmed
                matches Query::Ask(c) && shows(c, 0, 1, title@, message@, nothing, false))
            &&& (call_ensures(confirm_for, (&*old(rt), w.id, title, message), confirmed)
                || call_ensures(Window::confirm, (&w, &*old(rt), title, message), confirmed)) && offered
                ==> (confirmed matches Query::Ask(c) && shows(
                c,
                w.id,
                1,
                title@,
                message@,
                nothing,
                false,
            ))
            &&& call_ensures(confirm, (&*old(rt), title, message), confirmed) && !offered ==> confirmed
                == Query::Known(false)
            &&& call_ensures(prompt, (&*old(rt), title, message, default_value), prompted) && offered
                ==> (prompted matches Query::Ask(c) && shows(
                c,
                0,
                2,
                title@,
                message@,
                default_value@,
                true,
            ))
            &&& (call_ensures(
                prompt_for,
                (&*old(rt), w.id, title, message, default_value),
                prompted,
            ) || call_ensures(
                Window::prompt,
                (&w, &*old(rt), title, message, default_value),
                prompted,
            )) && offered ==> (prompted matches Query::Ask(c) && shows(
                c,
                w.id,
                2,
                title@,
                message@,
                default_value@,
                true,
            ))
            &&& call_ensures(prompt, (&*old(rt), title, message, default_value), prompted) && !offered
                ==> prompted == Query::Known(None::<String>)
        }),
{
}

/// What an embedder learns of a dialog is what its user did: confirmed if and only
/// if it was confirmed, and the text that was entered if it is a prompt that was
/// confirmed and the text can cross.
pub proof fn answers_come_back(
    confirmed: bool,
    input: Option<String>,
    wants_input: bool,
    answer: (i32, Option<String>),
    reply: (bool, Option<String>),
    yes: bool,
    entered: Option<String>,
)
    requires
        call_ensures(backend_show_dialog, (confirmed, input, wants_input), answer),
        call_ensures(dialog_reply, answer, reply),
        call_ensures(confirm_reply, (answer.0,), yes),
        call_ensures(prompt_reply, answer, entered),
    ensures
        yes == confirmed && reply.0 == confirmed,
        entered == reply.1,
        confirmed && wants_input && (input matches Some(t) && text::nul_free(t@)) ==> entered
            == input,
        !confirmed || !wants_input || input is None ==> entered is None,
        answer.0 == 0 || answer.0 == 1,
{
}

/// A message with one button is always confirmed, and one that can be cancelled
/// if it was not.
pub proof fn messages_are_confirmed(cancellable: bool, pressed_ok: bool, r: bool)
    requires
        call_ensures(message_confirmed, (cancellable, pressed_ok), r),
    ensures
        !cancellable ==> r,
        cancellable ==> r == pressed_ok,
{
}

/// The dialog that a backend shows is of the kind that the embedder asked for: an
/// alert cannot be cancelled, a confirm dialog can, and a prompt asks with the
/// texts that it was given. A kind that nobody knows is no dialog.
pub proof fn dialogs_are_of_the_kind_asked_for(
    dialog_type: i32,
    platform: Platform,
    title: &str,
    message: &str,
    default_value: &str,
    r: NativeDialog,
)
    requires
        call_ensures(
            show_native_dialog,
            (dialog_type, platform, title, message, default_value),
            r,
        ),
    ensures
        dialog_type == 0 <==> r == (NativeDialog::Message { cancellable: false }),
        dialog_type == 1 <==> r == (NativeDialog::Message { cancellable: true }),
        dialog_type == 2 <==> r is Prompt,
        r matches NativeDialog::Prompt(step) ==> asks_with(
            step,
            platform,
            title@,
            message@,
            default_value@,
        ),
{
    match r {
        NativeDialog::Prompt(PromptStep::Run(c)) => {
            let view = native_dialog::args_view(c.args@);
            assert(view.len() == c.args@.len());
            assert(forall|i: int| 0 <= i < view.len() ==> view[i] == (#[trigger] c.args@[i])@);
        },
        _ => {},
    }
}

/// The step asks for text with the title, the message and the default value each
/// in its place.
pub open spec fn asks_with(
    step: PromptStep,
    platform: Platform,
    title: Seq<char>,
    message: Seq<char>,
    default_value: Seq<char>,
) -> bool {
    match platform {
        Platform::Linux => step matches PromptStep::Run(c) && {
            &&& c.program@ == "zenity"@ && c.args@.len() == 7
            &&& c.args@[0]@ == "--entry"@
            &&& c.args@[1]@ == "--title"@ && c.args@[2]@ == title
            &&& c.args@[3]@ == "--text"@ && c.args@[4]@ == message
            &&& c.args@[5]@ == "--entry-text"@ && c.args@[6]@ == default_value
        },
        Platform::MacOs => step matches PromptStep::Run(c) && {
            &&& c.program@ == "osascript"@ && c.args@.len() == 2 && c.args@[0]@ == "-e"@
        },
        Platform::Windows => step matches PromptStep::Run(c) && {
            &&& c.program@ == "powershell"@ && c.args@.len() == 2 && c.args@[0]@ == "-Command"@
        },
        Platform::Other => step matches PromptStep::Answer { confirmed, input: Some(text) }
            && confirmed && text@ == default_value,
    }
}

/// A prompt on Linux hands each text over as an argument of its own; on macOS and
/// Windows it is a script in which the texts stand quoted, each in its place.
/// Elsewhere the default value is the answer.
pub proof fn prompts_ask_with_their_texts(
    platform: Platform,
    title: &str,
    message: &str,
    default_value: &str,
    step: PromptStep,
    double_title: String,
    double_message: String,
    double_default: String,
    single_title: String,
    single_message: String,
    single_default: String,
)
    requires
        call_ensures(show_prompt_dialog, (platform, title, message, default_value), step),
        call_ensures(quote_double, (title,), double_title),
        call_ensures(quote_double, (message,), double_message),
        call_ensures(quote_double, (default_value,), double_default),
        call_ensures(quote_single, (title,), single_title),
        call_ensures(quote_single, (message,), single_message),
        call_ensures(quote_single, (default_value,), single_default),
    ensures
        asks_with(step, platform, title@, message@, default_value@),
        platform is MacOs ==> (step matches PromptStep::Run(c) && c.args@[1]@
            == "set result to display dialog \""@ + double_message@ + "\" default answer \""@
            + double_default@ + "\" with title \""@ + double_title@
            + "\" buttons {\"Cancel\", \"OK\"} default button \"OK\"\nreturn text returned of result"@),
        platform is Windows ==> (step matches PromptStep::Run(c) && c.args@[1]@
            == "Add-Type -AssemblyName Microsoft.VisualBasic; [Microsoft.VisualBasic.Interaction]::InputBox('"@
            + single_message@ + "', '"@ + single_title@ + "', '"@ + single_default@ + "')"@),
{
    match step {
        PromptStep::Run(c) => {
            let view = native_dialog::args_view(c.args@);
            assert(view.len() == c.args@.len());
            assert(forall|i: int| 0 <= i < view.len() ==> view[i] == (#[trigger] c.args@[i])@);
        },
        _ => {},
    }
}

/// A text that is quoted reads, between the quotes, as the text that it was; a
/// text without quotes and backslashes stays as it is.
pub proof fn quoted_texts_read_as_they_were(s: &str, double: String, single: String)
    requires
        call_ensures(quote_double, (s,), double),
        call_ensures(quote_single, (s,), single),
    ensures
        native_dialog::read_double_quoted(double@) == s@,
        native_dialog::read_single_quoted(single@) == s@,
        forall|i: int|
            0 <= i < double@.len() && double@[i] == '"' ==> i > 0 && #[trigger] double@[i - 1]
                == '\\',
        (forall|i: int| 0 <= i < s@.len() ==> s@[i] != '"' && s@[i] != '\\') ==> double@ == s@,
        (forall|i: int| 0 <= i < s@.len() ==> s@[i] != '\'') ==> single@ == s@,
{
    native_dialog::double_quoting_is_faithful(s@);
    native_dialog::single_quoting_is_faithful(s@);
    quotes_are_escaped(s@);
    plain_stays(s@);
}

proof fn quotes_are_escaped(s: Seq<char>)
    ensures
        forall|i: int|
            0 <= i < native_dialog::double_quoted(s).len() && native_dialog::double_quoted(s)[i]
                == '"' ==> i > 0 && #[trigger] native_dialog::double_quoted(s)[i - 1] == '\\',
    decreases s.len(),
{
    if s.len() > 0 {
        quotes_are_escaped(s.skip(1));
        let head = native_dialog::quoted_char(s[0]);
        let rest = native_dialog::double_quoted(s.skip(1));
        let all = native_dialog::double_quoted(s);
        assert(all == head + rest);
        assert forall|i: int| 0 <= i < all.len() && all[i] == '"' implies i > 0 && #[trigger] all[i
            - 1] == '\\' by {
            if i >= head.len() {
                let j = i - head.len();
                assert(rest[j] == '"');
                assert(rest[j - 1] == '\\');
                assert(all[i - 1] == rest[j - 1]);
            }
        }
    }
}

proof fn plain_stays(s: Seq<char>)
    ensures
        (forall|i: int| 0 <= i < s.len() ==> s[i] != '"' && s[i] != '\\')
            ==> native_dialog::double_quoted(s) == s,
        (forall|i: int| 0 <= i < s.len() ==> s[i] != '\'') ==> native_dialog::single_quoted(s) == s,
    decreases s.len(),
{
    if s.len() > 0 {
        plain_stays(s.skip(1));
        assert(s =~= seq![s[0]] + s.skip(1));
        assert(forall|i: int| 0 <= i < s.skip(1).len() ==> #[trigger] s.skip(1)[i] == s[i + 1]);
    } else {
        assert(native_dialog::double_quoted(s) =~= s);
        assert(native_dialog::single_quoted(s) =~= s);
    }
}

/// The character is white space, by its number.
pub open spec fn blank(c: char) -> bool {
    let u = c as u32;
    ||| u == 0x9 || u == 0xa || u == 0xb || u == 0xc || u == 0xd || u == 0x20 || u == 0x85
    ||| u == 0xa0 || u == 0x1680 || 0x2000 <= u <= 0x200a || u == 0x2028 || u == 0x2029
    ||| u == 0x202f || u == 0x205f || u == 0x3000
}

/// The text is white space.
pub open spec fn is_blank(s: Seq<char>) -> bool {
    forall|i: int| 0 <= i < s.len() ==> blank(#[trigger] s[i])
}

/// The text does not start or end with white space.
pub open spec fn is_tight(s: Seq<char>) -> bool {
    s.len() > 0 ==> !blank(s[0]) && !blank(s.last())
}

proof fn blanks_are_trimmed_after(s: Seq<char>, b: Seq<char>)
    requires
        is_blank(b),
        is_tight(s) && s.len() > 0,
    ensures
        text::trimmed_end(s + b) == s,
    decreases b.len(),
{
    if b.len() > 0 {
        assert((s + b).drop_last() =~= s + b.drop_last());
        assert((s + b).last() == b.last());
        assert(b[b.len() - 1] == b.last());
        assert(text::white_space(b.last()));
        assert forall|i: int| 0 <= i < b.drop_last().len() implies blank(
            #[trigger] b.drop_last()[i],
        ) by {
            assert(b.drop_last()[i] == b[i]);
        }
        blanks_are_trimmed_after(s, b.drop_last());
    } else {
        assert(s + b =~= s);
    }
}

/// The answer to a prompt is what was entered, without the white space that a tool
/// prints around it. A tool that failed was cancelled.
pub proof fn entered_text_is_the_answer(
    platform: Platform,
    output: &str,
    before: Seq<char>,
    entered: Seq<char>,
    after: Seq<char>,
    succeeded: bool,
    trimmed: String,
    r: (bool, Option<String>),
)
    requires
        output@ == before + entered + after,
        is_blank(before) && is_tight(entered) && entered.len() > 0 && is_blank(after),
        call_ensures(trim, (output,), trimmed),
        call_ensures(prompt_answer, (platform, succeeded, output), r),
    ensures
        trimmed@ == entered,
        succeeded ==> r.0 && (r.1 matches Some(t) && t@ == entered),
        !succeeded ==> !r.0 && r.1 is None,
{
    assert(output@ =~= before + (entered + after));
    trimmed_start_of(before, entered, after);
    blanks_are_trimmed_after(entered, after);
}

proof fn trimmed_start_of(before: Seq<char>, entered: Seq<char>, after: Seq<char>)
    requires
        is_blank(before) && is_tight(entered) && entered.len() > 0,
    ensures
        text::trimmed_start(before + (entered + after)) == entered + after,
    decreases before.len(),
{
    let s = entered + after;
    if before.len() > 0 {
        assert((before + s).skip(1) =~= before.skip(1) + s);
        assert(blank(before[0]));
        assert((before + s)[0] == before[0]);
        assert(text::white_space(before[0]));
        assert forall|i: int| 0 <= i < before.skip(1).len() implies blank(
            #[trigger] before.skip(1)[i],
        ) by {
            assert(before.skip(1)[i] == before[i + 1]);
        }
        trimmed_start_of(before.skip(1), entered, after);
    } else {
        assert(before + s =~= s);
        assert(s[0] == entered[0]);
        assert(!text::white_space(s[0]));
    }
}

/// A command runs a program with these arguments.
pub open spec fn is_command(c: CommandLine, program: Seq<char>, args: Seq<Seq<char>>) -> bool {
    &&& c.program@ == program
    &&& c.args@.len() == args.len()
    &&& forall|i: int| 0 <= i < args.len() ==> (#[trigger] c.args@[i])@ == args[i]
}

/// A text is written to the clipboard by the platform's own tools, one after the
/// other until one works, and each is given the text as it is.
pub proof fn texts_are_written_to_the_clipboard(
    platform: Platform,
    text: &str,
    failed: usize,
    r: Option<PipeCommand>,
)
    requires
        call_ensures(write_clipboard_text_native, (platform, text, failed), r),
    ensures
        r matches Some(p) ==> p.input@ == text@,
        platform is MacOs ==> (r is Some <==> failed == 0),
        platform is Windows ==> (r is Some <==> failed == 0),
        platform is Linux ==> (r is Some <==> failed < 2),
        platform is Other ==> r is None,
        platform is MacOs && failed == 0 ==> is_command(r->0.command, "pbcopy"@, seq![]),
        platform is Windows && failed == 0 ==> is_command(r->0.command, "clip"@, seq![]),
        platform is Linux && failed == 0 ==> is_command(r->0.command, "wl-copy"@, seq![]),
        platform is Linux && failed == 1 ==> is_command(
            r->0.command,
            "xclip"@,
            seq!["-selection"@, "clipboard"@],
        ),
{
    match r {
        Some(p) => {
            let view = native_dialog::args_view(p.command.args@);
            assert(view.len() == p.command.args@.len());
            assert(forall|i: int|
                0 <= i < view.len() ==> view[i] == (#[trigger] p.command.args@[i])@);
        },
        None => {},
    }
}

/// The clipboard is read by the platform's own tools, one after the other until
/// one works.
pub proof fn the_clipboard_is_read_by_tools(
    platform: Platform,
    failed: usize,
    r: Option<CommandLine>,
)
    requires
        call_ensures(read_clipboard_text_native, (platform, failed), r),
    ensures
        platform is MacOs ==> (r is Some <==> failed == 0),
        platform is Windows ==> (r is Some <==> failed == 0),
        platform is Linux ==> (r is Some <==> failed < 2),
        platform is Other ==> r is None,
        platform is MacOs && failed == 0 ==> is_command(r->0, "pbpaste"@, seq![]),
        platform is Windows && failed == 0 ==> is_command(
            r->0,
            "powershell"@,
            seq!["-NoProfile"@, "-Command"@, "Get-Clipboard -Raw"@],
        ),
        platform is Linux && failed == 0 ==> is_command(
            r->0,
            "wl-paste"@,
            seq!["--no-newline"@],
        ),
        platform is Linux && failed == 1 ==> is_command(
            r->0,
            "xclip"@,
            seq!["-selection"@, "clipboard"@, "-o"@],
        ),
{
    match r {
        Some(c) => {
            let view = native_dialog::args_view(c.args@);
            assert(view.len() == c.args@.len());
            assert(forall|i: int| 0 <= i < view.len() ==> view[i] == (#[trigger] c.args@[i])@);
        },
        None => {},
    }
}

/// What a tool prints is the clipboard's text; on Windows without the one line end
/// that the tool adds, of either form.
pub proof fn printed_text_is_the_clipboard(
    platform: Platform,
    content: Seq<char>,
    output: String,
    r: String,
)
    requires
        call_ensures(strip_printed, (platform, output), r),
    ensures
        !(platform is Windows) ==> r@ == output@,
        platform is Windows && output@ == content + seq!['\r', '\n'] ==> r@ == content,
        platform is Windows && output@ == content + seq!['\n'] && (content.len() == 0
            || content.last() != '\r') ==> r@ == content,
        platform is Windows && (output@.len() == 0 || output@.last() != '\n') ==> r@ == output@,
{
    if platform is Windows {
        assert((content + seq!['\r', '\n']).take(content.len() as int) =~= content);
        assert((content + seq!['\n']).take(content.len() as int) =~= content);
    }
}

/// The clipboard's text reaches the embedder as it is, where it can cross; and
/// what an embedder writes reaches the backend.
pub proof fn clipboard_text_crosses(
    rt: &mut Runtime,
    text: &str,
    read: Option<String>,
    r: Option<String>,
    asked: Query<Option<String>>,
)
    requires
        call_ensures(backend_read_clipboard_text, (read,), r),
        old(rt).api is Some,
        call_ensures(read_clipboard_text, (&*old(rt),), asked),
    ensures
        read matches Some(t) && text::nul_free(t@) ==> r == read,
        !(read matches Some(t) && text::nul_free(t@)) ==> r is None,
        (old(rt).api->0).read_clipboard_text ==> asked == Query::<Option<String>>::Ask(
            BackendCall::ReadClipboardText,
        ),
        !(old(rt).api->0).read_clipboard_text ==> asked == Query::Known(None::<String>),
        call_ensures(write_clipboard_text, (rt, text), ()) && (old(
            rt,
        ).api->0).write_clipboard_text ==> {
            &&& *final(rt) == (Runtime { calls: final(rt).calls, ..*old(rt) })
            &&& final(rt).calls@.len() == old(rt).calls@.len() + 1
            &&& final(rt).calls@.drop_last() =~= old(rt).calls@
            &&& final(rt).calls@.last() matches BackendCall::WriteClipboardText { text: t } && t@
                == text@
        },
{
}

/// The hooks for tests ask the backend for what they say, and the name under which
/// scripts find the bound functions reaches the backend as it is.
pub proof fn hooks_and_names_reach_the_backend(
    rt: &mut Runtime,
    text: &str,
    window_id: u32,
    clicked: Query<bool>,
    closed: Query<bool>,
)
    requires
        old(rt).api is Some,
        call_ensures(test_click_menu_item, (&*old(rt), text), clicked),
        call_ensures(test_trigger_close_requested, (&*old(rt), window_id), closed),
    ensures
        (old(rt).api->0).test_click_menu_item && text::nul_free(text@) ==> (clicked matches
            Query::Ask(BackendCall::TestClickMenuItem { item_id }) && item_id@ == text@),
        !(old(rt).api->0).test_click_menu_item || !text::nul_free(text@) ==> clicked
            == Query::Known(false),
        (old(rt).api->0).test_trigger_close_requested ==> closed == Query::<bool>::Ask(
            BackendCall::TestTriggerCloseRequested { window_id },
        ),
        !(old(rt).api->0).test_trigger_close_requested ==> closed == Query::Known(false),
        call_ensures(set_js_namespace, (rt, text), ()) && (old(rt).api->0).set_js_namespace ==> {
            &&& *final(rt) == (Runtime { calls: final(rt).calls, ..*old(rt) })
            &&& final(rt).calls@.len() == old(rt).calls@.len() + 1
            &&& final(rt).calls@.drop_last() =~= old(rt).calls@
            &&& final(rt).calls@.last() matches BackendCall::SetJsNamespace { name } && name@
                == text@
        },
{
}

/// The handles that were stored for a window are found for it, with the number of
/// their kind: 1 for AppKit, 2 for Win32, 3 for X11 and 4 for Wayland. Handles of
/// another platform, and those of a window that was let go of, are not found. Other
/// windows keep theirs.
pub proof fn handles_are_found(
    storing: &mut WindowHandles,
    removing: &mut WindowHandles,
    window_id: u32,
    other: u32,
    platform: Platform,
    window: Option<NativeWindow>,
    display: Option<NativeDisplay>,
    address: usize,
    screen: usize,
    handle: usize,
    kind: i32,
    shown_on: usize,
    gone: usize,
    gone_kind: i32,
    gone_display: usize,
    others: (usize, usize, i32),
    others_before: (usize, usize, i32),
)
    requires
        call_ensures(store_window_handles, (storing, window_id, platform, window, display), ()),
        *old(removing) == *final(storing),
        call_ensures(remove_window_handles, (removing, window_id), ()),
        call_ensures(backend_get_window_handle, (&*final(storing), window_id), handle),
        call_ensures(backend_get_window_handle_type, (&*final(storing), window_id), kind),
        call_ensures(backend_get_display_handle, (&*final(storing), window_id), shown_on),
        call_ensures(backend_get_window_handle, (&*final(removing), window_id), gone),
        call_ensures(backend_get_window_handle_type, (&*final(removing), window_id), gone_kind),
        call_ensures(backend_get_display_handle, (&*final(removing), window_id), gone_display),
        other != window_id,
        call_ensures(backend_get_window_handle, (&*old(storing), other), others_before.0),
        call_ensures(backend_get_display_handle, (&*old(storing), other), others_before.1),
        call_ensures(backend_get_window_handle_type, (&*old(storing), other), others_before.2),
        call_ensures(backend_get_window_handle, (&*final(removing), other), others.0),
        call_ensures(backend_get_display_handle, (&*final(removing), other), others.1),
        call_ensures(backend_get_window_handle_type, (&*final(removing), other), others.2),
    ensures
        platform is MacOs && window == Some(NativeWindow::AppKit { ns_view: address }) ==> handle
            == address && kind == 1,
        platform is Windows && window == Some(NativeWindow::Win32 { hwnd: address }) ==> handle
            == address && kind == 2,
        platform is Linux && window == Some(NativeWindow::Xlib { window: address }) ==> handle
            == address && kind == 3,
        platform is Linux && window == Some(NativeWindow::Wayland { surface: address }) ==> handle
            == address && kind == 4,
        window is None || window == Some(NativeWindow::Other) || platform is Other ==> handle == 0
            && kind == 0,
        platform is Linux && (display == Some(NativeDisplay::Xlib { display: Some(screen) })
            || display == Some(NativeDisplay::Wayland { display: screen })) ==> shown_on == screen,
        !(platform is Linux) || display is None || display == Some(NativeDisplay::Other) || display
            == Some(NativeDisplay::Xlib { display: None }) ==> shown_on == 0,
        gone == 0 && gone_kind == 0 && gone_display == 0,
        others == others_before,
{
}

/// A window's handle is waited for until it is stored, for five seconds at most.
pub proof fn handles_are_waited_for(
    storing: &mut WindowHandles,
    window_id: u32,
    platform: Platform,
    window: Option<NativeWindow>,
    display: Option<NativeDisplay>,
    waited: u64,
    after: bool,
    fresh: WindowHandles,
    before: bool,
)
    requires
        call_ensures(store_window_handles, (storing, window_id, platform, window, display), ()),
        call_ensures(wait_for_window_handle, (&*final(storing), window_id, waited), after),
        call_ensures(WindowHandles::new, (), fresh),
        call_ensures(wait_for_window_handle, (&fresh, window_id, waited), before),
    ensures
        !after,
        before == (waited < 5000),
{
}

/// The runtime library that the command line names comes out of its arguments one
/// by one: the argument after `--runtime`, and what follows `--runtime=`; other
/// arguments name none.
pub proof fn arguments_name_the_runtime(
    args: &[String],
    rest: &[String],
    path: Seq<char>,
    r: Vec<String>,
    later: Vec<String>,
)
    requires
        call_ensures(paths_from_args, (args,), r),
        call_ensures(paths_from_args, (rest,), later),
    ensures
        args@.len() == 0 ==> r@.len() == 0,
        args@.len() >= 2 && args@[0]@ == "--runtime"@ && args@[1]@ == path && rest@ == args@.skip(2)
            ==> loader::texts(r@) == seq![path] + loader::texts(later@),
        args@.len() == 1 && args@[0]@ == "--runtime"@ ==> r@.len() == 0,
        args@.len() >= 1 && args@[0]@ == "--runtime="@ + path && rest@ == args@.skip(1)
            ==> loader::texts(r@) == seq![path] + loader::texts(later@),
        args@.len() >= 1 && args@[0]@.len() < 9 && rest@ == args@.skip(1) ==> loader::texts(r@)
            == loader::texts(later@),
        args@.len() >= 1 && args@[0]@.len() >= 9 && args@[0]@.take(9) != "--runtime"@ && rest@
            == args@.skip(1) ==> loader::texts(r@) == loader::texts(later@),
{
    reveal_strlit("--runtime");
    reveal_strlit("--runtime=");
    let all = loader::texts(args@);
    assert(loader::texts(r@).len() == r@.len());
    assert(all.len() == args@.len());
    if args@.len() >= 1 {
        assert(all[0] == args@[0]@);
        assert(all.skip(1) =~= loader::texts(args@.skip(1)));
        assert("--runtime="@.len() == 10 && "--runtime"@.len() == 9);
        assert("--runtime="@.take(9) =~= "--runtime"@);
        if all[0] == "--runtime="@ + path {
            assert(all[0].take(10) =~= "--runtime="@);
            assert(all[0].skip(10) =~= path);
            assert(all[0].len() >= 10);
        }
        if loader::starts_with(all[0], "--runtime="@) {
            assert(all[0].take(9) =~= all[0].take(10).take(9));
        }
        if all[0] == "--runtime"@ {
            assert(all[0].take(9) =~= all[0]);
        }
    }
    if args@.len() >= 2 {
        assert(all[1] == args@[1]@);
        assert(all.skip(2) =~= loader::texts(args@.skip(2)));
    }
}

/// The runtime is looked for where the command line says, then where the
/// environment says, then beside the program, then in the usual places, in this
/// order.
pub proof fn runtimes_are_looked_for_in_order(
    args: &[String],
    env_path: Option<String>,
    colocated: Option<String>,
    candidates: Vec<String>,
    named: Vec<String>,
)
    requires
        call_ensures(runtime_candidates, (args, env_path, colocated), candidates),
        call_ensures(paths_from_args, (args,), named),
    ensures
        ({
            let n = named@.len() as int;
            let e: int = if env_path is Some {
                1
            } else {
                0
            };
            let c: int = if colocated is Some {
                1
            } else {
                0
            };
            &&& candidates@.len() == n + e + c + 6
            &&& forall|i: int| 0 <= i < n ==> (#[trigger] candidates@[i])@ == named@[i]@
            &&& env_path matches Some(p) ==> candidates@[n]@ == p@
            &&& colocated matches Some(p) ==> candidates@[n + e]@ == p@
            &&& candidates@[n + e + c]@ == "./libruntime.dylib"@
            &&& candidates@[n + e + c + 1]@ == "./libruntime.so"@
            &&& candidates@[n + e + c + 2]@ == "./target/debug/libhello.dylib"@
            &&& candidates@[n + e + c + 3]@ == "./target/release/libhello.dylib"@
            &&& candidates@[n + e + c + 4]@ == "./target/debug/libhello.so"@
            &&& candidates@[n + e + c + 5]@ == "./target/release/libhello.so"@
        }),
{
    let all = loader::texts(candidates@);
    let first = loader::texts(named@);
    assert(all.len() == candidates@.len() && first.len() == named@.len());
    assert(forall|i: int| 0 <= i < all.len() ==> all[i] == (#[trigger] candidates@[i])@);
    assert(forall|i: int| 0 <= i < first.len() ==> first[i] == (#[trigger] named@[i])@);
    assert forall|i: int| 0 <= i < named@.len() implies (#[trigger] candidates@[i])@
        == named@[i]@ by {
        assert(all[i] == first[i]);
    }
}

/// Of the places where a runtime is looked for, the one that is taken has one,
/// and none before it has.
pub proof fn the_first_runtime_found_is_taken(
    candidates: &[String],
    present: &[bool],
    found: usize,
    j: int,
)
    requires
        call_ensures(find_runtime_library, (candidates, present), Some(found)),
        0 <= j < present@.len(),
    ensures
        found < present@.len() && present@[found as int],
        present@[j] ==> found <= j,
{
}

/// A library beside the program is a runtime if it exists and is not the program
/// itself; its file is named as the platform names libraries.
pub proof fn a_runtime_beside_the_program(
    candidate: String,
    present: bool,
    is_program: bool,
    r: Option<String>,
    platform: Platform,
    ending: &'static str,
)
    requires
        call_ensures(find_colocated_runtime, (candidate, present, is_program), r),
        call_ensures(runtime_extension, (platform,), ending),
    ensures
        present && !is_program ==> r == Some(candidate),
        !present || is_program ==> r is None,
        platform is Windows ==> ending@ == "dll"@,
        platform is MacOs ==> ending@ == "dylib"@,
        platform is Linux || platform is Other ==> ending@ == "so"@,
{
}

/// A runtime is opened, its two entries are found, it is initialised and then
/// started; each step is taken only if the one before it went well, and a failed
/// start is reported.
pub proof fn a_runtime_is_loaded_step_by_step(step: LoadStep, code: i32, r: LoadNext)
    requires
        call_ensures(load_and_start_runtime, (step, code), r),
    ensures
        step is OpenLibrary && code == 0 ==> r == LoadNext::Continue(LoadStep::FindInit),
        step is FindInit && code == 0 ==> r == LoadNext::Continue(LoadStep::FindStart),
        step is FindStart && code == 0 ==> r == LoadNext::Continue(LoadStep::CallInit),
        step is CallInit && code == 0 ==> r == LoadNext::Continue(LoadStep::CallStart),
        !(step is CallStart) && code != 0 ==> r is Failed,
        step is CallStart && code == 0 ==> r == (LoadNext::Started { report_failure: false }),
        step is CallStart && code != 0 ==> r == (LoadNext::Started { report_failure: true }),
{
}

/// A text crosses as a C string as it is, unless a NUL character would cut it
/// short: then it crosses empty.
pub proof fn texts_cross_whole_or_empty(s: &str, other: &str, free: bool, r: String, same: bool)
    requires
        call_ensures(is_nul_free, (s,), free),
        call_ensures(to_c_string, (s,), r),
        call_ensures(text_eq, (s, other), same),
    ensures
        free <==> forall|i: int| 0 <= i < s@.len() ==> s@[i] != '\0',
        free ==> r@ == s@,
        !free ==> r@.len() == 0,
        same == (s@ == other@),
{
}

proof fn blanks_leave_nothing(s: Seq<char>)
    requires
        is_blank(s),
    ensures
        text::trimmed(s).len() == 0,
    decreases s.len(),
{
    if s.len() > 0 {
        assert(blank(s[0]));
        assert(text::white_space(s[0]));
        assert forall|i: int| 0 <= i < s.skip(1).len() implies blank(#[trigger] s.skip(1)[i]) by {
            assert(s.skip(1)[i] == s[i + 1]);
        }
        blanks_leave_nothing(s.skip(1));
    }
}

/// A tool that printed nothing but white space was given an empty answer; on
/// Windows, where a cancelled prompt prints nothing, it was cancelled.
pub proof fn an_empty_answer_cancels_on_windows(
    platform: Platform,
    output: &str,
    trimmed: String,
    r: (bool, Option<String>),
)
    requires
        is_blank(output@),
        call_ensures(trim, (output,), trimmed),
        call_ensures(prompt_answer, (platform, true, output), r),
    ensures
        trimmed@.len() == 0,
        platform is Windows ==> !r.0 && r.1 is None,
        !(platform is Windows) ==> r.0 && (r.1 matches Some(t) && t@.len() == 0),
{
    blanks_leave_nothing(output@);
}

} // verus!
