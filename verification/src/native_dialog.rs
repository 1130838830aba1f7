//! Native dialogs: which dialog to show, the command that asks for a line of
//! text where no toolkit dialog does, and what the answer means.

use crate::platform::Platform;
use crate::text;
use crate::text::{chars_of, is_nul_free, lossy_text, trim};
use vstd::prelude::*;
use vstd::string::*;

verus! {

pub const LAUFEY_DIALOG_ALERT: i32 = 0;

pub const LAUFEY_DIALOG_CONFIRM: i32 = 1;

pub const LAUFEY_DIALOG_PROMPT: i32 = 2;

/// A program to run, with its arguments.
pub struct CommandLine {
    pub program: String,
    pub args: Vec<String>,
}

/// The arguments by their contents.
pub open spec fn args_view(args: Seq<String>) -> Seq<Seq<char>> {
    args.map_values(|a: String| a@)
}

/// The command runs the program with the arguments.
pub open spec fn runs(c: CommandLine, program: Seq<char>, args: Seq<Seq<char>>) -> bool {
    c.program@ == program && args_view(c.args@) == args
}

/// A character of a double-quoted text, with a backslash before a backslash or a
/// quote.
pub open spec fn quoted_char(c: char) -> Seq<char> {
    if c == '\\' || c == '"' {
        seq!['\\', c]
    } else {
        seq![c]
    }
}

/// The inside of a double-quoted text.
pub open spec fn double_quoted(s: Seq<char>) -> Seq<char>
    decreases s.len(),
{
    if s.len() == 0 {
        Seq::empty()
    } else {
        quoted_char(s[0]) + double_quoted(s.skip(1))
    }
}

/// A character of a single-quoted text, with a quote doubled.
pub open spec fn doubled_char(c: char) -> Seq<char> {
    if c == '\'' {
        seq!['\'', '\'']
    } else {
        seq![c]
    }
}

/// The inside of a single-quoted text.
pub open spec fn single_quoted(s: Seq<char>) -> Seq<char>
    decreases s.len(),
{
    if s.len() == 0 {
        Seq::empty()
    } else {
        doubled_char(s[0]) + single_quoted(s.skip(1))
    }
}

/// Quotes a text for use between double quotes.
pub fn quote_double(s: &str) -> (r: String)
    ensures
        r@ == double_quoted(s@),
{
    let chars = chars_of(s);
    let mut out = String::new();
    let mut i: usize = 0;
    assert(s@.skip(0) =~= s@);
    while i < chars.len()
        invariant
            chars@ == s@,
            i <= chars@.len(),
            out@ + double_quoted(s@.skip(i as int)) == double_quoted(s@),
        decreases chars@.len() - i,
    {
        let ghost before = out@;
        let c = chars[i];
        if c == '\\' || c == '"' {
            out.push('\\');
        }
        out.push(c);
        proof {
            let rest = s@.skip(i as int);
            assert(rest.skip(1) =~= s@.skip(i as int + 1));
            assert(out@ =~= before + quoted_char(c));
            assert(out@ + double_quoted(rest.skip(1)) =~= before + (quoted_char(c) + double_quoted(
                rest.skip(1),
            )));
        }
        i = i + 1;
    }
    assert(out@ + Seq::<char>::empty() =~= out@);
    out
}

/// Quotes a text for use between single quotes.
pub fn quote_single(s: &str) -> (r: String)
    ensures
        r@ == single_quoted(s@),
{
    let chars = chars_of(s);
    let mut out = String::new();
    let mut i: usize = 0;
    assert(s@.skip(0) =~= s@);
    while i < chars.len()
        invariant
            chars@ == s@,
            i <= chars@.len(),
            out@ + single_quoted(s@.skip(i as int)) == single_quoted(s@),
        decreases chars@.len() - i,
    {
        let ghost before = out@;
        let c = chars[i];
        if c == '\'' {
            out.push('\'');
        }
        out.push(c);
        proof {
            let rest = s@.skip(i as int);
            assert(rest.skip(1) =~= s@.skip(i as int + 1));
            assert(out@ =~= before + doubled_char(c));
            assert(out@ + single_quoted(rest.skip(1)) =~= before + (doubled_char(c)
                + single_quoted(rest.skip(1))));
        }
        i = i + 1;
    }
    assert(out@ + Seq::<char>::empty() =~= out@);
    out
}

/// How the inside of a double-quoted text is read: a backslash stands for the
/// character after it, and a bare quote ends the text.
pub open spec fn read_double_quoted(s: Seq<char>) -> Seq<char>
    decreases s.len(),
{
    if s.len() == 0 || s[0] == '"' {
        Seq::empty()
    } else if s[0] == '\\' && s.len() > 1 {
        seq![s[1]] + read_double_quoted(s.skip(2))
    } else {
        seq![s[0]] + read_double_quoted(s.skip(1))
    }
}

/// How the inside of a single-quoted text is read: two quotes stand for one, and
/// a single one ends the text.
pub open spec fn read_single_quoted(s: Seq<char>) -> Seq<char>
    decreases s.len(),
{
    if s.len() == 0 {
        Seq::empty()
    } else if s[0] == '\'' {
        if s.len() > 1 && s[1] == '\'' {
            seq!['\''] + read_single_quoted(s.skip(2))
        } else {
            Seq::empty()
        }
    } else {
        seq![s[0]] + read_single_quoted(s.skip(1))
    }
}

/// Whatever a text holds, between double quotes it reads as itself: no character
/// of it ends the quotation or is lost.
pub proof fn double_quoting_is_faithful(s: Seq<char>)
    ensures
        read_double_quoted(double_quoted(s)) == s,
    decreases s.len(),
{
    if s.len() > 0 {
        let q = double_quoted(s);
        let rest = double_quoted(s.skip(1));
        double_quoting_is_faithful(s.skip(1));
        assert(s =~= seq![s[0]] + s.skip(1));
        if s[0] == '\\' || s[0] == '"' {
            assert(q.skip(2) =~= rest);
            assert(q[0] == '\\' && q[1] == s[0]);
        } else {
            assert(q.skip(1) =~= rest);
            assert(q[0] == s[0]);
        }
    }
}

/// Whatever a text holds, between single quotes it reads as itself.
pub proof fn single_quoting_is_faithful(s: Seq<char>)
    ensures
        read_single_quoted(single_quoted(s)) == s,
    decreases s.len(),
{
    if s.len() > 0 {
        let q = single_quoted(s);
        let rest = single_quoted(s.skip(1));
        single_quoting_is_faithful(s.skip(1));
        assert(s =~= seq![s[0]] + s.skip(1));
        if s[0] == '\'' {
            assert(q.skip(2) =~= rest);
            assert(q[0] == '\'' && q[1] == '\'');
        } else {
            assert(q.skip(1) =~= rest);
            assert(q[0] == s[0]);
        }
    }
}

/// How a prompt is put: by a command whose output is the answer, or answered at
/// once where no command can ask.
pub enum PromptStep {
    Run(CommandLine),
    Answer { confirmed: bool, input: Option<String> },
}

/// The AppleScript that asks for a line of text.
pub open spec fn prompt_apple_script(
    title: Seq<char>,
    message: Seq<char>,
    default_value: Seq<char>,
) -> Seq<char> {
    "set result to display dialog \""@ + double_quoted(message) + "\" default answer \""@
        + double_quoted(default_value) + "\" with title \""@ + double_quoted(title)
        + "\" buttons {\"Cancel\", \"OK\"} default button \"OK\"\nreturn text returned of result"@
}

/// The PowerShell command that asks for a line of text.
pub open spec fn prompt_power_shell(
    title: Seq<char>,
    message: Seq<char>,
    default_value: Seq<char>,
) -> Seq<char> {
    "Add-Type -AssemblyName Microsoft.VisualBasic; [Microsoft.VisualBasic.Interaction]::InputBox('"@
        + single_quoted(message) + "', '"@ + single_quoted(title) + "', '"@ + single_quoted(
        default_value,
    ) + "')"@
}

/// The step puts a prompt as the platform does: macOS by AppleScript, Windows by
/// PowerShell, Linux by zenity. Elsewhere the prompt is taken as confirmed with
/// the default.
pub open spec fn prompt_step_for(
    platform: Platform,
    title: Seq<char>,
    message: Seq<char>,
    default_value: Seq<char>,
    step: PromptStep,
) -> bool {
    match platform {
        Platform::MacOs => step matches PromptStep::Run(c) && runs(
            c,
            "osascript"@,
            seq!["-e"@, prompt_apple_script(title, message, default_value)],
        ),
        Platform::Windows => step matches PromptStep::Run(c) && runs(
            c,
            "powershell"@,
            seq!["-Command"@, prompt_power_shell(title, message, default_value)],
        ),
        Platform::Linux => step matches PromptStep::Run(c) && runs(
            c,
            "zenity"@,
            seq![
                "--entry"@,
                "--title"@,
                title,
                "--text"@,
                message,
                "--entry-text"@,
                default_value,
            ],
        ),
        Platform::Other => step matches PromptStep::Answer { confirmed, input: Some(text) }
            && confirmed && text@ == default_value,
    }
}

/// How a prompt is put on a platform.
pub fn show_prompt_dialog(
    platform: Platform,
    title: &str,
    message: &str,
    default_value: &str,
) -> (r: PromptStep)
    ensures
        prompt_step_for(platform, title@, message@, default_value@, r),
{
    match platform {
        Platform::MacOs => {
            let mut script = "set result to display dialog \"".to_string();
            script.append(quote_double(message).as_str());
            script.append("\" default answer \"");
            script.append(quote_double(default_value).as_str());
            script.append("\" with title \"");
            script.append(quote_double(title).as_str());
            script.append(
                "\" buttons {\"Cancel\", \"OK\"} default button \"OK\"\nreturn text returned of result",
            );
            let mut args: Vec<String> = Vec::new();
            args.push("-e".to_string());
            args.push(script);
            assert(args_view(args@) =~= seq![
                "-e"@,
                prompt_apple_script(title@, message@, default_value@),
            ]);
            PromptStep::Run(CommandLine { program: "osascript".to_string(), args })
        },
        Platform::Windows => {
            let mut script =
                "Add-Type -AssemblyName Microsoft.VisualBasic; [Microsoft.VisualBasic.Interaction]::InputBox('".to_string();
            script.append(quote_single(message).as_str());
            script.append("', '");
            script.append(quote_single(title).as_str());
            script.append("', '");
            script.append(quote_single(default_value).as_str());
            script.append("')");
            let mut args: Vec<String> = Vec::new();
            args.push("-Command".to_string());
            args.push(script);
            assert(args_view(args@) =~= seq![
                "-Command"@,
                prompt_power_shell(title@, message@, default_value@),
            ]);
            PromptStep::Run(CommandLine { program: "powershell".to_string(), args })
        },
        Platform::Linux => {
            let mut args: Vec<String> = Vec::new();
            args.push("--entry".to_string());
            args.push("--title".to_string());
            args.push(title.to_string());
            args.push("--text".to_string());
            args.push(message.to_string());
            args.push("--entry-text".to_string());
            args.push(default_value.to_string());
            assert(args_view(args@) =~= seq![
                "--entry"@,
                "--title"@,
                title@,
                "--text"@,
                message@,
                "--entry-text"@,
                default_value@,
            ]);
            PromptStep::Run(CommandLine { program: "zenity".to_string(), args })
        },
        Platform::Other => PromptStep::Answer {
            confirmed: true,
            input: Some(default_value.to_string()),
        },
    }
}

/// The answer that a prompt command's output text stands for. A command that
/// failed, or did not run, is a cancel. On Windows an empty answer is one too,
/// for the input box gives nothing else to tell it by.
pub open spec fn prompt_answer_of(
    platform: Platform,
    succeeded: bool,
    output: Seq<char>,
) -> Option<Seq<char>> {
    let answer = text::trimmed(output);
    if !succeeded || platform == Platform::Windows && answer.len() == 0 {
        None
    } else {
        Some(answer)
    }
}

/// The answer that a prompt command's output text stands for.
pub fn prompt_answer(platform: Platform, succeeded: bool, output: &str) -> (r: (
    bool,
    Option<String>,
))
    ensures
        match prompt_answer_of(platform, succeeded, output@) {
            Some(answer) => r.0 && (r.1 matches Some(text) && text@ == answer),
            None => !r.0 && r.1 is None,
        },
{
    if !succeeded {
        return (false, None);
    }
    let answer = trim(output);
    if platform == Platform::Windows && chars_of(answer.as_str()).len() == 0 {
        return (false, None);
    }
    (true, Some(answer))
}

/// The answer that a prompt command's raw output stands for.
pub fn prompt_result(platform: Platform, succeeded: bool, stdout: &[u8]) -> (r: (
    bool,
    Option<String>,
))
    ensures
        match prompt_answer_of(platform, succeeded, text::utf8_lossy(stdout@)) {
            Some(answer) => r.0 && (r.1 matches Some(text) && text@ == answer),
            None => !r.0 && r.1 is None,
        },
{
    let output = lossy_text(stdout);
    prompt_answer(platform, succeeded, output.as_str())
}

/// A native dialog to show.
pub enum NativeDialog {
    /// A message box, with an OK button and, for a question, a cancel button.
    Message { cancellable: bool },
    Prompt(PromptStep),
    /// A dialog of no known kind: nothing is shown, and it counts as cancelled.
    Unknown,
}

/// The dialog to show for a dialog type.
pub fn show_native_dialog(
    dialog_type: i32,
    platform: Platform,
    title: &str,
    message: &str,
    default_value: &str,
) -> (r: NativeDialog)
    ensures
        dialog_type == LAUFEY_DIALOG_ALERT ==> r == (NativeDialog::Message { cancellable: false }),
        dialog_type == LAUFEY_DIALOG_CONFIRM ==> r == (NativeDialog::Message { cancellable: true }),
        dialog_type == LAUFEY_DIALOG_PROMPT ==> (r matches NativeDialog::Prompt(step)
            && prompt_step_for(platform, title@, message@, default_value@, step)),
        dialog_type != LAUFEY_DIALOG_ALERT && dialog_type != LAUFEY_DIALOG_CONFIRM && dialog_type
            != LAUFEY_DIALOG_PROMPT ==> r == NativeDialog::Unknown,
{
    if dialog_type == LAUFEY_DIALOG_ALERT {
        NativeDialog::Message { cancellable: false }
    } else if dialog_type == LAUFEY_DIALOG_CONFIRM {
        NativeDialog::Message { cancellable: true }
    } else if dialog_type == LAUFEY_DIALOG_PROMPT {
        NativeDialog::Prompt(show_prompt_dialog(platform, title, message, default_value))
    } else {
        NativeDialog::Unknown
    }
}

/// Whether a message box counts as confirmed: always without a cancel button,
/// and else if OK was pressed.
pub fn message_confirmed(cancellable: bool, pressed_ok: bool) -> (r: bool)
    ensures
        r == (!cancellable || pressed_ok),
{
    !cancellable || pressed_ok
}

/// What the backend hands back of a dialog: 1 if it was confirmed and 0 if not,
/// and the text that was entered, if it is asked for and can cross as a C
/// string.
pub fn backend_show_dialog(confirmed: bool, input: Option<String>, wants_input: bool) -> (r: (
    i32,
    Option<String>,
))
    ensures
        r.0 == (if confirmed {
            1i32
        } else {
            0
        }),
        r.1 == (match input {
            Some(text) if wants_input && text::nul_free(text@) => input,
            _ => None,
        }),
{
    let code: i32 = if confirmed {
        1
    } else {
        0
    };
    let out = match input {
        Some(text) => if wants_input && is_nul_free(text.as_str()) {
            Some(text)
        } else {
            None
        },
        None => None,
    };
    (code, out)
}

} // verus!
