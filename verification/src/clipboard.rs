//! The clipboard, through each platform's own command-line tools.

use crate::native_dialog;
use crate::native_dialog::CommandLine;
use crate::platform::Platform;
use crate::text;
use crate::text::{chars_of, is_nul_free, lossy_text, text_of};
use vstd::prelude::*;

verus! {

/// The tools that put text on the clipboard, in the order they are tried: each
/// with its arguments.
pub open spec fn writers(platform: Platform) -> Seq<(Seq<char>, Seq<Seq<char>>)> {
    match platform {
        Platform::MacOs => seq![("pbcopy"@, Seq::empty())],
        Platform::Windows => seq![("clip"@, Seq::empty())],
        Platform::Linux => seq![
            ("wl-copy"@, Seq::empty()),
            ("xclip"@, seq!["-selection"@, "clipboard"@]),
        ],
        Platform::Other => Seq::empty(),
    }
}

/// The tools that print the clipboard's text, in the order they are tried: each
/// with its arguments.
pub open spec fn readers(platform: Platform) -> Seq<(Seq<char>, Seq<Seq<char>>)> {
    match platform {
        Platform::MacOs => seq![("pbpaste"@, Seq::empty())],
        Platform::Windows => seq![
            ("powershell"@, seq!["-NoProfile"@, "-Command"@, "Get-Clipboard -Raw"@]),
        ],
        Platform::Linux => seq![
            ("wl-paste"@, seq!["--no-newline"@]),
            ("xclip"@, seq!["-selection"@, "clipboard"@, "-o"@]),
        ],
        Platform::Other => Seq::empty(),
    }
}

/// A command whose standard input is fed a text.
pub struct PipeCommand {
    pub command: CommandLine,
    pub input: String,
}

fn no_args(program: &str) -> (r: CommandLine)
    ensures
        native_dialog::runs(r, program@, Seq::empty()),
{
    let args: Vec<String> = Vec::new();
    assert(native_dialog::args_view(args@) =~= Seq::<Seq<char>>::empty());
    CommandLine { program: program.to_string(), args }
}

/// The next tool to try for putting a text on the clipboard, once `failed` of
/// them have failed. There is none left after the last.
pub fn write_clipboard_text_native(platform: Platform, text: &str, failed: usize) -> (r: Option<
    PipeCommand,
>)
    ensures
        match r {
            Some(p) => {
                &&& failed < writers(platform).len()
                &&& native_dialog::runs(
                    p.command,
                    writers(platform)[failed as int].0,
                    writers(platform)[failed as int].1,
                )
                &&& p.input@ == text@
            },
            None => failed >= writers(platform).len(),
        },
{
    let command = match platform {
        Platform::MacOs => if failed == 0 {
            no_args("pbcopy")
        } else {
            return None;
        },
        Platform::Windows => if failed == 0 {
            no_args("clip")
        } else {
            return None;
        },
        Platform::Linux => if failed == 0 {
            no_args("wl-copy")
        } else if failed == 1 {
            let mut args: Vec<String> = Vec::new();
            args.push("-selection".to_string());
            args.push("clipboard".to_string());
            assert(native_dialog::args_view(args@) =~= writers(platform)[1].1);
            CommandLine { program: "xclip".to_string(), args }
        } else {
            return None;
        },
        Platform::Other => {
            return None;
        },
    };
    Some(PipeCommand { command, input: text.to_string() })
}

/// The next tool to try for reading the clipboard, once `failed` of them have
/// failed. There is none left after the last.
pub fn read_clipboard_text_native(platform: Platform, failed: usize) -> (r: Option<CommandLine>)
    ensures
        match r {
            Some(c) => failed < readers(platform).len() && native_dialog::runs(
                c,
                readers(platform)[failed as int].0,
                readers(platform)[failed as int].1,
            ),
            None => failed >= readers(platform).len(),
        },
{
    match platform {
        Platform::MacOs => if failed == 0 {
            Some(no_args("pbpaste"))
        } else {
            None
        },
        Platform::Windows => if failed == 0 {
            let mut args: Vec<String> = Vec::new();
            args.push("-NoProfile".to_string());
            args.push("-Command".to_string());
            args.push("Get-Clipboard -Raw".to_string());
            assert(native_dialog::args_view(args@) =~= readers(platform)[0].1);
            Some(CommandLine { program: "powershell".to_string(), args })
        } else {
            None
        },
        Platform::Linux => if failed == 0 {
            let mut args: Vec<String> = Vec::new();
            args.push("--no-newline".to_string());
            assert(native_dialog::args_view(args@) =~= readers(platform)[0].1);
            Some(CommandLine { program: "wl-paste".to_string(), args })
        } else if failed == 1 {
            let mut args: Vec<String> = Vec::new();
            args.push("-selection".to_string());
            args.push("clipboard".to_string());
            args.push("-o".to_string());
            assert(native_dialog::args_view(args@) =~= readers(platform)[1].1);
            Some(CommandLine { program: "xclip".to_string(), args })
        } else {
            None
        },
        Platform::Other => None,
    }
}

/// The clipboard's text as a tool printed it. The tool used on Windows adds one
/// line end, which does not belong to the text.
pub open spec fn printed_text(platform: Platform, output: Seq<char>) -> Seq<char> {
    let n = output.len() as int;
    if platform != Platform::Windows {
        output
    } else if n >= 2 && output[n - 2] == '\r' && output[n - 1] == '\n' {
        output.take(n - 2)
    } else if n >= 1 && output[n - 1] == '\n' {
        output.take(n - 1)
    } else {
        output
    }
}

/// The clipboard's text as a tool printed it.
pub fn strip_printed(platform: Platform, output: String) -> (r: String)
    ensures
        r@ == printed_text(platform, output@),
{
    if platform != Platform::Windows {
        return output;
    }
    let mut chars = chars_of(output.as_str());
    let n: usize = chars.len();
    if n >= 2 && chars[n - 2] == '\r' && chars[n - 1] == '\n' {
        chars.truncate(n - 2);
        assert(chars@ =~= output@.take(n - 2));
    } else if n >= 1 && chars[n - 1] == '\n' {
        chars.truncate(n - 1);
        assert(chars@ =~= output@.take(n - 1));
    }
    text_of(chars.as_slice())
}

/// The clipboard's text from a tool's raw output.
pub fn clipboard_text(platform: Platform, stdout: &[u8]) -> (r: String)
    ensures
        r@ == printed_text(platform, text::utf8_lossy(stdout@)),
{
    strip_printed(platform, lossy_text(stdout))
}

/// What the backend hands back of the clipboard: its text, if it can cross as a
/// C string.
pub fn backend_read_clipboard_text(read: Option<String>) -> (r: Option<String>)
    ensures
        r == (match read {
            Some(t) if text::nul_free(t@) => read,
            _ => None,
        }),
{
    match read {
        Some(t) => if is_nul_free(t.as_str()) {
            Some(t)
        } else {
            None
        },
        None => None,
    }
}

/// On Windows, a text that the tool prints with one line end added reads back as
/// the text itself.
pub proof fn one_line_end_is_stripped(text: Seq<char>)
    ensures
        printed_text(Platform::Windows, text + seq!['\r', '\n']) == text,
{
    assert((text + seq!['\r', '\n']).take(text.len() as int) =~= text);
}

} // verus!
