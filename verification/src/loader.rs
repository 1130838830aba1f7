//! Finding and starting the runtime library.

use crate::platform::Platform;
use crate::text::{chars_of, text_eq, text_of};
use vstd::prelude::*;

verus! {

/// The texts by their contents.
pub open spec fn texts(s: Seq<String>) -> Seq<Seq<char>> {
    s.map_values(|t: String| t@)
}

/// The text begins with the prefix.
pub open spec fn starts_with(s: Seq<char>, prefix: Seq<char>) -> bool {
    prefix.len() <= s.len() && s.take(prefix.len() as int) == prefix
}

/// The paths that command-line arguments name: the argument after `--runtime`,
/// and the rest of one that starts with `--runtime=`.
pub open spec fn named_paths(args: Seq<Seq<char>>) -> Seq<Seq<char>>
    decreases args.len(),
{
    if args.len() == 0 {
        Seq::empty()
    } else if args[0] == "--runtime"@ {
        if args.len() == 1 {
            Seq::empty()
        } else {
            seq![args[1]] + named_paths(args.skip(2))
        }
    } else if starts_with(args[0], "--runtime="@) {
        seq![args[0].skip("--runtime="@.len() as int)] + named_paths(args.skip(1))
    } else {
        named_paths(args.skip(1))
    }
}

/// Where a runtime library is looked for last.
pub open spec fn search_paths() -> Seq<Seq<char>> {
    seq![
        "./libruntime.dylib"@,
        "./libruntime.so"@,
        "./target/debug/libhello.dylib"@,
        "./target/release/libhello.dylib"@,
        "./target/debug/libhello.so"@,
        "./target/release/libhello.so"@,
    ]
}

/// An optional text as a sequence.
pub open spec fn optional(s: Option<String>) -> Seq<Seq<char>> {
    match s {
        Some(t) => seq![t@],
        None => Seq::empty(),
    }
}

/// Where the runtime library may be, in the order of preference: what the
/// command line names, what the environment names, next to the executable, and
/// the usual places.
pub open spec fn candidates_of(
    args: Seq<Seq<char>>,
    env_path: Option<String>,
    colocated: Option<String>,
) -> Seq<Seq<char>> {
    named_paths(args) + optional(env_path) + optional(colocated) + search_paths()
}

/// The rest of a text after a prefix, if it begins with it.
pub fn strip_prefix(s: &str, prefix: &str) -> (r: Option<String>)
    ensures
        match r {
            Some(rest) => starts_with(s@, prefix@) && rest@ == s@.skip(prefix@.len() as int),
            None => !starts_with(s@, prefix@),
        },
{
    let chars = chars_of(s);
    let head = chars_of(prefix);
    if head.len() > chars.len() {
        return None;
    }
    let mut i: usize = 0;
    while i < head.len()
        invariant
            chars@ == s@,
            head@ == prefix@,
            head@.len() <= chars@.len(),
            i <= head@.len(),
            forall|j: int| 0 <= j < i ==> s@[j] == prefix@[j],
        decreases head@.len() - i,
    {
        if chars[i] != head[i] {
            assert(s@.take(prefix@.len() as int)[i as int] != prefix@[i as int]);
            return None;
        }
        i = i + 1;
    }
    assert(s@.take(prefix@.len() as int) =~= prefix@);
    let mut rest: Vec<char> = Vec::new();
    let mut k: usize = head.len();
    while k < chars.len()
        invariant
            chars@ == s@,
            head@ == prefix@,
            head@.len() <= k <= chars@.len(),
            rest@ == s@.subrange(head@.len() as int, k as int),
        decreases chars@.len() - k,
    {
        rest.push(chars[k]);
        assert(rest@ =~= s@.subrange(head@.len() as int, k as int + 1));
        k = k + 1;
    }
    assert(rest@ =~= s@.skip(prefix@.len() as int));
    Some(text_of(rest.as_slice()))
}

/// The paths that the command line names, in order. `args` leaves the program's
/// own name out.
pub fn paths_from_args(args: &[String]) -> (r: Vec<String>)
    ensures
        texts(r@) == named_paths(texts(args@)),
{
    let mut out: Vec<String> = Vec::new();
    let mut i: usize = 0;
    let ghost all = texts(args@);
    assert(all.skip(0) =~= all);
    assert(texts(out@) + named_paths(all.skip(0)) =~= named_paths(all));
    while i < args.len()
        invariant
            all == texts(args@),
            i <= args@.len(),
            texts(out@) + named_paths(all.skip(i as int)) == named_paths(all),
        decreases args@.len() - i,
    {
        let ghost before = out@;
        let ghost rest = all.skip(i as int);
        proof {
            assert(rest[0] == args@[i as int]@);
            assert(rest.skip(1) =~= all.skip(i as int + 1));
        }
        if text_eq(args[i].as_str(), "--runtime") {
            if i + 1 < args.len() {
                out.push(args[i + 1].clone());
                proof {
                    assert(rest[1] == args@[i as int + 1]@);
                    assert(rest.skip(2) =~= all.skip(i as int + 2));
                    assert(texts(out@) =~= texts(before).push(rest[1]));
                    assert(texts(out@) + named_paths(rest.skip(2)) =~= texts(before) + (
                    seq![rest[1]] + named_paths(rest.skip(2))));
                }
                i = i + 2;
            } else {
                proof {
                    assert(named_paths(all.skip(i as int + 1)) =~= Seq::<Seq<char>>::empty());
                }
                i = i + 1;
            }
        } else {
            if let Some(path) = strip_prefix(args[i].as_str(), "--runtime=") {
                let ghost p = path@;
                out.push(path);
                proof {
                    assert(texts(out@) =~= texts(before).push(p));
                    assert(texts(out@) + named_paths(rest.skip(1)) =~= texts(before) + (seq![p]
                        + named_paths(rest.skip(1))));
                }
            }
            i = i + 1;
        }
    }
    proof {
        assert(all.skip(i as int) =~= Seq::<Seq<char>>::empty());
        assert(texts(out@) + Seq::<Seq<char>>::empty() =~= texts(out@));
    }
    out
}

/// Where the runtime library may be, in the order of preference.
pub fn runtime_candidates(
    args: &[String],
    env_path: Option<String>,
    colocated: Option<String>,
) -> (r: Vec<String>)
    ensures
        texts(r@) == candidates_of(texts(args@), env_path, colocated),
{
    let mut out = paths_from_args(args);
    let ghost named = texts(out@);
    if let Some(p) = env_path {
        out.push(p);
    }
    if let Some(p) = colocated {
        out.push(p);
    }
    assert(texts(out@) =~= named + optional(env_path) + optional(colocated));
    out.push("./libruntime.dylib".to_string());
    out.push("./libruntime.so".to_string());
    out.push("./target/debug/libhello.dylib".to_string());
    out.push("./target/release/libhello.dylib".to_string());
    out.push("./target/debug/libhello.so".to_string());
    out.push("./target/release/libhello.so".to_string());
    assert(texts(out@) =~= candidates_of(texts(args@), env_path, colocated));
    out
}

/// The runtime library to load: the first candidate that exists. `exists` says
/// of each candidate, in order, whether it does.
pub fn find_runtime_library(candidates: &[String], exists: &[bool]) -> (r: Option<usize>)
    requires
        exists@.len() == candidates@.len(),
    ensures
        match r {
            Some(i) => i < exists@.len() && exists@[i as int] && forall|j: int|
                0 <= j < i ==> !exists@[j],
            None => forall|j: int| 0 <= j < exists@.len() ==> !exists@[j],
        },
{
    let mut i: usize = 0;
    while i < candidates.len()
        invariant
            exists@.len() == candidates@.len(),
            i <= candidates@.len(),
            forall|j: int| 0 <= j < i ==> !exists@[j],
        decreases candidates@.len() - i,
    {
        if exists[i] {
            return Some(i);
        }
        i = i + 1;
    }
    None
}

/// The file name extension of a shared library.
pub fn runtime_extension(platform: Platform) -> (r: &'static str)
    ensures
        r@ == (match platform {
            Platform::Windows => "dll"@,
            Platform::MacOs => "dylib"@,
            _ => "so"@,
        }),
{
    match platform {
        Platform::Windows => "dll",
        Platform::MacOs => "dylib",
        _ => "so",
    }
}

/// The runtime library beside the program, if `candidate` is one: a file that
/// exists and is not the program itself.
pub fn find_colocated_runtime(candidate: String, exists: bool, is_program: bool) -> (r: Option<
    String,
>)
    ensures
        r == (if exists && !is_program {
            Some(candidate)
        } else {
            None
        }),
{
    if exists && !is_program {
        Some(candidate)
    } else {
        None
    }
}

/// A step of loading and starting the runtime.
#[derive(Clone, Copy, Debug, PartialEq, Eq, Structural)]
pub enum LoadStep {
    OpenLibrary,
    FindInit,
    FindStart,
    CallInit,
    CallStart,
}

/// What comes after a step.
#[derive(Clone, Copy, Debug, PartialEq, Eq, Structural)]
pub enum LoadNext {
    Continue(LoadStep),
    /// The step failed: say so, and let go of the library.
    Failed,
    /// The runtime was started: keep the library, and say so if the start
    /// reported a failure.
    Started { report_failure: bool },
}

/// What comes after a step that ended with a code, zero for success. A runtime
/// that reports a failure from its start stays loaded.
pub open spec fn load_next(step: LoadStep, code: i32) -> LoadNext {
    match step {
        LoadStep::CallStart => LoadNext::Started { report_failure: code != 0 },
        _ => if code != 0 {
            LoadNext::Failed
        } else {
            LoadNext::Continue(
                match step {
                    LoadStep::OpenLibrary => LoadStep::FindInit,
                    LoadStep::FindInit => LoadStep::FindStart,
                    LoadStep::FindStart => LoadStep::CallInit,
                    _ => LoadStep::CallStart,
                },
            )
        },
    }
}

/// Decides how loading the runtime goes on.
pub fn load_and_start_runtime(step: LoadStep, code: i32) -> (r: LoadNext)
    ensures
        r == load_next(step, code),
{
    match step {
        LoadStep::CallStart => LoadNext::Started { report_failure: code != 0 },
        _ => if code != 0 {
            LoadNext::Failed
        } else {
            match step {
                LoadStep::OpenLibrary => LoadNext::Continue(LoadStep::FindInit),
                LoadStep::FindInit => LoadNext::Continue(LoadStep::FindStart),
                LoadStep::FindStart => LoadNext::Continue(LoadStep::CallInit),
                _ => LoadNext::Continue(LoadStep::CallStart),
            }
        },
    }
}

/// The runtime is started only right after its initialisation succeeded, and
/// initialised only right after both of its entry points were found.
pub proof fn start_follows_init(step: LoadStep, code: i32)
    ensures
        load_next(step, code) == LoadNext::Continue(LoadStep::CallStart) ==> step
            == LoadStep::CallInit && code == 0,
        load_next(step, code) == LoadNext::Continue(LoadStep::CallInit) ==> step
            == LoadStep::FindStart && code == 0,
        load_next(step, code) == LoadNext::Continue(LoadStep::FindStart) ==> step
            == LoadStep::FindInit && code == 0,
{
}

/// What the command line names comes first, whatever else is there.
pub proof fn named_paths_come_first(
    args: Seq<Seq<char>>,
    env_path: Option<String>,
    colocated: Option<String>,
    i: int,
)
    requires
        0 <= i < named_paths(args).len(),
    ensures
        candidates_of(args, env_path, colocated)[i] == named_paths(args)[i],
{
}

} // verus!
