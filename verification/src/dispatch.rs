//! Choosing how a command is run.
//!
//! Only one program is instrumented, and only while telemetry is enabled.
//! Whoever calls under another name gets the plain path, whatever the
//! arguments are. The caller's name is compared without regard to the case
//! of its letters and to the extension that executables carry on some
//! systems.

use crate::text::same_text;
use vstd::prelude::*;
use vstd::utf8::{is_ascii_chars, is_ascii_chars_encode_utf8};

verus! {

/// The name of the instrumented program, in lower case and without an
/// extension.
pub const INSTRUMENTED_PROGRAM: &'static str = "rustc";

/// The extension of an executable, in lower case.
pub const EXECUTABLE_EXTENSION: &'static str = ".exe";

/// The name of the instrumented program with the extension behind it.
pub const INSTRUMENTED_PROGRAM_EXE: &'static str = "rustc.exe";

/// The long form of the flag that asks a program for its version.
pub const VERSION_FLAG_LONG: &'static str = "--version";

/// The short form of that flag.
pub const VERSION_FLAG_SHORT: &'static str = "-V";

/// One of the three ways of running the child.
#[derive(Clone, Copy, Debug, PartialEq, Eq, Structural)]
pub enum RunPath {
    /// All three standard streams are the caller's own; nothing is read.
    PlainPassthrough,
    /// Standard output is piped and read for the version line.
    VersionQuery,
    /// Standard error is piped and read for diagnostic codes; the run is timed.
    NormalRun,
}

/// Where a standard stream of the child leads.
#[derive(Clone, Copy, Debug, PartialEq, Eq, Structural)]
pub enum StreamMode {
    /// The child shares the stream with this process.
    Inherited,
    /// The child's end is a pipe that this process reads.
    Piped,
}

/// How to spawn the child: the path taken and the three stream modes.
#[derive(Clone, Copy, Debug, PartialEq, Eq, Structural)]
pub struct RunPlan {
    pub path: RunPath,
    pub stdin: StreamMode,
    pub stdout: StreamMode,
    pub stderr: StreamMode,
}

/// Why a command was not run to its end.
#[derive(Clone, Debug, PartialEq, Eq)]
pub enum CommandError {
    /// The name of this process's own executable could not be found out.
    NoExecutableName,
    /// The child could not be started or waited for.
    RunningCommand { name: String },
}

/// A [`CommandError`] with its text as characters.
pub enum CommandErrorModel {
    NoExecutableName,
    RunningCommand { name: Seq<char> },
}

impl View for CommandError {
    type V = CommandErrorModel;

    open spec fn view(&self) -> CommandErrorModel {
        match self {
            CommandError::NoExecutableName => CommandErrorModel::NoExecutableName,
            CommandError::RunningCommand { name } => CommandErrorModel::RunningCommand {
                name: name@,
            },
        }
    }
}

impl DeepView for CommandError {
    type V = CommandErrorModel;

    open spec fn deep_view(&self) -> CommandErrorModel {
        self@
    }
}

/// `c` in lower case: a letter from `A` to `Z` becomes the letter from `a`
/// to `z`, any other character stays as it is.
pub open spec fn fold_case(c: char) -> char {
    if 'A' <= c && c <= 'Z' {
        ((c as int) + 32) as char
    } else {
        c
    }
}

/// `name` with every letter in lower case.
pub open spec fn lower_case(name: Seq<char>) -> Seq<char> {
    Seq::new(name.len(), |i: int| fold_case(name[i]))
}

/// `name` with the extension of an executable taken off its end, where it
/// has one.
pub open spec fn without_extension(name: Seq<char>) -> Seq<char> {
    let cut = name.len() - EXECUTABLE_EXTENSION@.len();
    if cut >= 0 && name.subrange(cut, name.len() as int) == EXECUTABLE_EXTENSION@ {
        name.subrange(0, cut)
    } else {
        name
    }
}

/// The form in which a caller's name is compared: in lower case and without
/// the extension of an executable.
pub open spec fn normalized_name(name: Seq<char>) -> Seq<char> {
    without_extension(lower_case(name))
}

/// `name` is, once normalized, the name of the instrumented program.
pub open spec fn is_instrumented_name(name: Seq<char>) -> bool {
    normalized_name(name) == INSTRUMENTED_PROGRAM@
}

/// A name is that of the instrumented program exactly where its lower-case
/// form is the program's name, with or without the extension.
pub proof fn lemma_instrumented_names(name: Seq<char>)
    ensures
        is_instrumented_name(name) <==> lower_case(name) == INSTRUMENTED_PROGRAM@ || lower_case(
            name,
        ) == INSTRUMENTED_PROGRAM_EXE@,
{
    reveal_strlit("rustc");
    reveal_strlit(".exe");
    reveal_strlit("rustc.exe");
    let lower = lower_case(name);
    let program = INSTRUMENTED_PROGRAM@;
    let extension = EXECUTABLE_EXTENSION@;
    let both = INSTRUMENTED_PROGRAM_EXE@;
    assert(both =~= program + extension);
    let cut = lower.len() - extension.len();
    if cut >= 0 && lower.subrange(cut, lower.len() as int) == extension {
        let tail = lower.subrange(cut, lower.len() as int);
        assert(lower =~= lower.subrange(0, cut) + tail);
        if lower == program {
            assert(tail[0] == lower[1]);
        }
        if lower == both {
            assert(lower.subrange(0, cut) =~= program);
        }
    } else {
        if lower == both {
            assert(lower.subrange(cut, lower.len() as int) =~= extension);
        }
    }
}

/// `arg` is the version flag, in its long or its short form.
pub open spec fn is_version_flag(arg: Seq<char>) -> bool {
    arg == VERSION_FLAG_LONG@ || arg == VERSION_FLAG_SHORT@
}

/// Some argument, the program name at the front included, is the version flag.
pub open spec fn asks_for_version(args: Seq<Seq<char>>) -> bool {
    exists|i: int| 0 <= i < args.len() && is_version_flag(#[trigger] args[i])
}

/// The path for a caller known as `name` that passes `args`.
pub open spec fn select_path(name: Seq<char>, args: Seq<Seq<char>>, telemetry_enabled: bool)
    -> RunPath {
    if !is_instrumented_name(name) || !telemetry_enabled {
        RunPath::PlainPassthrough
    } else if asks_for_version(args) {
        RunPath::VersionQuery
    } else {
        RunPath::NormalRun
    }
}

/// The stream modes of a path: standard input is never piped, and of the two
/// output streams only the one that the path reads.
pub open spec fn plan_for(path: RunPath) -> RunPlan {
    RunPlan {
        path,
        stdin: StreamMode::Inherited,
        stdout: if path == RunPath::VersionQuery {
            StreamMode::Piped
        } else {
            StreamMode::Inherited
        },
        stderr: if path == RunPath::NormalRun {
            StreamMode::Piped
        } else {
            StreamMode::Inherited
        },
    }
}

/// Whether `name` in lower case is `target`, which holds nothing beyond
/// ASCII.
fn folds_to(name: &str, target: &str) -> (same: bool)
    requires
        is_ascii_chars(target@),
    ensures
        same == (lower_case(name@) == target@),
{
    if !name.is_ascii() {
        proof {
            if lower_case(name@) == target@ {
                assert forall|i: int| 0 <= i < name@.len() implies '\0' <= #[trigger] name@[i]
                    <= '\u{7f}' by {
                    assert(lower_case(name@)[i] == fold_case(name@[i]));
                    assert('\0' <= target@[i] <= '\u{7f}');
                }
            }
        }
        return false;
    }
    let given = name.as_bytes();
    let wanted = target.as_bytes();
    proof {
        is_ascii_chars_encode_utf8(name@);
        is_ascii_chars_encode_utf8(target@);
    }
    if given.len() != wanted.len() {
        return false;
    }
    let mut i: usize = 0;
    while i < given.len()
        invariant
            i <= given.len(),
            given.len() == wanted.len(),
            given.len() == name@.len(),
            wanted.len() == target@.len(),
            is_ascii_chars(name@),
            is_ascii_chars(target@),
            forall|k: int| 0 <= k < name@.len() ==> #[trigger] name@[k] as u8 == given@[k],
            forall|k: int| 0 <= k < target@.len() ==> #[trigger] target@[k] as u8 == wanted@[k],
            forall|k: int| 0 <= k < i ==> fold_case(#[trigger] name@[k]) == target@[k],
        decreases given.len() - i,
    {
        let byte = given[i];
        let folded: u8 = if 65 <= byte && byte <= 90 {
            byte + 32
        } else {
            byte
        };
        proof {
            let c = name@[i as int];
            let t = target@[i as int];
            assert('\0' <= c <= '\u{7f}');
            assert('\0' <= t <= '\u{7f}');
            assert(c as u8 == byte);
            assert(t as u8 == wanted@[i as int]);
            assert(fold_case(c) as int == folded as int);
        }
        if folded != wanted[i] {
            assert(lower_case(name@)[i as int] != target@[i as int]);
            return false;
        }
        i += 1;
    }
    assert(lower_case(name@) =~= target@);
    true
}

/// Whether the caller's name is that of the instrumented program.
pub fn is_instrumented(name: &str) -> (hit: bool)
    ensures
        hit == is_instrumented_name(name@),
{
    proof {
        lemma_instrumented_names(name@);
        reveal_strlit("rustc");
        reveal_strlit("rustc.exe");
    }
    folds_to(name, INSTRUMENTED_PROGRAM) || folds_to(name, INSTRUMENTED_PROGRAM_EXE)
}

/// Whether the arguments hold the version flag.
pub fn has_version_flag(args: &[String]) -> (hit: bool)
    ensures
        hit == asks_for_version(args.deep_view()),
{
    let mut i: usize = 0;
    while i < args.len()
        invariant
            i <= args.len(),
            forall|k: int| 0 <= k < i ==> !is_version_flag(#[trigger] args.deep_view()[k]),
        decreases args.len() - i,
    {
        let arg = args[i].as_str();
        if same_text(arg, VERSION_FLAG_LONG) || same_text(arg, VERSION_FLAG_SHORT) {
            assert(is_version_flag(args.deep_view()[i as int]));
            return true;
        }
        i += 1;
    }
    false
}

impl RunPlan {
    /// The plan of a path.
    pub fn for_path(path: RunPath) -> (plan: RunPlan)
        ensures
            plan == plan_for(path),
            plan.stdin == StreamMode::Inherited,
            !(plan.stdout == StreamMode::Piped && plan.stderr == StreamMode::Piped),
    {
        let stdout = match path {
            RunPath::VersionQuery => StreamMode::Piped,
            _ => StreamMode::Inherited,
        };
        let stderr = match path {
            RunPath::NormalRun => StreamMode::Piped,
            _ => StreamMode::Inherited,
        };
        RunPlan { path, stdin: StreamMode::Inherited, stdout, stderr }
    }
}

/// Decides how the command `args` is run for a caller whose own executable
/// goes by `own_name`, or fails where that name is not known.
pub fn run_command_for_dir(own_name: Option<&str>, args: &[String], telemetry_enabled: bool) -> (planned:
    Result<RunPlan, CommandError>)
    ensures
        match own_name {
            Some(name) => planned == Ok::<RunPlan, CommandError>(
                plan_for(select_path(name@, args.deep_view(), telemetry_enabled)),
            ),
            None => planned == Err::<RunPlan, CommandError>(CommandError::NoExecutableName),
        },
{
    match own_name {
        None => Err(CommandError::NoExecutableName),
        Some(name) => {
            let path = if !is_instrumented(name) || !telemetry_enabled {
                RunPath::PlainPassthrough
            } else if has_version_flag(args) {
                RunPath::VersionQuery
            } else {
                RunPath::NormalRun
            };
            Ok(RunPlan::for_path(path))
        },
    }
}

} // verus!
