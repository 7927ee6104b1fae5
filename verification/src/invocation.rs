//! Reading the argument list: a flag, a usage error, or the command to run.

use crate::text::{join, joined, texts};
use vstd::prelude::*;
use vstd::slice::slice_subrange;
use vstd::string::*;

verus! {

/// The exit code of an invocation that asked for help or for the version.
pub const EXIT_OK: i32 = 0;

/// The exit code of an invocation that names no command.
pub const EXIT_USAGE: i32 = 2;

/// The usage text.
pub const USAGE: &'static str =
    "Usage: sentinel-rs [--help] [--version] [-- <command>...]\nRuns a command via bash -c and sends Telegram notifications.\n\nExamples:\n  sentinel-rs -- \"echo hello\"\n  sentinel-rs -- ls -la\n  sentinel-rs -- --help   # runs a command named \"--help\"";

/// The version that the version flag reports.
pub const VERSION: &'static str = "0.1.0";

/// What is said where the separator stands alone.
pub const MISSING_COMMAND: &'static str = "Missing command after --.";

/// What an argument list asks for.
#[derive(Debug)]
pub enum Invocation {
    /// Print the usage text and end well.
    Help,
    /// Print the version and end well.
    Version,
    /// No argument at all: a usage error.
    NoArguments,
    /// The separator with nothing behind it: a usage error.
    NoCommand,
    /// Run this command line.
    Run(String),
}

/// Whether `arg` is a help flag.
pub open spec fn is_help_flag(arg: Seq<char>) -> bool {
    arg == "--help"@ || arg == "-h"@
}

/// Whether `arg` is a version flag.
pub open spec fn is_version_flag(arg: Seq<char>) -> bool {
    arg == "--version"@ || arg == "-V"@
}

/// Whether `arg` is the separator that may stand before the command.
pub open spec fn is_separator(arg: Seq<char>) -> bool {
    arg == "--"@
}

/// The words of the command: the arguments without a leading separator.
pub open spec fn command_words(args: Seq<Seq<char>>) -> Seq<Seq<char>> {
    if args.len() > 0 && is_separator(args[0]) {
        args.drop_first()
    } else {
        args
    }
}

/// The command line that the arguments spell: their words with one space
/// between each two.
pub open spec fn command_line(args: Seq<Seq<char>>) -> Seq<char> {
    joined(command_words(args), " "@)
}

/// Whether the arguments are one word that is not a command: a flag or a
/// separator alone.
pub open spec fn is_lone_directive(args: Seq<Seq<char>>) -> bool {
    args.len() == 1 && (is_help_flag(args[0]) || is_version_flag(args[0]) || is_separator(args[0]))
}

fn word_is(arg: &String, word: &str) -> (same: bool)
    ensures
        same == (arg@ == word@),
{
    let word = String::from_str(word);
    *arg == word
}

/// Reads the argument list. A flag counts only where it is the one argument;
/// a help flag is looked for before a version flag. Anything else is the
/// command, after an optional leading separator.
pub fn parse_invocation(args: &[String]) -> (invocation: Invocation)
    ensures
        match invocation {
            Invocation::NoArguments => args@.len() == 0,
            Invocation::Help => args@.len() == 1 && is_help_flag(args@[0]@),
            Invocation::Version => args@.len() == 1 && !is_help_flag(args@[0]@) && is_version_flag(
                args@[0]@,
            ),
            Invocation::NoCommand => args@.len() == 1 && is_separator(args@[0]@),
            Invocation::Run(command) => {
                &&& args@.len() > 0
                &&& !is_lone_directive(texts(args@))
                &&& command@ == command_line(texts(args@))
            },
        },
{
    proof {
        reveal_strlit("--help");
        reveal_strlit("-h");
        reveal_strlit("--version");
        reveal_strlit("-V");
        reveal_strlit("--");
    }
    let n = args.len();
    if n == 0 {
        return Invocation::NoArguments;
    }
    let first = &args[0];
    if n == 1 {
        if word_is(first, "--help") || word_is(first, "-h") {
            return Invocation::Help;
        }
        if word_is(first, "--version") || word_is(first, "-V") {
            return Invocation::Version;
        }
    }
    if word_is(first, "--") {
        if n == 1 {
            return Invocation::NoCommand;
        }
        let rest = slice_subrange(args, 1, n);
        assert(texts(rest@) =~= command_words(texts(args@)));
        Invocation::Run(join(rest, " "))
    } else {
        Invocation::Run(join(args, " "))
    }
}

/// The line that the version flag prints.
pub open spec fn version_text() -> Seq<char> {
    "sentinel-rs "@ + VERSION@
}

impl Invocation {
    /// The lines that an invocation prints by itself, before anything runs.
    pub open spec fn notice(&self) -> Seq<Seq<char>> {
        match self {
            Invocation::Help => seq![USAGE@],
            Invocation::Version => seq![version_text()],
            Invocation::NoArguments => seq![USAGE@],
            Invocation::NoCommand => seq![MISSING_COMMAND@, USAGE@],
            Invocation::Run(_) => Seq::empty(),
        }
    }

    /// The lines to print for this invocation, in order: the usage text for
    /// help and for a missing argument list, the version for the version
    /// flag, the complaint and then the usage text for a separator that
    /// stands alone, and nothing for a command.
    pub fn lines(&self) -> (lines: Vec<String>)
        ensures
            texts(lines@) == self.notice(),
    {
        let mut lines: Vec<String> = Vec::new();
        match self {
            Invocation::Help => {
                lines.push(String::from_str(USAGE));
            },
            Invocation::Version => {
                let mut line = String::from_str("sentinel-rs ");
                line.append(VERSION);
                lines.push(line);
            },
            Invocation::NoArguments => {
                lines.push(String::from_str(USAGE));
            },
            Invocation::NoCommand => {
                lines.push(String::from_str(MISSING_COMMAND));
                lines.push(String::from_str(USAGE));
            },
            Invocation::Run(_) => {},
        }
        assert(texts(lines@) =~= self.notice());
        lines
    }

    /// The exit code of an invocation that runs nothing: zero after help or
    /// version, `EXIT_USAGE` after a usage error. A command to run has none
    /// yet.
    pub fn exit_code(&self) -> (code: Option<i32>)
        ensures
            code == match self {
                Invocation::Help => Some(EXIT_OK),
                Invocation::Version => Some(EXIT_OK),
                Invocation::NoArguments => Some(EXIT_USAGE),
                Invocation::NoCommand => Some(EXIT_USAGE),
                Invocation::Run(_) => None,
            },
    {
        match self {
            Invocation::Help => Some(EXIT_OK),
            Invocation::Version => Some(EXIT_OK),
            Invocation::NoArguments => Some(EXIT_USAGE),
            Invocation::NoCommand => Some(EXIT_USAGE),
            Invocation::Run(_) => None,
        }
    }

    /// Whether the arguments were at fault.
    pub fn is_usage_error(&self) -> (bad: bool)
        ensures
            bad == (self is NoArguments || self is NoCommand),
    {
        match self {
            Invocation::NoArguments => true,
            Invocation::NoCommand => true,
            _ => false,
        }
    }
}

} // verus!
