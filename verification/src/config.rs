//! The switches of the command line, and the texts that answer
//! `--help` and `--version`.

use vstd::prelude::*;
use vstd::string::*;
use crate::text::{chars_of, owned, push_line, push_table, same_text, slices, texts};

verus! {

/// What the command line asked for.
#[derive(Debug, Clone, Copy, PartialEq, Eq, Structural)]
pub struct Config {
    pub minimal: bool,
    pub no_color: bool,
    pub no_logo: bool,
    pub json_output: bool,
    pub help: bool,
    pub version: bool,
}

/// What the program does, once its command line is read.
#[derive(Debug, Clone, Copy, PartialEq, Eq, Structural)]
pub enum Mode {
    /// Show the help text.
    Help,
    /// Show the version.
    Version,
    /// Show the snapshot as a structured document.
    Json,
    /// Show the short form.
    Minimal,
    /// Show the facts, beside the logo if it is shown.
    Full,
}

/// The switches.
#[derive(Debug, Clone, Copy, PartialEq, Eq, Structural)]
pub enum Flag {
    Minimal,
    NoColor,
    NoLogo,
    Json,
    Help,
    Version,
}

/// The help text, line by line.
pub const HELP: [&'static str; 18] = [
    "zfetch - Yet another system information fetcher for Linux",
    "",
    "USAGE:",
    "    zfetch [OPTIONS]",
    "",
    "OPTIONS:",
    "    -m, --minimal     Display minimal information",
    "    -n, --no-color    Disable colored output",
    "    -l, --no-logo     Don't display the logo",
    "    -j, --json        Output information in JSON format",
    "    -h, --help        Show this help message",
    "    -v, --version     Show version information",
    "",
    "EXAMPLES:",
    "    zfetch              # Show full system information",
    "    zfetch --minimal    # Show minimal information",
    "    zfetch --json       # Output as JSON",
    "    zfetch --no-color   # Disable colors",
];

/// The switch that an argument names, in its short or its long form.
pub open spec fn flag_of(arg: Seq<char>) -> Option<Flag> {
    if arg == "-m"@ || arg == "--minimal"@ {
        Some(Flag::Minimal)
    } else if arg == "-n"@ || arg == "--no-color"@ {
        Some(Flag::NoColor)
    } else if arg == "-l"@ || arg == "--no-logo"@ {
        Some(Flag::NoLogo)
    } else if arg == "-j"@ || arg == "--json"@ {
        Some(Flag::Json)
    } else if arg == "-h"@ || arg == "--help"@ {
        Some(Flag::Help)
    } else if arg == "-v"@ || arg == "--version"@ {
        Some(Flag::Version)
    } else {
        None
    }
}

/// Whether one of the arguments `args[1..end]` names `flag`. The first
/// argument is the program's own name and is never looked at.
pub open spec fn asks(args: Seq<Seq<char>>, flag: Flag, end: int) -> bool {
    exists|i: int| 1 <= i < end && i < args.len() && flag_of(#[trigger] args[i]) == Some(flag)
}

/// Whether one of the arguments `args[1..end]` names no switch.
pub open spec fn has_unknown(args: Seq<Seq<char>>, end: int) -> bool {
    exists|i: int| 1 <= i < end && i < args.len() && flag_of(#[trigger] args[i]) is None
}

/// The arguments among `args[1..end]` that name no switch, in order.
pub open spec fn unknown_before(args: Seq<Seq<char>>, end: int) -> Seq<Seq<char>>
    decreases end,
{
    if end <= 1 || args.len() <= 1 {
        Seq::empty()
    } else if end > args.len() {
        unknown_before(args, args.len() as int)
    } else if flag_of(args[end - 1]) is None {
        unknown_before(args, end - 1).push(args[end - 1])
    } else {
        unknown_before(args, end - 1)
    }
}

/// What the arguments `args[1..end]` ask for: a switch is set if one of
/// them names it, and help also if one of them names no switch.
pub open spec fn parsed_before(args: Seq<Seq<char>>, end: int) -> Config {
    Config {
        minimal: asks(args, Flag::Minimal, end),
        no_color: asks(args, Flag::NoColor, end),
        no_logo: asks(args, Flag::NoLogo, end),
        json_output: asks(args, Flag::Json, end),
        help: asks(args, Flag::Help, end) || has_unknown(args, end),
        version: asks(args, Flag::Version, end),
    }
}

/// What a command line asks for.
pub open spec fn parsed(args: Seq<Seq<char>>) -> Config {
    parsed_before(args, args.len() as int)
}

/// The arguments of a command line that name no switch, in order.
pub open spec fn unknown(args: Seq<Seq<char>>) -> Seq<Seq<char>> {
    unknown_before(args, args.len() as int)
}

/// The text that answers `--version`.
pub open spec fn version_text(version: Seq<char>) -> Seq<Seq<char>> {
    seq![
        "zfetch v"@ + version,
        "Yet another system information fetcher for Linux"@,
        "Written in Rust for performance and reliability"@,
    ]
}

/// Looking at one argument more.
proof fn lemma_one_more(args: Seq<Seq<char>>, end: int)
    requires
        1 <= end < args.len(),
    ensures
        forall|flag: Flag|
            asks(args, flag, end + 1) == (asks(args, flag, end) || flag_of(args[end]) == Some(flag)),
        has_unknown(args, end + 1) == (has_unknown(args, end) || flag_of(args[end]) is None),
{
    assert forall|flag: Flag|
        asks(args, flag, end + 1) == (asks(args, flag, end) || flag_of(args[end]) == Some(
            flag,
        )) by {
        if asks(args, flag, end + 1) {
            let i = choose|i: int|
                1 <= i < end + 1 && i < args.len() && flag_of(#[trigger] args[i]) == Some(flag);
            if i < end {
                assert(asks(args, flag, end));
            }
        }
        if asks(args, flag, end) {
            let i = choose|i: int|
                1 <= i < end && i < args.len() && flag_of(#[trigger] args[i]) == Some(flag);
            assert(1 <= i < end + 1);
        }
        if flag_of(args[end]) == Some(flag) {
            assert(1 <= end < end + 1 && flag_of(args[end]) == Some(flag));
        }
    }
    if has_unknown(args, end + 1) {
        let i = choose|i: int|
            1 <= i < end + 1 && i < args.len() && flag_of(#[trigger] args[i]) is None;
        if i < end {
            assert(has_unknown(args, end));
        }
    }
    if has_unknown(args, end) {
        let i = choose|i: int| 1 <= i < end && i < args.len() && flag_of(#[trigger] args[i]) is None;
        assert(1 <= i < end + 1);
    }
    if flag_of(args[end]) is None {
        assert(1 <= end < end + 1 && flag_of(args[end]) is None);
    }
}

/// The switch that an argument names.
pub fn flag_of_exec(arg: &str) -> (flag: Option<Flag>)
    ensures
        flag == flag_of(arg@),
{
    let a = chars_of(arg);
    if same_text(&a, &chars_of("-m")) || same_text(&a, &chars_of("--minimal")) {
        Some(Flag::Minimal)
    } else if same_text(&a, &chars_of("-n")) || same_text(&a, &chars_of("--no-color")) {
        Some(Flag::NoColor)
    } else if same_text(&a, &chars_of("-l")) || same_text(&a, &chars_of("--no-logo")) {
        Some(Flag::NoLogo)
    } else if same_text(&a, &chars_of("-j")) || same_text(&a, &chars_of("--json")) {
        Some(Flag::Json)
    } else if same_text(&a, &chars_of("-h")) || same_text(&a, &chars_of("--help")) {
        Some(Flag::Help)
    } else if same_text(&a, &chars_of("-v")) || same_text(&a, &chars_of("--version")) {
        Some(Flag::Version)
    } else {
        None
    }
}

impl Config {
    /// What the program does: help goes before the version, and both
    /// before any output of facts; of these, the structured document goes
    /// before the short form and that before the full form.
    pub open spec fn mode_of(self) -> Mode {
        if self.help {
            Mode::Help
        } else if self.version {
            Mode::Version
        } else if self.json_output {
            Mode::Json
        } else if self.minimal {
            Mode::Minimal
        } else {
            Mode::Full
        }
    }

    /// What the program does.
    pub fn mode(&self) -> (mode: Mode)
        ensures
            mode == self.mode_of(),
    {
        if self.help {
            Mode::Help
        } else if self.version {
            Mode::Version
        } else if self.json_output {
            Mode::Json
        } else if self.minimal {
            Mode::Minimal
        } else {
            Mode::Full
        }
    }

    /// No switch set.
    pub fn new() -> (config: Config)
        ensures
            config == parsed(Seq::empty()),
            !config.minimal,
            !config.no_color,
            !config.no_logo,
            !config.json_output,
            !config.help,
            !config.version,
    {
        Config {
            minimal: false,
            no_color: false,
            no_logo: false,
            json_output: false,
            help: false,
            version: false,
        }
    }

    /// What the command line `args` asks for, and its arguments that name
    /// no switch, in order. Such an argument asks for help. The first
    /// argument is the program's own name.
    pub fn from_args(args: &Vec<String>) -> (result: (Config, Vec<String>))
        ensures
            result.0 == parsed(texts(args@)),
            texts(result.1@) == unknown(texts(args@)),
    {
        let mut config = Config::new();
        let mut rejected: Vec<String> = Vec::new();
        if args.len() <= 1 {
            assert(texts(rejected@) =~= unknown(texts(args@)));
            return (config, rejected);
        }
        let mut i: usize = 1;
        assert(texts(rejected@) =~= unknown_before(texts(args@), 1));
        while i < args.len()
            invariant
                1 <= i <= args.len(),
                config == parsed_before(texts(args@), i as int),
                texts(rejected@) == unknown_before(texts(args@), i as int),
            decreases args.len() - i,
        {
            proof {
                lemma_one_more(texts(args@), i as int);
            }
            match flag_of_exec(args[i].as_str()) {
                Some(Flag::Minimal) => {
                    config.minimal = true;
                },
                Some(Flag::NoColor) => {
                    config.no_color = true;
                },
                Some(Flag::NoLogo) => {
                    config.no_logo = true;
                },
                Some(Flag::Json) => {
                    config.json_output = true;
                },
                Some(Flag::Help) => {
                    config.help = true;
                },
                Some(Flag::Version) => {
                    config.version = true;
                },
                None => {
                    config.help = true;
                    push_line(&mut rejected, args[i].clone());
                },
            }
            i += 1;
        }
        (config, rejected)
    }

    /// Appends the help text to the output.
    pub fn print_help(out: &mut Vec<String>)
        ensures
            texts(final(out)@) == texts(old(out)@) + slices(HELP@),
    {
        push_table(out, &HELP);
    }

    /// Appends the text that answers `--version` to the output.
    pub fn print_version(version: &str, out: &mut Vec<String>)
        ensures
            texts(final(out)@) == texts(old(out)@) + version_text(version@),
    {
        let mut first = owned("zfetch v");
        first.append(version);
        push_line(out, first);
        push_line(out, owned("Yet another system information fetcher for Linux"));
        push_line(out, owned("Written in Rust for performance and reliability"));
        assert(texts(out@) =~= texts(old(out)@) + version_text(version@));
    }
}

} // verus!
