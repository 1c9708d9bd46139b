//! The command line: which flags there are, how they are read, and what the
//! program does with them.

use vstd::prelude::*;
use crate::text::{
    ascii_lower, begins_with, join3, owned, same_text, starts_with, text_after, trim_lower, trimmed,
};

verus! {

broadcast use vstd::string::group_string_axioms;

/// The usage text after the program's name and version line.
pub const HELP: &'static str = "USAGE:
    mirador [OPTIONS]

OPTIONS:
    -c, --config <PATH>    Use a specific config file
        --print-config     Print the default config to stdout and exit
        --config-path      Print the resolved config path and exit
        --migrate-config   Update a config written by an older version
        --reset-config     Replace the config with the defaults, keeping a copy
        --factory-reset    Start over: config, preferences, tasks, notes and
                           watchlist all set aside, nothing deleted
    -y, --yes              Do not ask for confirmation
    -h, --help             Print this help and exit
    -V, --version          Print the version and exit

KEYS:
    Tab / Shift+Tab        Move focus between panels
    1 - 9                  Jump straight to a panel
    w                      Choose which panels are shown
    m                      Rearrange the panels
    t                      Choose a theme
    Ctrl+arrows            Resize the focused panel
    ?                      Show all key bindings, and the version
    q / Ctrl+C             Quit

On first run mirador writes a commented config file you can edit. Run
`mirador --config-path` to find it.
";

/// The full help text for a given version: a name line, a blank line, then
/// [`HELP`].
pub fn help_text(version: &str) -> (r: String)
    ensures
        r@ == "mirador "@ + version@ + " \u{2014} a personal information dashboard for your terminal\n\n"@
            + HELP@,
{
    let mut r = join3(
        "mirador ",
        version,
        " \u{2014} a personal information dashboard for your terminal\n\n",
    );
    r.append(HELP);
    r
}

/// The parsed command line.
#[derive(Debug, Clone, PartialEq, Eq)]
pub struct Args {
    pub config: Option<String>,
    pub print_config: bool,
    pub show_config_path: bool,
    pub migrate_config: bool,
    pub reset_config: bool,
    pub factory_reset: bool,
    /// Skip the confirmation `--reset-config` would otherwise ask for.
    pub assume_yes: bool,
    pub help: bool,
    pub version: bool,
}

/// Why the command line was refused.
#[derive(Debug, Clone, PartialEq, Eq)]
pub enum ArgsError {
    /// `-c` or `--config` came last, with no path after it.
    MissingValue(String),
    /// Something that is not a flag this program knows.
    Unrecognised(String),
}

/// The command line as values.
pub struct ArgsModel {
    pub config: Option<Seq<char>>,
    pub print_config: bool,
    pub show_config_path: bool,
    pub migrate_config: bool,
    pub reset_config: bool,
    pub factory_reset: bool,
    pub assume_yes: bool,
    pub help: bool,
    pub version: bool,
}

pub enum ArgsErrorModel {
    MissingValue(Seq<char>),
    Unrecognised(Seq<char>),
}

impl Args {
    pub open spec fn model(&self) -> ArgsModel {
        ArgsModel {
            config: match self.config {
                Some(c) => Some(c@),
                None => None,
            },
            print_config: self.print_config,
            show_config_path: self.show_config_path,
            migrate_config: self.migrate_config,
            reset_config: self.reset_config,
            factory_reset: self.factory_reset,
            assume_yes: self.assume_yes,
            help: self.help,
            version: self.version,
        }
    }
}

impl ArgsError {
    pub open spec fn model(&self) -> ArgsErrorModel {
        match self {
            ArgsError::MissingValue(a) => ArgsErrorModel::MissingValue(a@),
            ArgsError::Unrecognised(a) => ArgsErrorModel::Unrecognised(a@),
        }
    }

    /// The sentence shown to the user.
    pub fn message(&self) -> (r: String)
        ensures
            match self {
                ArgsError::MissingValue(flag) => r@ == "`"@ + flag@ + "` needs a path, e.g. `"@
                    + flag@ + " ~/mirador.toml`"@,
                ArgsError::Unrecognised(arg) => r@ == "unrecognised argument `"@ + arg@
                    + "`. Run `mirador --help` for usage."@,
            },
    {
        match self {
            ArgsError::MissingValue(flag) => {
                let mut r = join3("`", flag.as_str(), "` needs a path, e.g. `");
                r.append(flag.as_str());
                r.append(" ~/mirador.toml`");
                r
            },
            ArgsError::Unrecognised(arg) => join3(
                "unrecognised argument `",
                arg.as_str(),
                "`. Run `mirador --help` for usage.",
            ),
        }
    }
}

/// Nothing asked for.
pub open spec fn no_args() -> ArgsModel {
    ArgsModel {
        config: None,
        print_config: false,
        show_config_path: false,
        migrate_config: false,
        reset_config: false,
        factory_reset: false,
        assume_yes: false,
        help: false,
        version: false,
    }
}

/// Reading `raw` from position `i` on, with `acc` what was read before it.
pub open spec fn parse_from(raw: Seq<Seq<char>>, i: int, acc: ArgsModel) -> Result<
    ArgsModel,
    ArgsErrorModel,
>
    decreases raw.len() - i,
{
    if i < 0 || i >= raw.len() {
        Ok(acc)
    } else {
        let arg = raw[i];
        if arg == "-h"@ || arg == "--help"@ {
            parse_from(raw, i + 1, ArgsModel { help: true, ..acc })
        } else if arg == "-V"@ || arg == "--version"@ {
            parse_from(raw, i + 1, ArgsModel { version: true, ..acc })
        } else if arg == "--print-config"@ {
            parse_from(raw, i + 1, ArgsModel { print_config: true, ..acc })
        } else if arg == "--config-path"@ {
            parse_from(raw, i + 1, ArgsModel { show_config_path: true, ..acc })
        } else if arg == "--migrate-config"@ {
            parse_from(raw, i + 1, ArgsModel { migrate_config: true, ..acc })
        } else if arg == "--reset-config"@ {
            parse_from(raw, i + 1, ArgsModel { reset_config: true, ..acc })
        } else if arg == "--factory-reset"@ {
            parse_from(raw, i + 1, ArgsModel { factory_reset: true, ..acc })
        } else if arg == "-y"@ || arg == "--yes"@ {
            parse_from(raw, i + 1, ArgsModel { assume_yes: true, ..acc })
        } else if arg == "-c"@ || arg == "--config"@ {
            if i + 1 < raw.len() {
                parse_from(raw, i + 2, ArgsModel { config: Some(raw[i + 1]), ..acc })
            } else {
                Err(ArgsErrorModel::MissingValue(arg))
            }
        } else if begins_with(arg, "--config="@) {
            parse_from(
                raw,
                i + 1,
                ArgsModel { config: Some(arg.skip("--config="@.len() as int)), ..acc },
            )
        } else {
            Err(ArgsErrorModel::Unrecognised(arg))
        }
    }
}

/// The command line, read left to right: a later flag overrides an earlier
/// one, and the first thing that is not a flag stops the reading.
pub open spec fn parse_spec(raw: Seq<Seq<char>>) -> Result<ArgsModel, ArgsErrorModel> {
    parse_from(raw, 0, no_args())
}

pub open spec fn views(raw: Seq<String>) -> Seq<Seq<char>> {
    raw.map_values(|s: String| s@)
}

/// Read the arguments that follow the program's name.
pub fn parse_args(raw: &Vec<String>) -> (r: Result<Args, ArgsError>)
    ensures
        match r {
            Ok(args) => parse_spec(views(raw@)) == Ok::<ArgsModel, ArgsErrorModel>(args.model()),
            Err(e) => parse_spec(views(raw@)) == Err::<ArgsModel, ArgsErrorModel>(e.model()),
        },
{
    let mut args = Args {
        config: None,
        print_config: false,
        show_config_path: false,
        migrate_config: false,
        reset_config: false,
        factory_reset: false,
        assume_yes: false,
        help: false,
        version: false,
    };
    let ghost all = views(raw@);
    let mut i: usize = 0;
    while i < raw.len()
        invariant
            all == views(raw@),
            i <= raw.len(),
            parse_spec(all) == parse_from(all, i as int, args.model()),
        decreases raw.len() - i,
    {
        let arg = raw[i].as_str();
        proof {
            assert(all[i as int] == arg@);
        }
        if same_text(arg, "-h") || same_text(arg, "--help") {
            args.help = true;
        } else if same_text(arg, "-V") || same_text(arg, "--version") {
            args.version = true;
        } else if same_text(arg, "--print-config") {
            args.print_config = true;
        } else if same_text(arg, "--config-path") {
            args.show_config_path = true;
        } else if same_text(arg, "--migrate-config") {
            args.migrate_config = true;
        } else if same_text(arg, "--reset-config") {
            args.reset_config = true;
        } else if same_text(arg, "--factory-reset") {
            args.factory_reset = true;
        } else if same_text(arg, "-y") || same_text(arg, "--yes") {
            args.assume_yes = true;
        } else if same_text(arg, "-c") || same_text(arg, "--config") {
            if i + 1 < raw.len() {
                proof {
                    assert(all[i as int + 1] == raw@[i as int + 1]@);
                }
                args.config = Some(raw[i + 1].clone());
                i = i + 2;
                continue;
            } else {
                return Err(ArgsError::MissingValue(owned(arg)));
            }
        } else if starts_with(arg, "--config=") {
            proof {
                reveal_strlit("--config=");
            }
            args.config = Some(text_after(arg, 9));
        } else {
            return Err(ArgsError::Unrecognised(owned(arg)));
        }
        i = i + 1;
    }
    Ok(args)
}

/// What the program does with a command line, in the order the flags are
/// honoured when several are given.
#[derive(Debug, Clone, Copy, PartialEq, Eq)]
pub enum Command {
    Help,
    Version,
    PrintConfig,
    ShowConfigPath,
    ResetConfig,
    FactoryReset,
    MigrateConfig,
    Run,
}

/// Which one thing a command line asks for: help first, then the version,
/// then the config commands, and the dashboard only when nothing else was
/// asked.
pub fn command_of(args: &Args) -> (c: Command)
    ensures
        c == (if args.help {
            Command::Help
        } else if args.version {
            Command::Version
        } else if args.print_config {
            Command::PrintConfig
        } else if args.show_config_path {
            Command::ShowConfigPath
        } else if args.reset_config {
            Command::ResetConfig
        } else if args.factory_reset {
            Command::FactoryReset
        } else if args.migrate_config {
            Command::MigrateConfig
        } else {
            Command::Run
        }),
{
    if args.help {
        Command::Help
    } else if args.version {
        Command::Version
    } else if args.print_config {
        Command::PrintConfig
    } else if args.show_config_path {
        Command::ShowConfigPath
    } else if args.reset_config {
        Command::ResetConfig
    } else if args.factory_reset {
        Command::FactoryReset
    } else if args.migrate_config {
        Command::MigrateConfig
    } else {
        Command::Run
    }
}

/// Whether an answer to "Go ahead? [y/N]" is a yes.
///
/// Anything but an explicit yes is a no, including an empty line: the
/// default has to be the outcome that loses nothing.
pub fn confirmed(answer: &str) -> (r: bool)
    ensures
        r == (trimmed(answer@).map_values(|c: char| ascii_lower(c)) == "y"@ || trimmed(
            answer@,
        ).map_values(|c: char| ascii_lower(c)) == "yes"@),
{
    let t = trim_lower(answer);
    same_text(t.as_str(), "y") || same_text(t.as_str(), "yes")
}

/// Each flag sets its own field and reading goes on after it: `-h` and
/// `--help` ask for help, `-V` and `--version` for the version, `-y` and
/// `--yes` answer yes in advance, each config command sets its own field,
/// and `-c` or `--config` takes the next argument as the path (and is an
/// error with none). Anything else stops the reading as unrecognised.
pub proof fn each_flag_sets_its_own_field(raw: Seq<Seq<char>>, i: int, acc: ArgsModel)
    requires
        0 <= i < raw.len(),
    ensures
        (raw[i] == "-h"@ || raw[i] == "--help"@) ==> parse_from(raw, i, acc) == parse_from(
            raw,
            i + 1,
            ArgsModel { help: true, ..acc },
        ),
        (raw[i] == "-V"@ || raw[i] == "--version"@) ==> parse_from(raw, i, acc) == parse_from(
            raw,
            i + 1,
            ArgsModel { version: true, ..acc },
        ),
        raw[i] == "--print-config"@ ==> parse_from(raw, i, acc) == parse_from(
            raw,
            i + 1,
            ArgsModel { print_config: true, ..acc },
        ),
        raw[i] == "--config-path"@ ==> parse_from(raw, i, acc) == parse_from(
            raw,
            i + 1,
            ArgsModel { show_config_path: true, ..acc },
        ),
        raw[i] == "--migrate-config"@ ==> parse_from(raw, i, acc) == parse_from(
            raw,
            i + 1,
            ArgsModel { migrate_config: true, ..acc },
        ),
        raw[i] == "--reset-config"@ ==> parse_from(raw, i, acc) == parse_from(
            raw,
            i + 1,
            ArgsModel { reset_config: true, ..acc },
        ),
        raw[i] == "--factory-reset"@ ==> parse_from(raw, i, acc) == parse_from(
            raw,
            i + 1,
            ArgsModel { factory_reset: true, ..acc },
        ),
        (raw[i] == "-y"@ || raw[i] == "--yes"@) ==> parse_from(raw, i, acc) == parse_from(
            raw,
            i + 1,
            ArgsModel { assume_yes: true, ..acc },
        ),
        (raw[i] == "-c"@ || raw[i] == "--config"@) && i + 1 < raw.len() ==> parse_from(raw, i, acc)
            == parse_from(raw, i + 2, ArgsModel { config: Some(raw[i + 1]), ..acc }),
        (raw[i] == "-c"@ || raw[i] == "--config"@) && i + 1 == raw.len() ==> parse_from(raw, i, acc)
            == Err::<ArgsModel, ArgsErrorModel>(ArgsErrorModel::MissingValue(raw[i])),
        raw[i] == "--bogus"@ ==> parse_from(raw, i, acc) == Err::<ArgsModel, ArgsErrorModel>(
            ArgsErrorModel::Unrecognised(raw[i]),
        ),
        parse_from(raw, raw.len() as int, acc) == Ok::<ArgsModel, ArgsErrorModel>(acc),
{
    reveal_strlit("--bogus");
    reveal_strlit("--config=");
    reveal_strlit("-h");
    reveal_strlit("--help");
    reveal_strlit("-V");
    reveal_strlit("--version");
    reveal_strlit("--print-config");
    reveal_strlit("--config-path");
    reveal_strlit("--migrate-config");
    reveal_strlit("--reset-config");
    reveal_strlit("--factory-reset");
    reveal_strlit("-y");
    reveal_strlit("--yes");
    reveal_strlit("-c");
    reveal_strlit("--config");
    assert("-V"@[1] != "-h"@[1]);
    assert("--reset-config"@[2] != "--print-config"@[2]);
    assert("--reset-config"@ != "--print-config"@);
    assert("-V"@ != "-h"@);
    assert("-c"@ != "-h"@ && "-c"@ != "-V"@ && "-c"@ != "-y"@) by {
        assert("-c"@[1] != "-h"@[1] && "-c"@[1] != "-V"@[1] && "-c"@[1] != "-y"@[1]);
    }
    assert("-c"@.len() == 2 && "--config"@.len() == 8);
    assert("--help"@.len() == 6 && "--version"@.len() == 9 && "--yes"@.len() == 5);
    assert("--print-config"@.len() == 14 && "--config-path"@.len() == 13);
    assert("--migrate-config"@.len() == 16 && "--reset-config"@.len() == 14);
    assert("--factory-reset"@.len() == 15);
    if raw[i] == "--bogus"@ {
        assert(!begins_with(raw[i], "--config="@)) by {
            assert(raw[i][2] == 'b');
            assert("--config="@[2] == 'c');
            if begins_with(raw[i], "--config="@) {
                assert(raw[i].take(9)[2] == raw[i][2]);
            }
        }
    }
}

} // verus!
