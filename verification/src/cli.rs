//! The command line: which command the arguments ask for.

use vstd::prelude::*;
use crate::text::{dec, decimal, str_eq};

verus! {

/// The commands of the program.
#[derive(Debug, Clone, Copy, PartialEq, Eq, Structural)]
pub enum CliCommand {
    /// No command: start the interactive window.
    Interactive,
    Update,
    Version,
    Help,
    SourcesList,
    SourcesInstall,
    SourcesReset,
    SourcesPath,
    SourcesHelp,
    /// An unknown `sources` subcommand: show its usage line.
    SourcesUsage,
}

/// The command that the arguments after the program's name ask for.
pub open spec fn command_of(args: Seq<Seq<char>>) -> CliCommand {
    if args.len() == 0 {
        CliCommand::Interactive
    } else {
        let a = args[0];
        if a == "update"@ || a == "self-update"@ {
            CliCommand::Update
        } else if a == "--version"@ || a == "-v"@ {
            CliCommand::Version
        } else if a == "-help"@ || a == "help"@ || a == "--help"@ || a == "-h"@ {
            CliCommand::Help
        } else if a == "sources"@ || a == "source"@ {
            let sub = if args.len() >= 2 {
                args[1]
            } else {
                "list"@
            };
            if sub == "install"@ {
                CliCommand::SourcesInstall
            } else if sub == "list"@ {
                CliCommand::SourcesList
            } else if sub == "reset"@ {
                CliCommand::SourcesReset
            } else if sub == "path"@ || sub == "dir"@ {
                CliCommand::SourcesPath
            } else if sub == "-h"@ || sub == "--help"@ || sub == "-help"@ || sub == "help"@ {
                CliCommand::SourcesHelp
            } else {
                CliCommand::SourcesUsage
            }
        } else {
            CliCommand::Interactive
        }
    }
}

/// The command that the arguments after the program's name ask for.
pub fn parse_command(args: &Vec<String>) -> (r: CliCommand)
    ensures
        r == command_of(args@.map_values(|s: String| s@)),
{
    let ghost v = args@.map_values(|s: String| s@);
    if args.len() == 0 {
        return CliCommand::Interactive;
    }
    let a = args[0].as_str();
    assert(a@ == v[0]);
    if str_eq(a, "update") || str_eq(a, "self-update") {
        CliCommand::Update
    } else if str_eq(a, "--version") || str_eq(a, "-v") {
        CliCommand::Version
    } else if str_eq(a, "-help") || str_eq(a, "help") || str_eq(a, "--help") || str_eq(a, "-h") {
        CliCommand::Help
    } else if str_eq(a, "sources") || str_eq(a, "source") {
        let sub = if args.len() >= 2 {
            args[1].as_str()
        } else {
            "list"
        };
        assert(sub@ == (if v.len() >= 2 {
            v[1]
        } else {
            "list"@
        }));
        if str_eq(sub, "install") {
            CliCommand::SourcesInstall
        } else if str_eq(sub, "list") {
            CliCommand::SourcesList
        } else if str_eq(sub, "reset") {
            CliCommand::SourcesReset
        } else if str_eq(sub, "path") || str_eq(sub, "dir") {
            CliCommand::SourcesPath
        } else if str_eq(sub, "-h") || str_eq(sub, "--help") || str_eq(sub, "-help") || str_eq(
            sub,
            "help",
        ) {
            CliCommand::SourcesHelp
        } else {
            CliCommand::SourcesUsage
        }
    } else {
        CliCommand::Interactive
    }
}

/// The program's help, printed by `--help`.
pub fn help_text() -> (r: &'static str)
    ensures
        r@ == "neo-mangal ⚡ Modern Manga TUI downloader and KCC processor\n\nUsage: neo-mangal [COMMAND]  (or: nmangal [COMMAND])\n\nCommands:\n  sources list                List all installed Lua manga scrapers (alias: source list)\n  sources install             Download or update official scrapers from GitHub\n  sources reset               Reset and resync scrapers with repository (alias: source reset)\n  sources path                Print directory path where scrapers are installed\n  update                      Update neo-mangal to the latest version via curl\n  -v, --version               Print version\n  -h, --help, -help, help     Print this help message\n\nWithout arguments, starts the interactive TUI."@,
{
    "neo-mangal ⚡ Modern Manga TUI downloader and KCC processor\n\nUsage: neo-mangal [COMMAND]  (or: nmangal [COMMAND])\n\nCommands:\n  sources list                List all installed Lua manga scrapers (alias: source list)\n  sources install             Download or update official scrapers from GitHub\n  sources reset               Reset and resync scrapers with repository (alias: source reset)\n  sources path                Print directory path where scrapers are installed\n  update                      Update neo-mangal to the latest version via curl\n  -v, --version               Print version\n  -h, --help, -help, help     Print this help message\n\nWithout arguments, starts the interactive TUI."
}

/// The help of the `sources` command.
pub fn sources_help_text() -> (r: &'static str)
    ensures
        r@ == "Usage: neo-mangal sources [COMMAND]\n\nCommands:\n  list       List all installed Lua manga scrapers (default)\n  install    Download official scrapers into ~/.config/neo-mangal/sources/\n  reset      Reset scrapers and resync with repository\n  path       Print path of scrapers directory\n"@,
{
    "Usage: neo-mangal sources [COMMAND]\n\nCommands:\n  list       List all installed Lua manga scrapers (default)\n  install    Download official scrapers into ~/.config/neo-mangal/sources/\n  reset      Reset scrapers and resync with repository\n  path       Print path of scrapers directory\n"
}

/// The usage line of the `sources` command, for an unknown subcommand.
pub fn sources_usage_text() -> (r: &'static str)
    ensures
        r@ == "Usage: neo-mangal sources [install|list|reset|path]"@,
{
    "Usage: neo-mangal sources [install|list|reset|path]"
}

/// What `sources list` prints where no scraper is installed.
pub fn no_sources_text() -> (r: &'static str)
    ensures
        r@ == "No scrapers found in ~/.config/neo-mangal/sources/.\nRun 'neo-mangal sources install' to download official scrapers."@,
{
    "No scrapers found in ~/.config/neo-mangal/sources/.\nRun 'neo-mangal sources install' to download official scrapers."
}

fn count_line(head: &str, n: usize, tail: &str) -> (r: String)
    ensures
        r@ == head@ + dec(n as nat) + tail@,
{
    let mut s = String::from_str(head);
    s.append(decimal(n as u64).as_str());
    s.append(tail);
    s
}

/// The line before the scrapers `sources install` installed.
pub fn installed_line(count: usize) -> (r: String)
    ensures
        r@ == "✓ Successfully installed "@ + dec(count as nat) + " scrapers:"@,
{
    count_line("✓ Successfully installed ", count, " scrapers:")
}

/// The line before the scrapers `sources list` found.
pub fn listed_line(count: usize) -> (r: String)
    ensures
        r@ == "󰋩 Installed manga scrapers ("@ + dec(count as nat) + ") in ~/.config/neo-mangal/sources/:"@,
{
    count_line("󰋩 Installed manga scrapers (", count, ") in ~/.config/neo-mangal/sources/:")
}

/// The line before the scrapers `sources reset` installed again.
pub fn reset_line(count: usize) -> (r: String)
    ensures
        r@ == "✓ Successfully reset scrapers. Active sources ("@ + dec(count as nat) + "):"@,
{
    count_line("✓ Successfully reset scrapers. Active sources (", count, "):")
}

/// A scraper in a printed list.
pub fn list_item(name: &str) -> (r: String)
    ensures
        r@ == "  • "@ + name@,
{
    let mut s = String::from_str("  • ");
    s.append(name);
    s
}

} // verus!
