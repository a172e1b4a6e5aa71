use neo_mangal::cli::{
    help_text, installed_line, list_item, listed_line, no_sources_text, parse_command, reset_line, sources_help_text,
    sources_usage_text, CliCommand,
};

fn args(v: &[&str]) -> Vec<String> {
    v.iter().map(|s| s.to_string()).collect()
}

#[test]
fn test_cli_commands() {
    assert_eq!(parse_command(&args(&[])), CliCommand::Interactive);
    assert_eq!(parse_command(&args(&["self-update"])), CliCommand::Update);
    assert_eq!(parse_command(&args(&["-v"])), CliCommand::Version);
    assert_eq!(parse_command(&args(&["-help"])), CliCommand::Help);
    assert_eq!(parse_command(&args(&["sources"])), CliCommand::SourcesList);
    assert_eq!(parse_command(&args(&["source", "install"])), CliCommand::SourcesInstall);
    assert_eq!(parse_command(&args(&["sources", "reset"])), CliCommand::SourcesReset);
    assert_eq!(parse_command(&args(&["sources", "dir"])), CliCommand::SourcesPath);
    assert_eq!(parse_command(&args(&["sources", "--help"])), CliCommand::SourcesHelp);
    assert_eq!(parse_command(&args(&["sources", "bogus"])), CliCommand::SourcesUsage);
    assert_eq!(parse_command(&args(&["whatever"])), CliCommand::Interactive);
}

#[test]
fn cli_texts() {
    assert!(help_text().starts_with("neo-mangal ⚡ Modern Manga TUI downloader and KCC processor\n\nUsage: neo-mangal [COMMAND]"));
    assert!(help_text().ends_with("Print this help message\n\nWithout arguments, starts the interactive TUI."));
    assert!(sources_help_text().starts_with("Usage: neo-mangal sources [COMMAND]\n\nCommands:\n  list "));
    assert_eq!(sources_usage_text(), "Usage: neo-mangal sources [install|list|reset|path]");
    assert_eq!(installed_line(8), "✓ Successfully installed 8 scrapers:");
    assert_eq!(listed_line(2), "󰋩 Installed manga scrapers (2) in ~/.config/neo-mangal/sources/:");
    assert_eq!(reset_line(0), "✓ Successfully reset scrapers. Active sources (0):");
    assert_eq!(list_item("MangaDex"), "  • MangaDex");
    assert!(no_sources_text().ends_with("to download official scrapers."));
}
