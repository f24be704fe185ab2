use certstream_server::cli::{default_user_agent, CliArgs};

fn args(flags: &[&str]) -> Vec<String> {
    std::iter::once("certstream-server-rust".to_string())
        .chain(flags.iter().map(|s| s.to_string()))
        .collect()
}

#[test]
fn no_flags_are_all_false() {
    let parsed = CliArgs::parse_from(args(&[]));
    assert!(!parsed.validate_config);
    assert!(!parsed.dry_run);
    assert!(!parsed.export_metrics);
    assert!(!parsed.show_version);
    assert!(!parsed.show_help);
}

#[test]
fn validate_config_flag() {
    assert!(CliArgs::parse_from(args(&["--validate-config"])).validate_config);
}

#[test]
fn dry_run_flag() {
    assert!(CliArgs::parse_from(args(&["--dry-run"])).dry_run);
}

#[test]
fn export_metrics_flag() {
    assert!(CliArgs::parse_from(args(&["--export-metrics"])).export_metrics);
}

#[test]
fn version_flag_long_and_short() {
    assert!(CliArgs::parse_from(args(&["--version"])).show_version);
    assert!(CliArgs::parse_from(args(&["-V"])).show_version);
}

#[test]
fn help_flag_long_and_short() {
    assert!(CliArgs::parse_from(args(&["--help"])).show_help);
    assert!(CliArgs::parse_from(args(&["-h"])).show_help);
}

#[test]
fn multiple_flags_combine() {
    let parsed = CliArgs::parse_from(args(&["--dry-run", "--validate-config"]));
    assert!(parsed.dry_run);
    assert!(parsed.validate_config);
    assert!(!parsed.export_metrics);
}

#[test]
fn unknown_args_are_ignored() {
    let parsed = CliArgs::parse_from(args(&["--not-a-real-flag", "positional"]));
    assert!(!parsed.validate_config);
    assert!(!parsed.dry_run);
    assert!(!parsed.export_metrics);
    assert!(!parsed.show_version);
    assert!(!parsed.show_help);
}

#[test]
fn a_flag_must_match_exactly() {
    let parsed = CliArgs::parse_from(args(&["--dry-run=1", "--Version", "-v", "--hel", "--helpé"]));
    assert!(!parsed.dry_run);
    assert!(!parsed.show_version);
    assert!(!parsed.show_help);
}

#[test]
fn order_and_repetition_of_flags_do_not_matter() {
    let once = CliArgs::parse_from(args(&["-V", "x", "--dry-run"]));
    let twice = CliArgs::parse_from(args(&["--dry-run", "-V", "--dry-run", "x"]));
    assert_eq!(once.dry_run, twice.dry_run);
    assert_eq!(once.show_version, twice.show_version);
    assert!(twice.dry_run && twice.show_version && !twice.show_help);
}

#[test]
fn a_flag_counts_in_first_place_too() {
    assert!(CliArgs::parse_from(vec!["--help".to_string()]).show_help);
    assert!(!CliArgs::parse_from(Vec::new()).show_help);
}

#[test]
fn print_version_does_not_panic() {
    assert_eq!(CliArgs::version_line("1.5.0"), "certstream-server-rust 1.5.0");
}

#[test]
fn print_help_does_not_panic() {
    let lines = CliArgs::help_lines("1.5.0");
    assert_eq!(lines.len(), 23);
    assert_eq!(lines[0], "certstream-server-rust 1.5.0");
    assert_eq!(lines[1], "");
    assert_eq!(lines[8], "    --validate-config    Validate configuration and exit");
    assert_eq!(
        lines[22],
        "For more information, see: https://github.com/reloading01/certstream-server-rust"
    );
}

#[test]
fn user_agent_is_made_from_the_version() {
    let agent = default_user_agent("1.5.0");
    assert_eq!(agent, "certstream-server-rust/1.5.0");
    assert!(agent.starts_with("certstream-server-rust/"));
    assert!(agent.ends_with("1.5.0"));
}
