use cargo_rumpbake::cli::CliOutcome;
use cargo_rumpbake::cli::parse_args;
use cargo_rumpbake::cli::parse_u32;

fn toks(words: &[&str]) -> Vec<String> {
    words.iter().map(|w| (*w).to_owned()).collect()
}

fn accepted(words: &[&str]) -> cargo_rumpbake::options::RawOptions {
    match parse_args(&toks(words)) {
        CliOutcome::Accepted(raw) => raw,
        _ => panic!("expected the command line to be accepted"),
    }
}

#[test]
fn a_bare_profile_is_accepted_with_defaults() {
    let raw = accepted(&["hw_generic"]);
    assert_eq!(raw.packaging_profile, "hw_generic");
    assert_eq!(raw.output_name, None);
    assert_eq!(raw.jobs, None);
    assert!(!raw.release);
    assert!(raw.binary_targets.is_empty());
}

#[test]
fn every_flag_kind_is_decoded() {
    let raw = accepted(&[
        "-c", "rump.conf", "--output", "x.img", "--bin", "a", "--bin", "b", "--example", "e",
        "-j", "8", "--features", "net tls", "--no-default-features", "--target", "t-t-t",
        "--manifest-path", "/m/Cargo.toml", "-v", "--color", "never", "--release", "hw_generic",
    ]);
    assert_eq!(raw.packaging_config_path, Some("rump.conf".to_owned()));
    assert_eq!(raw.output_name, Some("x.img".to_owned()));
    assert_eq!(raw.binary_targets, vec!["a".to_owned(), "b".to_owned()]);
    assert_eq!(raw.example_targets, vec!["e".to_owned()]);
    assert_eq!(raw.jobs, Some(8));
    assert_eq!(raw.features, vec!["net tls".to_owned()]);
    assert!(raw.no_default_features);
    assert_eq!(raw.target_triple, Some("t-t-t".to_owned()));
    assert_eq!(raw.manifest_path, Some("/m/Cargo.toml".to_owned()));
    assert!(raw.verbose);
    assert!(!raw.quiet);
    assert_eq!(raw.color_mode, Some("never".to_owned()));
    assert!(raw.release);
    assert_eq!(raw.packaging_profile, "hw_generic");
}

#[test]
fn help_wins_wherever_it_stands() {
    assert!(matches!(parse_args(&toks(&["-h"])), CliOutcome::Help));
    assert!(matches!(parse_args(&toks(&["hw_generic", "--help"])), CliOutcome::Help));
}

#[test]
fn a_missing_profile_is_rejected() {
    assert!(matches!(parse_args(&toks(&["--release"])), CliOutcome::Rejected(_)));
    assert!(matches!(parse_args(&toks(&[])), CliOutcome::Rejected(_)));
}

#[test]
fn a_flag_without_its_value_is_rejected() {
    assert!(matches!(parse_args(&toks(&["hw_generic", "-o"])), CliOutcome::Rejected(_)));
}

#[test]
fn an_unknown_flag_is_rejected() {
    assert!(matches!(parse_args(&toks(&["--fast", "hw_generic"])), CliOutcome::Rejected(_)));
}

#[test]
fn a_second_positional_token_is_rejected() {
    assert!(matches!(parse_args(&toks(&["hw_generic", "again"])), CliOutcome::Rejected(_)));
}

#[test]
fn a_non_numeric_jobs_value_is_rejected() {
    assert!(matches!(parse_args(&toks(&["-j", "many", "hw_generic"])), CliOutcome::Rejected(_)));
}

#[test]
fn decimal_values_parse_exactly() {
    assert_eq!(parse_u32(&"0".to_owned()), Some(0));
    assert_eq!(parse_u32(&"42".to_owned()), Some(42));
    assert_eq!(parse_u32(&"4294967295".to_owned()), Some(u32::MAX));
    assert_eq!(parse_u32(&"4294967296".to_owned()), None);
    assert_eq!(parse_u32(&"".to_owned()), None);
    assert_eq!(parse_u32(&"1x2".to_owned()), None);
    assert_eq!(parse_u32(&"-1".to_owned()), None);
}

#[test]
fn a_repeated_single_valued_flag_keeps_the_later_value() {
    let raw = accepted(&["-o", "a.img", "-o", "b.img", "hw_generic"]);
    assert_eq!(raw.output_name, Some("b.img".to_owned()));
}
