use cargo_rumpbake::error::PipelineError;
use cargo_rumpbake::options::ColorMode;
use cargo_rumpbake::options::OptionSet;
use cargo_rumpbake::options::RawOptions;

fn raw(profile: &str) -> RawOptions {
    RawOptions {
        output_name: None,
        packaging_config_path: None,
        binary_targets: vec![],
        example_targets: vec![],
        jobs: None,
        features: vec![],
        no_default_features: false,
        target_triple: None,
        manifest_path: None,
        verbose: false,
        quiet: false,
        color_mode: None,
        release: false,
        packaging_profile: profile.to_owned(),
    }
}

#[test]
fn plain_options_are_accepted_unchanged() {
    let mut r = raw("hw_generic");
    r.output_name = Some("a.img".to_owned());
    r.jobs = Some(4);
    r.features = vec!["f1".to_owned(), "f2".to_owned()];
    r.release = true;
    let o = OptionSet::from_raw(r).unwrap();
    assert_eq!(o.output_name, Some("a.img".to_owned()));
    assert_eq!(o.jobs, Some(4));
    assert_eq!(o.features, vec!["f1".to_owned(), "f2".to_owned()]);
    assert!(o.release);
    assert_eq!(o.packaging_profile, "hw_generic".to_owned());
    assert_eq!(o.color_mode, None);
}

#[test]
fn verbose_and_quiet_conflict_is_rejected() {
    let mut r = raw("hw_generic");
    r.verbose = true;
    r.quiet = true;
    let e = OptionSet::from_raw(r).unwrap_err();
    assert!(matches!(e, PipelineError::InvalidOptions(_)));
}

#[test]
fn verbose_alone_is_accepted() {
    let mut r = raw("hw_generic");
    r.verbose = true;
    let o = OptionSet::from_raw(r).unwrap();
    assert!(o.verbose);
    assert!(!o.quiet);
}

#[test]
fn zero_jobs_is_rejected() {
    let mut r = raw("hw_generic");
    r.jobs = Some(0);
    let e = OptionSet::from_raw(r).unwrap_err();
    assert!(matches!(e, PipelineError::InvalidOptions(_)));
}

#[test]
fn color_words_resolve() {
    for (word, mode) in [
        ("auto", ColorMode::Auto),
        ("always", ColorMode::Always),
        ("never", ColorMode::Never),
    ] {
        let mut r = raw("hw_generic");
        r.color_mode = Some(word.to_owned());
        let o = OptionSet::from_raw(r).unwrap();
        assert_eq!(o.color_mode, Some(mode));
    }
}

#[test]
fn unknown_color_word_is_rejected() {
    let mut r = raw("hw_generic");
    r.color_mode = Some("sometimes".to_owned());
    let e = OptionSet::from_raw(r).unwrap_err();
    assert!(matches!(e, PipelineError::InvalidOptions(_)));
}
