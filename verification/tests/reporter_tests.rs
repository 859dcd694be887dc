use cargo_rumpbake::options::ColorMode;
use cargo_rumpbake::options::OptionSet;
use cargo_rumpbake::options::RawOptions;
use cargo_rumpbake::reporter::Reporter;

fn options(verbose: bool, quiet: bool, color: Option<&str>) -> OptionSet {
    OptionSet::from_raw(RawOptions {
        output_name: None,
        packaging_config_path: None,
        binary_targets: vec![],
        example_targets: vec![],
        jobs: None,
        features: vec![],
        no_default_features: false,
        target_triple: None,
        manifest_path: None,
        verbose,
        quiet,
        color_mode: color.map(|c| c.to_owned()),
        release: false,
        packaging_profile: "hw_generic".to_owned(),
    })
    .unwrap()
}

#[test]
fn status_lines_are_shown_unless_quiet() {
    let r = Reporter::from_options(&options(false, false, None));
    let line = r.status("Baking".to_owned(), "demo.img".to_owned()).unwrap();
    assert_eq!(line.label, "Baking");
    assert_eq!(line.detail, "demo.img");
    let r = Reporter::from_options(&options(false, true, None));
    assert!(r.status("Baking".to_owned(), "demo.img".to_owned()).is_none());
}

#[test]
fn verbose_lines_are_shown_only_in_verbose_mode() {
    let r = Reporter::from_options(&options(false, false, None));
    assert!(r.verbose_only("Running".to_owned(), "rumpbake".to_owned()).is_none());
    let r = Reporter::from_options(&options(true, false, None));
    assert!(r.verbose_only("Running".to_owned(), "rumpbake".to_owned()).is_some());
}

#[test]
fn the_color_mode_is_resolved_once_at_start() {
    let r = Reporter::from_options(&options(false, false, Some("never")));
    assert_eq!(r.color, ColorMode::Never);
    let r = Reporter::from_options(&options(false, false, None));
    assert_eq!(r.color, ColorMode::Auto);
}
