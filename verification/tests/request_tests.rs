use cargo_rumpbake::options::OptionSet;
use cargo_rumpbake::options::RawOptions;
use cargo_rumpbake::project::ProjectHandle;
use cargo_rumpbake::request::CompileRequestBuilder;
use cargo_rumpbake::request::default_target_triple;
use cargo_rumpbake::selection::ArtifactSelection;

fn options_with(target_triple: Option<&str>) -> OptionSet {
    OptionSet::from_raw(RawOptions {
        output_name: None,
        packaging_config_path: None,
        binary_targets: vec![],
        example_targets: vec![],
        jobs: Some(2),
        features: vec!["net".to_owned()],
        no_default_features: true,
        target_triple: target_triple.map(|t| t.to_owned()),
        manifest_path: None,
        verbose: false,
        quiet: false,
        color_mode: None,
        release: true,
        packaging_profile: "hw_generic".to_owned(),
    })
    .unwrap()
}

fn project() -> ProjectHandle {
    ProjectHandle { root_dir: "/work/demo".to_owned(), name: "demo".to_owned() }
}

#[test]
fn missing_triple_gets_the_fixed_default() {
    let o = options_with(None);
    let r = CompileRequestBuilder::build(&o, &project(), ArtifactSelection::Everything);
    assert_eq!(r.target_triple, "x86_64-rumprun-netbsd".to_owned());
    assert_eq!(r.target_triple, default_target_triple());
}

#[test]
fn explicit_triple_wins_exactly() {
    let o = options_with(Some("aarch64-unknown-none"));
    let r = CompileRequestBuilder::build(&o, &project(), ArtifactSelection::Everything);
    assert_eq!(r.target_triple, "aarch64-unknown-none".to_owned());
}

#[test]
fn fields_are_carried_through_unchanged() {
    let o = options_with(None);
    let r = CompileRequestBuilder::build(&o, &project(), ArtifactSelection::Everything);
    assert_eq!(r.jobs, Some(2));
    assert_eq!(r.features, vec!["net".to_owned()]);
    assert!(r.no_default_features);
    assert!(r.release);
    assert!(matches!(r.selection, ArtifactSelection::Everything));
    assert_eq!(r.project_root, "/work/demo".to_owned());
}
