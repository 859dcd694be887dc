use cargo_rumpbake::error::PipelineError;
use cargo_rumpbake::packaging::PackagingInvoker;
use cargo_rumpbake::packaging::render_command;

#[test]
fn default_output_name_is_project_name_dot_img() {
    let name = PackagingInvoker::output_name(None, &"foo".to_owned());
    assert_eq!(name, "foo.img".to_owned());
}

#[test]
fn explicit_output_name_wins() {
    let name = PackagingInvoker::output_name(Some("custom.img".to_owned()), &"foo".to_owned());
    assert_eq!(name, "custom.img".to_owned());
}

#[test]
fn config_flag_comes_before_the_profile() {
    let c = PackagingInvoker::build_command(
        &Some("rump.conf".to_owned()),
        &"hw_generic".to_owned(),
        &"foo.img".to_owned(),
        &vec!["/t/foo".to_owned()],
    );
    assert_eq!(
        c.args,
        vec![
            "-c".to_owned(),
            "rump.conf".to_owned(),
            "hw_generic".to_owned(),
            "foo.img".to_owned(),
            "/t/foo".to_owned(),
        ]
    );
}

#[test]
fn config_flag_is_omitted_entirely_when_absent() {
    let c = PackagingInvoker::build_command(
        &None,
        &"hw_generic".to_owned(),
        &"foo.img".to_owned(),
        &vec!["/t/foo".to_owned(), "/t/bar".to_owned()],
    );
    assert_eq!(
        c.args,
        vec![
            "hw_generic".to_owned(),
            "foo.img".to_owned(),
            "/t/foo".to_owned(),
            "/t/bar".to_owned(),
        ]
    );
}

#[test]
fn the_command_has_the_fixed_program_and_environment_override() {
    let c = PackagingInvoker::build_command(
        &None,
        &"hw_generic".to_owned(),
        &"foo.img".to_owned(),
        &vec!["/t/foo".to_owned()],
    );
    assert_eq!(c.program, "rumpbake".to_owned());
    assert_eq!(c.env_name, "RUMPRUN_WARNING_STFU".to_owned());
    assert_eq!(c.env_value, "please".to_owned());
}

#[test]
fn a_command_renders_as_program_then_arguments() {
    let c = PackagingInvoker::build_command(
        &None,
        &"hw_generic".to_owned(),
        &"foo.img".to_owned(),
        &vec!["/t/foo".to_owned()],
    );
    assert_eq!(render_command(&c), "rumpbake hw_generic foo.img /t/foo".to_owned());
}

#[test]
fn zero_exit_is_success() {
    assert!(PackagingInvoker::classify_exit(0).is_ok());
}

#[test]
fn nonzero_exit_is_a_packaging_failure_with_that_status() {
    match PackagingInvoker::classify_exit(3).unwrap_err() {
        PipelineError::PackagingFailed(status) => assert_eq!(status, 3),
        _ => panic!("expected a packaging failure"),
    }
}
