use cargo_rumpbake::error::PipelineError;
use cargo_rumpbake::orchestrator::BuildOrchestrator;
use cargo_rumpbake::orchestrator::CompileResult;

#[test]
fn zero_binaries_is_the_distinct_configuration_error() {
    let r = BuildOrchestrator::accept(Ok(CompileResult { binaries: vec![] }));
    let e = r.unwrap_err();
    assert!(matches!(e, PipelineError::NoBinaryProduced));
    assert_eq!(e.exit_code(), 1);
}

#[test]
fn backend_error_is_wrapped_verbatim() {
    let r = BuildOrchestrator::accept(Err("expected one of: a, b".to_owned()));
    match r.unwrap_err() {
        PipelineError::BuildFailed(cause) => assert_eq!(cause, "expected one of: a, b".to_owned()),
        _ => panic!("expected a backend failure"),
    }
}

#[test]
fn produced_binaries_are_accepted_in_order() {
    let r = BuildOrchestrator::accept(Ok(CompileResult {
        binaries: vec!["/t/a".to_owned(), "/t/b".to_owned()],
    }));
    assert_eq!(r.unwrap(), vec!["/t/a".to_owned(), "/t/b".to_owned()]);
}
