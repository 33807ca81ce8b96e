use playground_service::protocol::{Event, Failure};
use playground_service::response::CompileResponse;
use playground_service::runner::{collect, react, rejection, Phase, Progress, BUILD_TIMEOUT_SECS};

fn all_phases() -> [Phase; 4] {
    [Phase::Writing, Phase::Compiling, Phase::Bundling, Phase::Collecting]
}

#[test]
fn a_run_may_take_four_seconds() {
    assert_eq!(BUILD_TIMEOUT_SECS, 4);
}

#[test]
fn written_source_is_compiled() {
    assert_eq!(react(Phase::Writing, Event::SourceWritten { ok: true }), Progress::Compile);
}

#[test]
fn unwritable_workspace_is_a_fault() {
    assert_eq!(
        react(Phase::Writing, Event::SourceWritten { ok: false }),
        Progress::Done(Err(Failure::WorkspaceIo))
    );
}

#[test]
fn accepted_program_is_bundled() {
    let event = Event::CompilerExited { success: true, stderr: b"warning: unused".to_vec() };
    assert_eq!(react(Phase::Compiling, event), Progress::Bundle);
}

#[test]
fn rejected_program_is_a_result_with_the_diagnostics() {
    let event = Event::CompilerExited { success: false, stderr: b"error: no main".to_vec() };
    assert_eq!(
        react(Phase::Compiling, event),
        Progress::Done(Ok(CompileResponse::CompileError("error: no main".to_string())))
    );
}

#[test]
fn rejected_program_with_empty_diagnostics() {
    let event = Event::CompilerExited { success: false, stderr: Vec::new() };
    assert_eq!(
        react(Phase::Compiling, event),
        Progress::Done(Ok(CompileResponse::CompileError(String::new())))
    );
}

#[test]
fn ill_formed_diagnostics_are_read_leniently() {
    let event = Event::CompilerExited { success: false, stderr: vec![b'a', 0xff, b'b'] };
    assert_eq!(
        react(Phase::Compiling, event),
        Progress::Done(Ok(CompileResponse::CompileError("a\u{fffd}b".to_string())))
    );
}

#[test]
fn compiler_that_cannot_start_is_a_fault() {
    assert_eq!(
        react(Phase::Compiling, Event::SpawnFailed),
        Progress::Done(Err(Failure::ProcessSpawn))
    );
}

#[test]
fn bundler_that_cannot_start_is_a_fault() {
    assert_eq!(
        react(Phase::Bundling, Event::SpawnFailed),
        Progress::Done(Err(Failure::ProcessSpawn))
    );
}

#[test]
fn after_the_bundler_the_artifacts_are_read() {
    assert_eq!(react(Phase::Bundling, Event::BundlerExited), Progress::Collect);
}

#[test]
fn both_artifacts_make_a_success() {
    let event = Event::Collected { js: Some(b"init()".to_vec()), wasm: Some(vec![0, 1, 0]) };
    assert_eq!(
        react(Phase::Collecting, event),
        Progress::Done(Ok(CompileResponse::Success {
            js: "init()".to_string(),
            wasm: vec![0, 1, 0]
        }))
    );
}

#[test]
fn empty_artifacts_make_a_success() {
    assert_eq!(
        collect(Some(Vec::new()), Some(Vec::new())),
        Ok(CompileResponse::Success { js: String::new(), wasm: Vec::new() })
    );
}

#[test]
fn missing_artifact_is_a_fault() {
    assert_eq!(collect(None, Some(vec![1])), Err(Failure::ArtifactMissing));
    assert_eq!(collect(Some(b"x".to_vec()), None), Err(Failure::ArtifactMissing));
    assert_eq!(collect(None, None), Err(Failure::ArtifactMissing));
    assert_eq!(
        react(Phase::Collecting, Event::Collected { js: None, wasm: Some(vec![1]) }),
        Progress::Done(Err(Failure::ArtifactMissing))
    );
}

#[test]
fn script_that_is_not_text_is_a_fault() {
    assert_eq!(collect(Some(vec![0xff, 0xfe]), Some(vec![1])), Err(Failure::ArtifactMissing));
}

#[test]
fn time_may_run_out_in_every_phase() {
    for phase in all_phases() {
        assert_eq!(react(phase, Event::TimedOut), Progress::Done(Err(Failure::Timeout)));
    }
}

#[test]
fn events_out_of_place_are_unexpected() {
    assert_eq!(react(Phase::Writing, Event::BundlerExited), Progress::Unexpected);
    assert_eq!(react(Phase::Writing, Event::SpawnFailed), Progress::Unexpected);
    assert_eq!(
        react(Phase::Compiling, Event::SourceWritten { ok: true }),
        Progress::Unexpected
    );
    assert_eq!(
        react(Phase::Bundling, Event::CompilerExited { success: true, stderr: Vec::new() }),
        Progress::Unexpected
    );
    assert_eq!(react(Phase::Collecting, Event::SpawnFailed), Progress::Unexpected);
    assert_eq!(
        react(Phase::Compiling, Event::Collected { js: None, wasm: None }),
        Progress::Unexpected
    );
    for phase in all_phases() {
        assert_eq!(react(phase, Event::Stored { ok: true }), Progress::Unexpected);
    }
}

#[test]
fn rejection_wraps_the_text() {
    assert_eq!(
        rejection("E0425".to_string()),
        Progress::Done(Ok(CompileResponse::CompileError("E0425".to_string())))
    );
}
