use playground_service::codec::{decode, encode};
use playground_service::key::CacheKey;
use playground_service::protocol::{Event, Failure, Step};
use playground_service::reply::{reply_to, serve_entry};
use playground_service::response::{CompileRequest, CompileResponse};
use playground_service::service::{Admission, CompileService};

fn request(code: &str) -> CompileRequest {
    CompileRequest { code: code.to_string() }
}

fn built(js: &str, wasm: &[u8]) -> Event {
    Event::Collected { js: Some(js.as_bytes().to_vec()), wasm: Some(wasm.to_vec()) }
}

fn ticket_of(admission: Admission) -> u64 {
    match admission {
        Admission::Miss { ticket } => ticket,
        Admission::Hit { .. } => panic!("the request was served from the cache"),
    }
}

/// Runs the toolchain steps of `ticket` up to the reading of the artifacts.
fn run_until_collect(service: &mut CompileService, ticket: u64, req: &CompileRequest) {
    assert_eq!(
        service.begin(ticket, req),
        Step::WriteSource { code: req.code.as_bytes().to_vec() }
    );
    assert_eq!(service.advance(ticket, Event::SourceWritten { ok: true }), Step::Compile);
    let exited = Event::CompilerExited { success: true, stderr: Vec::new() };
    assert_eq!(service.advance(ticket, exited), Step::Bundle);
    assert_eq!(service.advance(ticket, Event::BundlerExited), Step::Collect);
}

/// Builds `req` with success and stores the entry. Returns the answer.
fn build_and_store(
    service: &mut CompileService,
    ticket: u64,
    req: &CompileRequest,
    js: &str,
    wasm: &[u8],
) -> Vec<u8> {
    run_until_collect(service, ticket, req);
    let expected =
        encode(&CompileResponse::Success { js: js.to_string(), wasm: wasm.to_vec() });
    let key = CacheKey::of(&req.code);
    assert_eq!(
        service.advance(ticket, built(js, wasm)),
        Step::Store { key, bytes: expected.clone() }
    );
    assert_eq!(
        service.advance(ticket, Event::Stored { ok: true }),
        Step::Finish(Ok(expected.clone()))
    );
    expected
}

#[test]
fn new_service_is_idle() {
    let service = CompileService::new();
    assert!(!service.is_building());
    assert!(!service.is_turn(0));
    assert!(service.has_ticket());
}

#[test]
fn first_request_misses_and_gets_ticket_zero() {
    let mut service = CompileService::new();
    assert_eq!(service.submit(&request("fn main() {}")), Admission::Miss { ticket: 0 });
    assert!(service.is_turn(0));
    assert!(!service.is_building());
}

#[test]
fn same_source_twice_builds_once() {
    let mut service = CompileService::new();
    let req = request("fn main() { println!(\"hi\"); }");
    let ticket = ticket_of(service.submit(&req));
    let first = build_and_store(&mut service, ticket, &req, "init()", &[0, 97, 115, 109]);

    let again = service.submit(&req);
    assert_eq!(again, Admission::Hit { key: CacheKey::of(&req.code) });
    assert!(!service.is_building());
    assert!(!service.is_turn(ticket + 1));
    assert_eq!(service.begin(ticket + 1, &req), Step::Ignored);

    let second = serve_entry(Some(first.clone())).unwrap();
    assert_eq!(first, second);
    assert_eq!(decode(&first), decode(&second));
    assert_eq!(
        decode(&second),
        Some(CompileResponse::Success { js: "init()".to_string(), wasm: vec![0, 97, 115, 109] })
    );
    assert_eq!(reply_to(Ok(first)).status, 200);
}

#[test]
fn hit_names_the_file_of_the_entry() {
    let mut service = CompileService::new();
    let req = request("");
    let ticket = ticket_of(service.submit(&req));
    build_and_store(&mut service, ticket, &req, "", &[]);
    match service.submit(&req) {
        Admission::Hit { key } => {
            assert_eq!(key.file_name(), "47DEQpj8HBSa-_TImW-5JCeuQeRkm5NMpJWZG3hSuFU=.bin")
        }
        Admission::Miss { .. } => panic!("the entry was not recorded"),
    }
}

#[test]
fn rejected_source_twice_builds_twice() {
    let mut service = CompileService::new();
    let req = request("fn main() { let x: u32 = \"\"; }");
    let diagnostics = b"error[E0308]: mismatched types".to_vec();
    let expected = encode(&CompileResponse::CompileError(
        "error[E0308]: mismatched types".to_string(),
    ));

    for round in 0..2u64 {
        let ticket = ticket_of(service.submit(&req));
        assert_eq!(ticket, round);
        assert_eq!(
            service.begin(ticket, &req),
            Step::WriteSource { code: req.code.as_bytes().to_vec() }
        );
        assert_eq!(service.advance(ticket, Event::SourceWritten { ok: true }), Step::Compile);
        let exited = Event::CompilerExited { success: false, stderr: diagnostics.clone() };
        assert_eq!(service.advance(ticket, exited), Step::Finish(Ok(expected.clone())));
        assert!(!service.is_building());
    }
    assert_eq!(service.submit(&req), Admission::Miss { ticket: 2 });
    assert_eq!(reply_to(Ok(expected)).status, 200);
}

#[test]
fn two_sources_never_build_at_once() {
    let mut service = CompileService::new();
    let one = request("fn main() { one(); }");
    let two = request("fn main() { two(); }");
    let a = ticket_of(service.submit(&one));
    let b = ticket_of(service.submit(&two));
    assert_eq!((a, b), (0, 1));

    assert_eq!(service.begin(b, &two), Step::Wait);
    assert_eq!(service.begin(a, &one), Step::WriteSource { code: one.code.as_bytes().to_vec() });
    assert_eq!(service.begin(b, &two), Step::Wait);
    assert_eq!(service.advance(b, Event::SourceWritten { ok: true }), Step::Ignored);
    assert_eq!(service.advance(a, Event::SourceWritten { ok: true }), Step::Compile);
    assert_eq!(service.begin(b, &two), Step::Wait);
    assert_eq!(service.advance(b, Event::TimedOut), Step::Ignored);
    let exited = Event::CompilerExited { success: true, stderr: Vec::new() };
    assert_eq!(service.advance(a, exited), Step::Bundle);
    assert_eq!(service.advance(a, Event::BundlerExited), Step::Collect);
    assert_eq!(service.begin(b, &two), Step::Wait);
    assert!(matches!(service.advance(a, built("one", &[1])), Step::Store { .. }));
    assert_eq!(service.begin(b, &two), Step::Wait);
    assert!(matches!(service.advance(a, Event::Stored { ok: true }), Step::Finish(Ok(_))));

    assert!(service.is_turn(b));
    assert_eq!(service.begin(b, &two), Step::WriteSource { code: two.code.as_bytes().to_vec() });
    assert_eq!(service.begin(a, &one), Step::Ignored);
    assert_eq!(service.advance(a, Event::SourceWritten { ok: true }), Step::Ignored);
}

#[test]
fn build_cannot_begin_twice() {
    let mut service = CompileService::new();
    let req = request("fn main() {}");
    let ticket = ticket_of(service.submit(&req));
    assert!(matches!(service.begin(ticket, &req), Step::WriteSource { .. }));
    assert_eq!(service.begin(ticket, &req), Step::Ignored);
    assert!(service.is_building());
}

#[test]
fn ticket_that_was_never_taken_is_ignored() {
    let mut service = CompileService::new();
    let req = request("fn main() {}");
    assert_eq!(service.begin(0, &req), Step::Ignored);
    assert_eq!(service.advance(0, Event::SourceWritten { ok: true }), Step::Ignored);
    assert!(!service.is_building());
}

#[test]
fn timeout_ends_the_build_and_frees_the_section() {
    let mut service = CompileService::new();
    let slow = request("fn main() { loop {} }");
    let fast = request("fn main() {}");
    let a = ticket_of(service.submit(&slow));
    assert!(matches!(service.begin(a, &slow), Step::WriteSource { .. }));
    assert_eq!(service.advance(a, Event::SourceWritten { ok: true }), Step::Compile);
    let step = service.advance(a, Event::TimedOut);
    assert_eq!(step, Step::Finish(Err(Failure::Timeout)));
    assert_eq!(reply_to(Err(Failure::Timeout)).status, 408);
    assert!(!service.is_building());

    let b = ticket_of(service.submit(&fast));
    assert_eq!(b, 1);
    let answer = build_and_store(&mut service, b, &fast, "ok", &[9]);
    assert_eq!(decode(&answer), Some(CompileResponse::Success { js: "ok".to_string(), wasm: vec![9] }));
    assert_eq!(service.submit(&slow), Admission::Miss { ticket: 2 });
}

#[test]
fn timeout_lets_a_waiting_request_build() {
    let mut service = CompileService::new();
    let slow = request("slow");
    let fast = request("fast");
    let a = ticket_of(service.submit(&slow));
    let b = ticket_of(service.submit(&fast));
    assert!(matches!(service.begin(a, &slow), Step::WriteSource { .. }));
    assert_eq!(service.begin(b, &fast), Step::Wait);
    assert_eq!(service.advance(a, Event::TimedOut), Step::Finish(Err(Failure::Timeout)));
    assert!(matches!(service.begin(b, &fast), Step::WriteSource { .. }));
}

#[test]
fn timeout_is_not_awaited_while_storing() {
    let mut service = CompileService::new();
    let req = request("fn main() {}");
    let ticket = ticket_of(service.submit(&req));
    run_until_collect(&mut service, ticket, &req);
    assert!(matches!(service.advance(ticket, built("x", &[1])), Step::Store { .. }));
    assert_eq!(service.advance(ticket, Event::TimedOut), Step::Ignored);
    assert!(service.is_building());
    assert!(matches!(service.advance(ticket, Event::Stored { ok: true }), Step::Finish(Ok(_))));
}

#[test]
fn identical_new_sources_both_build() {
    let mut service = CompileService::new();
    let req = request("fn main() { same(); }");
    let a = ticket_of(service.submit(&req));
    let b = ticket_of(service.submit(&req));
    assert_eq!((a, b), (0, 1));

    let first = build_and_store(&mut service, a, &req, "same", &[0, 1, 2]);

    run_until_collect(&mut service, b, &req);
    let second = service.advance(b, built("same", &[0, 1, 2]));
    assert_eq!(second, Step::Finish(Ok(first.clone())));
    assert!(!service.is_building());
    assert_eq!(service.begin(b, &req), Step::Ignored);
    assert_eq!(service.begin(a, &req), Step::Ignored);

    let second = match second {
        Step::Finish(Ok(bytes)) => bytes,
        _ => panic!("the second build did not finish"),
    };
    assert_eq!(decode(&first), decode(&second));
    assert!(matches!(service.submit(&req), Admission::Hit { .. }));
}

#[test]
fn entry_is_not_written_again() {
    let mut service = CompileService::new();
    let req = request("fn main() {}");
    let a = ticket_of(service.submit(&req));
    let b = ticket_of(service.submit(&req));
    build_and_store(&mut service, a, &req, "first", &[1]);
    run_until_collect(&mut service, b, &req);
    let other = encode(&CompileResponse::Success { js: "second".to_string(), wasm: vec![2] });
    assert_eq!(service.advance(b, built("second", &[2])), Step::Finish(Ok(other)));
}

#[test]
fn failed_cache_write_is_a_fault_and_records_nothing() {
    let mut service = CompileService::new();
    let req = request("fn main() {}");
    let ticket = ticket_of(service.submit(&req));
    run_until_collect(&mut service, ticket, &req);
    assert!(matches!(service.advance(ticket, built("x", &[1])), Step::Store { .. }));
    assert_eq!(
        service.advance(ticket, Event::Stored { ok: false }),
        Step::Finish(Err(Failure::CacheIo))
    );
    assert_eq!(reply_to(Err(Failure::CacheIo)).status, 500);
    assert_eq!(service.submit(&req), Admission::Miss { ticket: 1 });
}

#[test]
fn compiler_that_cannot_start_fails_the_request() {
    let mut service = CompileService::new();
    let req = request("fn main() {}");
    let ticket = ticket_of(service.submit(&req));
    assert!(matches!(service.begin(ticket, &req), Step::WriteSource { .. }));
    assert_eq!(service.advance(ticket, Event::SourceWritten { ok: true }), Step::Compile);
    assert_eq!(
        service.advance(ticket, Event::SpawnFailed),
        Step::Finish(Err(Failure::ProcessSpawn))
    );
    assert!(!service.is_building());
    assert_eq!(service.submit(&req), Admission::Miss { ticket: 1 });
}

#[test]
fn bundler_that_cannot_start_fails_the_request() {
    let mut service = CompileService::new();
    let req = request("fn main() {}");
    let ticket = ticket_of(service.submit(&req));
    assert!(matches!(service.begin(ticket, &req), Step::WriteSource { .. }));
    assert_eq!(service.advance(ticket, Event::SourceWritten { ok: true }), Step::Compile);
    let exited = Event::CompilerExited { success: true, stderr: Vec::new() };
    assert_eq!(service.advance(ticket, exited), Step::Bundle);
    assert_eq!(
        service.advance(ticket, Event::SpawnFailed),
        Step::Finish(Err(Failure::ProcessSpawn))
    );
}

#[test]
fn missing_artifact_fails_the_request_and_caches_nothing() {
    let mut service = CompileService::new();
    let req = request("fn main() {}");
    let ticket = ticket_of(service.submit(&req));
    run_until_collect(&mut service, ticket, &req);
    let event = Event::Collected { js: Some(b"x".to_vec()), wasm: None };
    assert_eq!(service.advance(ticket, event), Step::Finish(Err(Failure::ArtifactMissing)));
    assert_eq!(reply_to(Err(Failure::ArtifactMissing)).status, 500);
    assert_eq!(service.submit(&req), Admission::Miss { ticket: 1 });
}

#[test]
fn unwritable_workspace_fails_the_request() {
    let mut service = CompileService::new();
    let req = request("fn main() {}");
    let ticket = ticket_of(service.submit(&req));
    assert!(matches!(service.begin(ticket, &req), Step::WriteSource { .. }));
    assert_eq!(
        service.advance(ticket, Event::SourceWritten { ok: false }),
        Step::Finish(Err(Failure::WorkspaceIo))
    );
    assert!(service.is_turn(ticket + 1) == false);
}

#[test]
fn event_out_of_place_changes_nothing() {
    let mut service = CompileService::new();
    let req = request("fn main() {}");
    let ticket = ticket_of(service.submit(&req));
    assert!(matches!(service.begin(ticket, &req), Step::WriteSource { .. }));
    assert_eq!(service.advance(ticket, Event::BundlerExited), Step::Ignored);
    assert_eq!(service.advance(ticket, Event::Stored { ok: true }), Step::Ignored);
    assert_eq!(service.advance(ticket, Event::SourceWritten { ok: true }), Step::Compile);
}

#[test]
fn source_is_written_byte_for_byte() {
    let mut service = CompileService::new();
    let req = request("fn main() { let s = \"\u{00e9}\u{0}\"; }");
    let ticket = ticket_of(service.submit(&req));
    assert_eq!(
        service.begin(ticket, &req),
        Step::WriteSource { code: req.code.as_bytes().to_vec() }
    );
}

#[test]
fn sources_that_differ_in_one_byte_have_separate_entries() {
    let mut service = CompileService::new();
    let one = request("fn main() {}");
    let two = request("fn main() {}\n");
    let ticket = ticket_of(service.submit(&one));
    build_and_store(&mut service, ticket, &one, "one", &[1]);
    assert!(matches!(service.submit(&one), Admission::Hit { .. }));
    assert_eq!(service.submit(&two), Admission::Miss { ticket: 1 });
}
