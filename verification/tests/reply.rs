use playground_service::protocol::Failure;
use playground_service::reply::{
    reply_to, serve_entry, status_for, text_for, Reply, STATUS_INTERNAL_ERROR, STATUS_OK,
    STATUS_TIMEOUT,
};

const FAULTS: [Failure; 5] = [
    Failure::ArtifactMissing,
    Failure::ProcessSpawn,
    Failure::PasteProvider,
    Failure::CacheIo,
    Failure::WorkspaceIo,
];

#[test]
fn statuses_are_200_408_and_500() {
    assert_eq!(STATUS_OK, 200);
    assert_eq!(STATUS_TIMEOUT, 408);
    assert_eq!(STATUS_INTERNAL_ERROR, 500);
}

#[test]
fn result_is_sent_with_200_and_its_bytes() {
    assert_eq!(reply_to(Ok(vec![1, 0, 2])), Reply { status: 200, body: vec![1, 0, 2] });
    assert_eq!(reply_to(Ok(Vec::new())), Reply { status: 200, body: Vec::new() });
}

#[test]
fn timeout_is_sent_with_408() {
    assert_eq!(
        reply_to(Err(Failure::Timeout)),
        Reply { status: 408, body: b"Request timed out".to_vec() }
    );
    assert_eq!(status_for(Failure::Timeout), 408);
    assert_eq!(text_for(Failure::Timeout), "Request timed out");
}

#[test]
fn every_fault_is_sent_with_500_and_one_text() {
    for fault in FAULTS {
        assert_eq!(
            reply_to(Err(fault)),
            Reply { status: 500, body: b"Internal server error".to_vec() }
        );
        assert_eq!(status_for(fault), 500);
        assert_eq!(text_for(fault), "Internal server error");
    }
}

#[test]
fn entry_is_served_as_it_was_read() {
    assert_eq!(serve_entry(Some(vec![0, 0, 0, 0])), Ok(vec![0, 0, 0, 0]));
    assert_eq!(serve_entry(Some(Vec::new())), Ok(Vec::new()));
}

#[test]
fn unreadable_entry_is_a_cache_fault() {
    assert_eq!(serve_entry(None), Err(Failure::CacheIo));
    assert_eq!(reply_to(serve_entry(None)).status, 500);
}
