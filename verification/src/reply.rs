//! What goes back over HTTP.
//!
//! A response is sent with status 200 whether the build went through or the
//! program was rejected: both are results. A build that ran out of time is
//! a 408. Every other failure is a 500 with one fixed text; what went wrong
//! is for the log, not for the client.

use crate::protocol::{outcome_view, Failure, Outcome, OutcomeView};
use vstd::prelude::*;
use vstd::utf8::encode_utf8;

verus! {

/// The status of a result.
pub const STATUS_OK: u16 = 200;

/// The status of a build that ran out of time.
pub const STATUS_TIMEOUT: u16 = 408;

/// The status of every other failure.
pub const STATUS_INTERNAL_ERROR: u16 = 500;

/// What a status and a body are sent as.
#[derive(Debug, Clone, PartialEq, Eq)]
pub struct Reply {
    pub status: u16,
    pub body: Vec<u8>,
}

/// The content of a [`Reply`].
pub ghost struct ReplyView {
    pub status: u16,
    pub body: Seq<u8>,
}

impl View for Reply {
    type V = ReplyView;

    open spec fn view(&self) -> ReplyView {
        ReplyView { status: self.status, body: self.body@ }
    }
}

/// The text sent for a build that ran out of time.
pub open spec fn timeout_text() -> Seq<char> {
    "Request timed out"@
}

/// The text sent for every other failure.
pub open spec fn internal_error_text() -> Seq<char> {
    "Internal server error"@
}

/// The status that `failure` is sent with.
pub open spec fn failure_status(failure: Failure) -> u16 {
    if failure == Failure::Timeout {
        STATUS_TIMEOUT
    } else {
        STATUS_INTERNAL_ERROR
    }
}

/// What `outcome` is sent as.
pub open spec fn reply_of(outcome: OutcomeView) -> ReplyView {
    match outcome {
        Ok(bytes) => ReplyView { status: STATUS_OK, body: bytes },
        Err(failure) => ReplyView {
            status: failure_status(failure),
            body: if failure == Failure::Timeout {
                encode_utf8(timeout_text())
            } else {
                encode_utf8(internal_error_text())
            },
        },
    }
}

/// What the content of a cache entry, as far as it could be read, is
/// served as.
pub open spec fn entry_outcome(read: Option<Seq<u8>>) -> OutcomeView {
    match read {
        Some(bytes) => Ok(bytes),
        None => Err(Failure::CacheIo),
    }
}

/// The status that `failure` is sent with.
pub fn status_for(failure: Failure) -> (out: u16)
    ensures
        out == failure_status(failure),
{
    match failure {
        Failure::Timeout => STATUS_TIMEOUT,
        _ => STATUS_INTERNAL_ERROR,
    }
}

/// The text that `failure` is sent with.
pub fn text_for(failure: Failure) -> (out: &'static str)
    ensures
        out@ == if failure == Failure::Timeout {
            timeout_text()
        } else {
            internal_error_text()
        },
{
    match failure {
        Failure::Timeout => "Request timed out",
        _ => "Internal server error",
    }
}

/// What `outcome` is sent as.
pub fn reply_to(outcome: Outcome) -> (out: Reply)
    ensures
        out@ == reply_of(outcome_view(outcome)),
{
    match outcome {
        Ok(bytes) => Reply { status: STATUS_OK, body: bytes },
        Err(failure) => Reply {
            status: status_for(failure),
            body: vstd::slice::slice_to_vec(text_for(failure).as_bytes()),
        },
    }
}

/// Serves a cache entry: its content as it was read, or a failure if it
/// could not be read.
pub fn serve_entry(read: Option<Vec<u8>>) -> (out: Outcome)
    ensures
        outcome_view(out) == entry_outcome(
            match read {
                Some(bytes) => Some(bytes@),
                None => None,
            },
        ),
{
    match read {
        Some(bytes) => Ok(bytes),
        None => Err(Failure::CacheIo),
    }
}

/// Only a result is sent as a success, only a timeout as a 408, and no
/// failure is ever sent with the status of a result.
pub proof fn law_status_tells_outcome(outcome: OutcomeView)
    ensures
        reply_of(outcome).status == STATUS_OK <==> outcome is Ok,
        reply_of(outcome).status == STATUS_TIMEOUT <==> outcome == Err::<Seq<u8>, Failure>(
            Failure::Timeout,
        ),
        reply_of(outcome).status == STATUS_INTERNAL_ERROR <==> (outcome is Err && outcome
            != Err::<Seq<u8>, Failure>(Failure::Timeout)),
{
}

} // verus!
