//! The paste provider, as far as the service deals with it.
//!
//! The provider keeps programs under ids: a program is submitted and an id
//! comes back, an id is fetched and the program comes back. Either may
//! fail, for reasons that are the provider's. Such a failure is a kind of
//! its own and never passes for the outcome of a build.
//!
//! A submission is an object with a state: pending until the provider has
//! answered, then succeeded or failed for good, so that whoever sent it
//! can see what became of it.

use crate::protocol::{outcome_view, Failure, Outcome, OutcomeView};
use vstd::prelude::*;
use vstd::slice::slice_to_vec;
use vstd::utf8::encode_utf8;

verus! {

/// What the provider's answer, if it gave one, is served as: the text, or
/// the provider's failure.
pub open spec fn paste_outcome(answer: Option<Seq<char>>) -> OutcomeView {
    match answer {
        Some(text) => Ok(encode_utf8(text)),
        None => Err(Failure::PasteProvider),
    }
}

/// The content of `answer`, if there is one.
pub open spec fn answer_view(answer: Option<String>) -> Option<Seq<char>> {
    match answer {
        Some(text) => Some(text@),
        None => None,
    }
}

/// Serves the provider's answer: the text it gave, or a failure if it gave
/// none.
pub fn serve_paste(answer: Option<String>) -> (out: Outcome)
    ensures
        outcome_view(out) == paste_outcome(answer_view(answer)),
{
    match answer {
        Some(text) => Ok(slice_to_vec(text.as_str().as_bytes())),
        None => Err(Failure::PasteProvider),
    }
}

/// What became of a submission.
#[derive(Debug, Clone, PartialEq, Eq)]
pub enum PasteState {
    /// The provider has not answered yet.
    Pending,
    /// The provider took the program and gave it this id.
    Succeeded(String),
    /// The provider failed.
    Failed,
}

/// The content of a [`PasteState`].
pub ghost enum PasteStateView {
    Pending,
    Succeeded(Seq<char>),
    Failed,
}

impl View for PasteState {
    type V = PasteStateView;

    open spec fn view(&self) -> PasteStateView {
        match *self {
            PasteState::Pending => PasteStateView::Pending,
            PasteState::Succeeded(id) => PasteStateView::Succeeded(id@),
            PasteState::Failed => PasteStateView::Failed,
        }
    }
}

/// The state that a pending submission is in after the provider's answer.
pub open spec fn settled(answer: Option<Seq<char>>) -> PasteStateView {
    match answer {
        Some(id) => PasteStateView::Succeeded(id),
        None => PasteStateView::Failed,
    }
}

/// What a submission in `state` is served as, once it is settled.
pub open spec fn state_outcome(state: PasteStateView) -> Option<OutcomeView> {
    match state {
        PasteStateView::Pending => None,
        PasteStateView::Succeeded(id) => Some(paste_outcome(Some(id))),
        PasteStateView::Failed => Some(paste_outcome(None)),
    }
}

/// One submission of a program to the provider.
pub struct PasteSubmission {
    code: String,
    state: PasteState,
}

/// The content of a [`PasteSubmission`].
pub ghost struct PasteSubmissionView {
    pub code: Seq<char>,
    pub state: PasteStateView,
}

impl View for PasteSubmission {
    type V = PasteSubmissionView;

    closed spec fn view(&self) -> PasteSubmissionView {
        PasteSubmissionView { code: self.code@, state: self.state@ }
    }
}

impl PasteSubmission {
    /// A submission of `code` that awaits the provider's answer.
    pub fn new(code: String) -> (out: PasteSubmission)
        ensures
            out@ == (PasteSubmissionView { code: code@, state: PasteStateView::Pending }),
    {
        PasteSubmission { code, state: PasteState::Pending }
    }

    /// The program that is submitted.
    pub fn code(&self) -> (out: &str)
        ensures
            out@ == self@.code,
    {
        self.code.as_str()
    }

    /// Whether the provider has not answered yet.
    pub fn is_pending(&self) -> (out: bool)
        ensures
            out == (self@.state is Pending),
    {
        match self.state {
            PasteState::Pending => true,
            _ => false,
        }
    }

    /// Takes the provider's answer: the id it gave, or none if it failed.
    /// Only the first answer counts; a settled submission stays as it is.
    /// Returns whether this answer settled it.
    pub fn settle(&mut self, answer: Option<String>) -> (out: bool)
        ensures
            out == (old(self)@.state is Pending),
            final(self)@.code == old(self)@.code,
            final(self)@.state == if out {
                settled(answer_view(answer))
            } else {
                old(self)@.state
            },
    {
        if self.is_pending() {
            self.state = match answer {
                Some(id) => PasteState::Succeeded(id),
                None => PasteState::Failed,
            };
            true
        } else {
            false
        }
    }

    /// What the submission is served as: nothing while it is pending, then
    /// the id, or the provider's failure.
    pub fn outcome(&self) -> (out: Option<Outcome>)
        ensures
            match out {
                Some(outcome) => state_outcome(self@.state) == Some(outcome_view(outcome)),
                None => state_outcome(self@.state) is None,
            },
    {
        match &self.state {
            PasteState::Pending => None,
            PasteState::Succeeded(id) => Some(Ok(slice_to_vec(id.as_str().as_bytes()))),
            PasteState::Failed => Some(Err(Failure::PasteProvider)),
        }
    }
}

/// A submission is served once it is settled, as what the provider
/// answered, and a failure of the provider is never served as a result or
/// as a failure of a build.
pub proof fn law_settled_submission_is_served(answer: Option<Seq<char>>)
    ensures
        state_outcome(settled(answer)) == Some(paste_outcome(answer)),
        answer is None ==> paste_outcome(answer) == Err::<Seq<u8>, Failure>(
            Failure::PasteProvider,
        ),
        answer is Some ==> paste_outcome(answer) is Ok,
{
}

} // verus!
