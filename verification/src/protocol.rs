//! What the service asks of its caller, and what the caller reports back.
//!
//! The service decides; the caller acts. A [`Step`] names one piece of
//! outside work. When it is done the caller hands in the matching
//! [`Event`] and gets the next step, until the step is [`Step::Finish`].

use crate::key::CacheKey;
use vstd::prelude::*;

verus! {

/// Why a request got no result.
#[derive(Debug, Clone, Copy, PartialEq, Eq, Structural)]
pub enum Failure {
    /// The build took longer than it may.
    Timeout,
    /// The toolchain reported success and left an artifact out, or left one
    /// that cannot be read.
    ArtifactMissing,
    /// The compiler or the bundler could not be started.
    ProcessSpawn,
    /// The paste provider failed.
    PasteProvider,
    /// A cache entry could not be read or written.
    CacheIo,
    /// The source could not be written into the workspace.
    WorkspaceIo,
}

/// What came of a request: the encoded response, or why there is none.
pub type Outcome = Result<Vec<u8>, Failure>;

/// The content of an [`Outcome`].
pub type OutcomeView = Result<Seq<u8>, Failure>;

/// The content of `outcome`.
pub open spec fn outcome_view(outcome: Outcome) -> OutcomeView {
    match outcome {
        Ok(bytes) => Ok(bytes@),
        Err(failure) => Err(failure),
    }
}

/// What the caller reports of the work it was asked to do.
#[derive(Debug, Clone, PartialEq, Eq)]
pub enum Event {
    /// The source was written into the workspace, or could not be.
    SourceWritten { ok: bool },
    /// The compiler ran and ended; what it wrote to standard error.
    CompilerExited { success: bool, stderr: Vec<u8> },
    /// The bundler ran and ended.
    BundlerExited,
    /// The compiler or the bundler could not be started.
    SpawnFailed,
    /// The artifacts were looked for: the bytes of each one that is there.
    Collected { js: Option<Vec<u8>>, wasm: Option<Vec<u8>> },
    /// The cache entry was written, or could not be.
    Stored { ok: bool },
    /// The time for the build is up; the process that ran was ended.
    TimedOut,
}

/// The content of an [`Event`].
pub ghost enum EventView {
    SourceWritten { ok: bool },
    CompilerExited { success: bool, stderr: Seq<u8> },
    BundlerExited,
    SpawnFailed,
    Collected { js: Option<Seq<u8>>, wasm: Option<Seq<u8>> },
    Stored { ok: bool },
    TimedOut,
}

/// The content of `bytes`, if there are any.
pub open spec fn bytes_view(bytes: Option<Vec<u8>>) -> Option<Seq<u8>> {
    match bytes {
        Some(b) => Some(b@),
        None => None,
    }
}

impl View for Event {
    type V = EventView;

    open spec fn view(&self) -> EventView {
        match *self {
            Event::SourceWritten { ok } => EventView::SourceWritten { ok },
            Event::CompilerExited { success, stderr } => EventView::CompilerExited {
                success,
                stderr: stderr@,
            },
            Event::BundlerExited => EventView::BundlerExited,
            Event::SpawnFailed => EventView::SpawnFailed,
            Event::Collected { js, wasm } => EventView::Collected {
                js: bytes_view(js),
                wasm: bytes_view(wasm),
            },
            Event::Stored { ok } => EventView::Stored { ok },
            Event::TimedOut => EventView::TimedOut,
        }
    }
}

/// What the caller is to do next.
#[derive(Debug, PartialEq, Eq)]
pub enum Step {
    /// Another build is running. Ask again when a build has finished.
    Wait,
    /// The ticket is not building, or its build awaits another event.
    /// Nothing has changed.
    Ignored,
    /// Overwrite the source file of the workspace with `code`.
    WriteSource { code: Vec<u8> },
    /// Run the compiler on the workspace.
    Compile,
    /// Run the bundler on the workspace.
    Bundle,
    /// Read the glue script and the binary that the bundler left.
    Collect,
    /// Write `bytes` to the file of `key` in the cache directory.
    Store { key: CacheKey, bytes: Vec<u8> },
    /// The request is done. The build section is free for the next ticket.
    Finish(Outcome),
}

/// The content of a [`Step`].
pub ghost enum StepView {
    Wait,
    Ignored,
    WriteSource { code: Seq<u8> },
    Compile,
    Bundle,
    Collect,
    Store { key: Seq<u8>, bytes: Seq<u8> },
    Finish(OutcomeView),
}

impl View for Step {
    type V = StepView;

    open spec fn view(&self) -> StepView {
        match *self {
            Step::Wait => StepView::Wait,
            Step::Ignored => StepView::Ignored,
            Step::WriteSource { code } => StepView::WriteSource { code: code@ },
            Step::Compile => StepView::Compile,
            Step::Bundle => StepView::Bundle,
            Step::Collect => StepView::Collect,
            Step::Store { key, bytes } => StepView::Store { key: key@, bytes: bytes@ },
            Step::Finish(outcome) => StepView::Finish(outcome_view(outcome)),
        }
    }
}

impl StepView {
    /// Whether the step is work on the shared workspace: the four steps of
    /// a toolchain run.
    pub open spec fn uses_workspace(self) -> bool {
        self is WriteSource || self is Compile || self is Bundle || self is Collect
    }
}

} // verus!
