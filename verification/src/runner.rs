//! One run of the toolchain, as seen by the one who decides.
//!
//! A run writes the source into the workspace, compiles, bundles, and
//! collects the two artifacts. It ends early when the compiler rejects the
//! program, which is a result and no fault, and when something breaks,
//! which is a fault and no result.

use crate::protocol::{bytes_view, Event, EventView, Failure};
use crate::response::{CompileResponse, ResponseView};
use crate::text::{lossy_text, string_from_utf8, string_from_utf8_lossy};
use vstd::prelude::*;
use vstd::utf8::{decode_utf8, valid_utf8};

verus! {

/// The seconds that one run may take, from the first step to the last.
pub const BUILD_TIMEOUT_SECS: u64 = 4;

/// Which step of a run is under way.
#[derive(Debug, Clone, Copy, PartialEq, Eq, Structural)]
pub enum Phase {
    /// The source is being written into the workspace.
    Writing,
    /// The compiler runs.
    Compiling,
    /// The bundler runs.
    Bundling,
    /// The artifacts are being read.
    Collecting,
}

/// What an event means for a run.
#[derive(Debug, PartialEq, Eq)]
pub enum Progress {
    /// The source is in place: the compiler is to run.
    Compile,
    /// The compiler accepted the program: the bundler is to run.
    Bundle,
    /// The bundler has ended: the artifacts are to be read.
    Collect,
    /// The run is over: its result, or the fault that ended it.
    Done(Result<CompileResponse, Failure>),
    /// The phase does not await this event.
    Unexpected,
}

/// The content of a [`Progress`].
pub ghost enum ProgressView {
    Compile,
    Bundle,
    Collect,
    Done(Result<ResponseView, Failure>),
    Unexpected,
}

impl View for Progress {
    type V = ProgressView;

    open spec fn view(&self) -> ProgressView {
        match *self {
            Progress::Compile => ProgressView::Compile,
            Progress::Bundle => ProgressView::Bundle,
            Progress::Collect => ProgressView::Collect,
            Progress::Done(Ok(response)) => ProgressView::Done(Ok(response@)),
            Progress::Done(Err(failure)) => ProgressView::Done(Err(failure)),
            Progress::Unexpected => ProgressView::Unexpected,
        }
    }
}

/// What the collected artifacts amount to: a successful build if both are
/// there and the script is text, a fault otherwise.
pub open spec fn collected(js: Option<Seq<u8>>, wasm: Option<Seq<u8>>) -> Result<
    ResponseView,
    Failure,
> {
    if js is Some && wasm is Some && valid_utf8(js->0) {
        Ok(ResponseView::Success { js: decode_utf8(js->0), wasm: wasm->0 })
    } else {
        Err(Failure::ArtifactMissing)
    }
}

/// What `event` means for a run in `phase`.
///
/// The time may run out in any phase. Apart from that each phase awaits
/// the end of its own step: the compiler's exit decides between going on
/// and a rejection, whose text is the compiler's standard error read
/// leniently; the bundler's exit status is not looked at, the artifacts
/// are.
pub open spec fn run_step(phase: Phase, event: EventView) -> ProgressView {
    match (phase, event) {
        (_, EventView::TimedOut) => ProgressView::Done(Err(Failure::Timeout)),
        (Phase::Writing, EventView::SourceWritten { ok }) => if ok {
            ProgressView::Compile
        } else {
            ProgressView::Done(Err(Failure::WorkspaceIo))
        },
        (Phase::Compiling, EventView::CompilerExited { success, stderr }) => if success {
            ProgressView::Bundle
        } else {
            ProgressView::Done(Ok(ResponseView::CompileError(lossy_text(stderr))))
        },
        (Phase::Compiling, EventView::SpawnFailed) => ProgressView::Done(
            Err(Failure::ProcessSpawn),
        ),
        (Phase::Bundling, EventView::BundlerExited) => ProgressView::Collect,
        (Phase::Bundling, EventView::SpawnFailed) => ProgressView::Done(
            Err(Failure::ProcessSpawn),
        ),
        (Phase::Collecting, EventView::Collected { js, wasm }) => ProgressView::Done(
            collected(js, wasm),
        ),
        _ => ProgressView::Unexpected,
    }
}

/// The rejection of a program with the given diagnostics.
pub fn rejection(diagnostics: String) -> (out: Progress)
    ensures
        out@ == ProgressView::Done(Ok(ResponseView::CompileError(diagnostics@))),
{
    Progress::Done(Ok(CompileResponse::CompileError(diagnostics)))
}

/// What the collected artifacts amount to.
pub fn collect(js: Option<Vec<u8>>, wasm: Option<Vec<u8>>) -> (out: Result<
    CompileResponse,
    Failure,
>)
    ensures
        match out {
            Ok(response) => collected(bytes_view(js), bytes_view(wasm)) == Ok::<
                ResponseView,
                Failure,
            >(response@),
            Err(failure) => collected(bytes_view(js), bytes_view(wasm)) == Err::<
                ResponseView,
                Failure,
            >(failure),
        },
{
    match (js, wasm) {
        (Some(script), Some(binary)) => match string_from_utf8(script) {
            Some(text) => Ok(CompileResponse::Success { js: text, wasm: binary }),
            None => Err(Failure::ArtifactMissing),
        },
        _ => Err(Failure::ArtifactMissing),
    }
}

/// What `event` means for a run in `phase`. Diagnostics that are
/// well-formed text are kept as they are.
pub fn react(phase: Phase, event: Event) -> (out: Progress)
    ensures
        out@ == run_step(phase, event@),
        phase == Phase::Compiling ==> (event@ matches EventView::CompilerExited {
            success: false,
            stderr,
        } ==> (valid_utf8(stderr) ==> out@ == ProgressView::Done(
            Ok(ResponseView::CompileError(decode_utf8(stderr))),
        ))),
{
    match event {
        Event::TimedOut => Progress::Done(Err(Failure::Timeout)),
        Event::SourceWritten { ok } => match phase {
            Phase::Writing => if ok {
                Progress::Compile
            } else {
                Progress::Done(Err(Failure::WorkspaceIo))
            },
            _ => Progress::Unexpected,
        },
        Event::CompilerExited { success, stderr } => match phase {
            Phase::Compiling => if success {
                Progress::Bundle
            } else {
                rejection(string_from_utf8_lossy(stderr.as_slice()))
            },
            _ => Progress::Unexpected,
        },
        Event::BundlerExited => match phase {
            Phase::Bundling => Progress::Collect,
            _ => Progress::Unexpected,
        },
        Event::SpawnFailed => match phase {
            Phase::Compiling => Progress::Done(Err(Failure::ProcessSpawn)),
            Phase::Bundling => Progress::Done(Err(Failure::ProcessSpawn)),
            _ => Progress::Unexpected,
        },
        Event::Collected { js, wasm } => match phase {
            Phase::Collecting => Progress::Done(collect(js, wasm)),
            _ => Progress::Unexpected,
        },
        Event::Stored { .. } => Progress::Unexpected,
    }
}

/// A run never fails for a rejected program: a compiler that ends without
/// success gives a response, whatever it wrote.
pub proof fn law_rejection_is_a_result(stderr: Seq<u8>)
    ensures
        run_step(Phase::Compiling, EventView::CompilerExited { success: false, stderr })
            matches ProgressView::Done(Ok(response)) && response is CompileError,
{
}

/// A run reports success only with both artifacts in hand, and a fault if
/// one is missing.
pub proof fn law_success_needs_both_artifacts(js: Option<Seq<u8>>, wasm: Option<Seq<u8>>)
    ensures
        collected(js, wasm) is Ok ==> js is Some && wasm is Some,
        (js is None || wasm is None) ==> collected(js, wasm) == Err::<ResponseView, Failure>(
            Failure::ArtifactMissing,
        ),
        collected(js, wasm) matches Ok(response) ==> response is Success,
{
}

} // verus!
