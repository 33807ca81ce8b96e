//! What holds of the service in every state it can reach, and of every
//! move it can make.
//!
//! The laws speak of [`ServiceState`] and its moves, which the methods of
//! `CompileService` follow step for step.

use crate::cache::extends;
use crate::codec::wire_format;
use crate::key::key_of;
use crate::protocol::{EventView, Failure, OutcomeView, StepView};
use crate::reply::{entry_outcome, reply_of, STATUS_OK, STATUS_TIMEOUT};
use crate::response::ResponseView;
use crate::runner::Phase;
use crate::service::{AdmissionView, BuildView, ServiceState, StageView};
use crate::text::lossy_text;
use vstd::prelude::*;
use vstd::utf8::{decode_utf8, encode_utf8, valid_utf8};

verus! {

/// What a request is answered with when its run has ended with `result`:
/// the encoded response, or the fault.
pub open spec fn answer_of(result: Result<ResponseView, Failure>) -> OutcomeView {
    match result {
        Ok(response) => Ok(wire_format(response)),
        Err(failure) => Err(failure),
    }
}

/// A service that has seen no request is consistent, and every move keeps
/// it so.
pub proof fn law_state_stays_consistent(
    s: ServiceState,
    ticket: nat,
    code: Seq<char>,
    event: EventView,
)
    requires
        s.wf(),
    ensures
        ServiceState::initial().wf(),
        s.submit(code).0.wf(),
        s.begin(ticket, code).0.wf(),
        s.advance(ticket, event).0.wf(),
{
}

/// The cache grows and never changes: after any move every entry is
/// there as it was.
pub proof fn law_entries_never_change(
    s: ServiceState,
    ticket: nat,
    code: Seq<char>,
    event: EventView,
)
    requires
        s.wf(),
    ensures
        s.submit(code).0.entries == s.entries,
        s.begin(ticket, code).0.entries == s.entries,
        extends(s.advance(ticket, event).0.entries, s.entries),
{
}

/// Reading the cache needs no turn: a request whose key has an entry is a
/// hit whatever the build section does, and leaves the state as it is.
pub proof fn law_hit_needs_no_turn(s: ServiceState, code: Seq<char>)
    requires
        s.entries.dom().contains(key_of(code)),
    ensures
        s.submit(code) == (s, AdmissionView::Hit { key: key_of(code) }),
{
}

/// Writing the cache is the builder's alone: only the ticket whose build
/// is under way is asked to store an entry, and the cache changes only
/// when that ticket reports that it did.
pub proof fn law_only_the_builder_writes(s: ServiceState, ticket: nat, event: EventView)
    requires
        s.wf(),
    ensures
        s.advance(ticket, event).1 is Store ==> s.building(ticket) && s.queue.is_turn(ticket),
        s.advance(ticket, event).0.entries != s.entries ==> {
            &&& s.building(ticket)
            &&& s.queue.is_turn(ticket)
            &&& s.build->0.stage is Storing
            &&& event == EventView::Stored { ok: true }
        },
{
}

/// Work on the workspace goes to one ticket at a time: a step of a run is
/// only ever handed to the ticket whose turn it is, at the start when no
/// build is under way, after that while its own build is.
pub proof fn law_workspace_belongs_to_the_builder(
    s: ServiceState,
    ticket: nat,
    code: Seq<char>,
    event: EventView,
)
    requires
        s.wf(),
    ensures
        s.begin(ticket, code).1.uses_workspace() ==> {
            &&& s.build is None
            &&& s.queue.is_turn(ticket)
            &&& s.begin(ticket, code).0.building(ticket)
        },
        s.advance(ticket, event).1.uses_workspace() ==> {
            &&& s.building(ticket)
            &&& s.queue.is_turn(ticket)
            &&& s.advance(ticket, event).0.building(ticket)
        },
{
}

/// Builds never overlap: while the build of one ticket is under way, any
/// other ticket gets no step of a run and changes nothing, whatever it
/// asks or reports.
pub proof fn law_builds_never_overlap(
    s: ServiceState,
    builder: nat,
    other: nat,
    code: Seq<char>,
    event: EventView,
)
    requires
        s.wf(),
        s.building(builder),
        other != builder,
    ensures
        s.begin(other, code).0 == s,
        s.begin(other, code).1 is Wait || s.begin(other, code).1 is Ignored,
        s.advance(other, event) == (s, StepView::Ignored),
{
}

/// A build keeps the section until it is finished, and gives it up then:
/// the state after a move holds the same build unless the step was the
/// last one, and after the last one the turn has passed on.
pub proof fn law_section_is_held_until_finish(s: ServiceState, ticket: nat, event: EventView)
    requires
        s.wf(),
        s.building(ticket),
    ensures
        s.advance(ticket, event).1 is Finish <==> !s.advance(ticket, event).0.building(ticket),
        s.advance(ticket, event).1 is Finish ==> {
            &&& s.advance(ticket, event).0.build is None
            &&& s.advance(ticket, event).0.queue == s.queue.leave()
            &&& s.advance(ticket, event).0.queue.left(ticket)
        },
{
}

/// A ticket runs the toolchain once at most: a build that is under way
/// cannot be begun again, nor one whose ticket has left.
pub proof fn law_one_run_per_ticket(s: ServiceState, ticket: nat, code: Seq<char>)
    requires
        s.wf(),
    ensures
        s.building(ticket) ==> s.begin(ticket, code) == (s, StepView::Ignored),
        s.queue.left(ticket) ==> s.begin(ticket, code) == (s, StepView::Ignored),
        !s.queue.taken(ticket) ==> s.begin(ticket, code) == (s, StepView::Ignored),
{
}

/// The answer to a build is the encoded result of its run and depends on
/// nothing else. When the run ends, the request is answered at once with
/// [`answer_of`] the result, or the response is stored first and is the
/// answer after that.
pub proof fn law_answer_is_the_encoded_result(
    s: ServiceState,
    ticket: nat,
    key: Seq<u8>,
    result: Result<ResponseView, Failure>,
)
    requires
        s.wf(),
        s.building(ticket),
    ensures
        ({
            let (after, step) = s.conclude(ticket, key, result);
            match step {
                StepView::Finish(outcome) => outcome == answer_of(result),
                StepView::Store { key: stored, bytes } => {
                    &&& stored == key
                    &&& answer_of(result) == Ok::<Seq<u8>, Failure>(bytes)
                    &&& after.advance(ticket, EventView::Stored { ok: true }).1
                        == StepView::Finish(answer_of(result))
                    &&& after.advance(ticket, EventView::Stored { ok: false }).1
                        == StepView::Finish(Err(Failure::CacheIo))
                },
                _ => false,
            }
        }),
{
}

/// A program that was built is served from the cache from then on.
///
/// Take a build whose artifacts are being collected. When both are there,
/// the request is answered with the encoded response, after an entry was
/// written for it unless its key had one. From then on a request for the
/// same program is a hit: it takes no ticket, so no run is made for it,
/// and, the program having had no entry before, the entry it is served
/// from holds the very bytes that the first request was answered with.
pub proof fn law_built_once_served_from_cache(
    s: ServiceState,
    ticket: nat,
    code: Seq<char>,
    js: Seq<u8>,
    wasm: Seq<u8>,
)
    requires
        s.wf(),
        s.build == Some(
            BuildView {
                ticket,
                key: key_of(code),
                stage: StageView::Running(Phase::Collecting),
            },
        ),
        valid_utf8(js),
    ensures
        ({
            let key = key_of(code);
            let answer = wire_format(ResponseView::Success { js: decode_utf8(js), wasm });
            let artifacts = EventView::Collected { js: Some(js), wasm: Some(wasm) };
            let (next, step) = s.advance(ticket, artifacts);
            let (done, last) = if step is Store {
                next.advance(ticket, EventView::Stored { ok: true })
            } else {
                (next, step)
            };
            &&& step is Store <==> !s.entries.dom().contains(key)
            &&& step is Store ==> step == StepView::Store { key, bytes: answer }
            &&& last == StepView::Finish(Ok(answer))
            &&& done.submit(code) == (done, AdmissionView::Hit { key })
            &&& !s.entries.dom().contains(key) ==> {
                &&& done.entries[key] == answer
                &&& reply_of(entry_outcome(Some(done.entries[key]))) == reply_of(
                    Ok(answer),
                )
            }
        }),
{
}

/// A hit stays a hit: once a key has an entry, every later request for a
/// program with that key is served from it, unchanged, whatever moves were
/// made in between.
pub proof fn law_hit_stays_hit(
    s: ServiceState,
    code: Seq<char>,
    ticket: nat,
    other: Seq<char>,
    event: EventView,
)
    requires
        s.wf(),
        s.submit(code).1 is Hit,
    ensures
        s.submit(other).0.submit(code).1 is Hit,
        s.begin(ticket, other).0.submit(code).1 is Hit,
        s.advance(ticket, event).0.submit(code).1 is Hit,
        s.advance(ticket, event).0.entries[key_of(code)] == s.entries[key_of(code)],
{
}

/// A rejected program is answered and not cached.
///
/// When the compiler ends without success, the request is answered with
/// the encoded diagnostics, as a result and not as a failure. The cache is
/// as it was, so the same program, if it had no entry, misses again and
/// takes a new ticket: it is built anew each time it is sent.
pub proof fn law_rejection_is_not_cached(
    s: ServiceState,
    ticket: nat,
    code: Seq<char>,
    stderr: Seq<u8>,
)
    requires
        s.wf(),
        s.build == Some(
            BuildView {
                ticket,
                key: key_of(code),
                stage: StageView::Running(Phase::Compiling),
            },
        ),
    ensures
        ({
            let exited = EventView::CompilerExited { success: false, stderr };
            let answer = wire_format(ResponseView::CompileError(lossy_text(stderr)));
            let (after, step) = s.advance(ticket, exited);
            &&& step == StepView::Finish(Ok(answer))
            &&& reply_of(Ok(answer)).status == STATUS_OK
            &&& after.entries == s.entries
            &&& after.build is None
            &&& !s.entries.dom().contains(key_of(code)) ==> after.submit(code).1
                == AdmissionView::Miss { ticket: after.queue.issued }
        }),
{
}

/// Nothing but a successful build is ever cached: a run that ends with a
/// rejection or a fault leaves the cache as it was and asks for no entry
/// to be written.
pub proof fn law_only_success_is_cached(
    s: ServiceState,
    ticket: nat,
    key: Seq<u8>,
    result: Result<ResponseView, Failure>,
)
    requires
        s.wf(),
        s.building(ticket),
    ensures
        s.conclude(ticket, key, result).0.entries == s.entries,
        s.conclude(ticket, key, result).1 is Store ==> result is Ok && result->Ok_0 is Success,
{
}

/// A build that runs out of time is answered as a timeout and frees the
/// section.
///
/// In whatever phase the run is, the report that the time is up ends the
/// request with a timeout, which is sent with status 408. The cache is as
/// it was, no build is under way, and the turn has passed on: the next
/// ticket, taken before or after, begins its run when it asks.
pub proof fn law_timeout_frees_the_section(
    s: ServiceState,
    ticket: nat,
    phase: Phase,
    next: Seq<char>,
)
    requires
        s.wf(),
        s.building(ticket),
        s.build->0.stage == StageView::Running(phase),
    ensures
        ({
            let (after, step) = s.advance(ticket, EventView::TimedOut);
            let queued = if after.queue.taken(ticket + 1) {
                after
            } else {
                after.submit(next).0
            };
            &&& step == StepView::Finish(Err(Failure::Timeout))
            &&& reply_of(Err(Failure::Timeout)).status == STATUS_TIMEOUT
            &&& after == s.released()
            &&& after.entries == s.entries
            &&& after.build is None
            &&& after.queue.left(ticket)
            &&& !after.queue.taken(ticket + 1) && !after.entries.dom().contains(key_of(next))
                ==> after.submit(next).1 == AdmissionView::Miss { ticket: ticket + 1 }
            &&& queued.queue.taken(ticket + 1) ==> queued.begin(ticket + 1, next).1 is WriteSource
        }),
{
}

/// Requests are not merged: two requests for one program that has no entry
/// both miss, whether or not a build is under way, and get two tickets in
/// the order in which they came. Each ticket then makes its own run.
pub proof fn law_no_coalescing(s: ServiceState, code: Seq<char>)
    requires
        s.wf(),
        !s.entries.dom().contains(key_of(code)),
    ensures
        ({
            let (one, first) = s.submit(code);
            let (two, second) = one.submit(code);
            &&& first == AdmissionView::Miss { ticket: s.queue.issued }
            &&& second == AdmissionView::Miss { ticket: s.queue.issued + 1 }
            &&& two.queue.taken(s.queue.issued)
            &&& two.queue.taken(s.queue.issued + 1)
            &&& two.entries == s.entries
            &&& two.build == s.build
        }),
{
}

/// A ticket that waits is told to wait, changes nothing, and is not
/// forgotten: it is its turn as soon as the tickets before it have left.
pub proof fn law_waiting_ticket_gets_its_turn(s: ServiceState, ticket: nat, code: Seq<char>)
    requires
        s.wf(),
        s.queue.waiting(ticket),
    ensures
        s.begin(ticket, code) == (s, StepView::Wait),
        s.queue.leave_many((ticket - s.queue.served) as nat).is_turn(ticket),
{
    crate::serializer::law_turn_comes(s.queue, ticket);
}

/// Only one move begins a run, and it begins one: the count of runs goes
/// up by one when a ticket is handed the first step of its run, and stays
/// as it is with every other move.
pub proof fn law_runs_begin_at_begin(
    s: ServiceState,
    ticket: nat,
    code: Seq<char>,
    event: EventView,
)
    requires
        s.wf(),
    ensures
        s.submit(code).0.runs == s.runs,
        s.advance(ticket, event).0.runs == s.runs,
        s.begin(ticket, code).0.runs == if s.begin(ticket, code).1 is WriteSource {
            s.runs + 1
        } else {
            s.runs
        },
{
}

/// The state and the step after the holder of `ticket`, whose turn it is,
/// has begun the build of `code`, the source was written, the compiler
/// accepted the program and the bundler ended.
pub open spec fn run_to_collect(s: ServiceState, ticket: nat, code: Seq<char>, stderr: Seq<u8>) -> (
    ServiceState,
    StepView,
) {
    let begun = s.begin(ticket, code).0;
    let written = begun.advance(ticket, EventView::SourceWritten { ok: true }).0;
    let compiled = written.advance(
        ticket,
        EventView::CompilerExited { success: true, stderr },
    ).0;
    compiled.advance(ticket, EventView::BundlerExited)
}

/// The same source twice is built once.
///
/// A program that has no entry is sent to a service where nobody builds or
/// waits. It misses, takes a ticket, and its run goes through all its
/// steps; the response is stored and then sent. The program is sent again:
/// it is a hit, the state is as it was, and one run was made in all. The
/// entry it is served from holds the bytes of the first answer, so the two
/// replies are the same.
pub proof fn law_same_source_twice_builds_once(
    s: ServiceState,
    code: Seq<char>,
    stderr: Seq<u8>,
    js: Seq<u8>,
    wasm: Seq<u8>,
)
    requires
        s.wf(),
        s.queue.idle(),
        !s.entries.dom().contains(key_of(code)),
        valid_utf8(js),
    ensures
        ({
            let key = key_of(code);
            let answer = wire_format(ResponseView::Success { js: decode_utf8(js), wasm });
            let ticket = s.queue.issued;
            let (queued, first) = s.submit(code);
            let (begun, write) = queued.begin(ticket, code);
            let (compiling, compile) = begun.advance(
                ticket,
                EventView::SourceWritten { ok: true },
            );
            let (bundling, bundle) = compiling.advance(
                ticket,
                EventView::CompilerExited { success: true, stderr },
            );
            let (collecting, collect) = bundling.advance(ticket, EventView::BundlerExited);
            let (storing, store) = collecting.advance(
                ticket,
                EventView::Collected { js: Some(js), wasm: Some(wasm) },
            );
            let (done, finish) = storing.advance(ticket, EventView::Stored { ok: true });
            let (after, second) = done.submit(code);
            &&& first == AdmissionView::Miss { ticket }
            &&& write == StepView::WriteSource { code: encode_utf8(code) }
            &&& compile == StepView::Compile
            &&& bundle == StepView::Bundle
            &&& collect == StepView::Collect
            &&& store == StepView::Store { key, bytes: answer }
            &&& finish == StepView::Finish(Ok(answer))
            &&& second == AdmissionView::Hit { key }
            &&& after == done
            &&& after.runs == s.runs + 1
            &&& after.build is None
            &&& after.queue.idle()
            &&& after.entries[key] == answer
            &&& reply_of(entry_outcome(Some(after.entries[key]))) == reply_of(Ok(answer))
        }),
{
}

/// A source that is rejected twice is built twice.
///
/// A program that has no entry is sent to a service where nobody builds or
/// waits, and the compiler rejects it. It is answered with the encoded
/// diagnostics. Sent again, it misses again, runs again and is answered
/// again. Two runs were made, and the cache is as it was at the start.
pub proof fn law_rejected_source_twice_builds_twice(
    s: ServiceState,
    code: Seq<char>,
    stderr: Seq<u8>,
)
    requires
        s.wf(),
        s.queue.idle(),
        !s.entries.dom().contains(key_of(code)),
    ensures
        ({
            let answer = wire_format(ResponseView::CompileError(lossy_text(stderr)));
            let rejected = EventView::CompilerExited { success: false, stderr };
            let written = EventView::SourceWritten { ok: true };
            let ticket = s.queue.issued;
            let (queued, first) = s.submit(code);
            let (begun, write) = queued.begin(ticket, code);
            let (compiling, compile) = begun.advance(ticket, written);
            let (done, finish) = compiling.advance(ticket, rejected);
            let (queued_again, second) = done.submit(code);
            let (begun_again, write_again) = queued_again.begin(ticket + 1, code);
            let (compiling_again, compile_again) = begun_again.advance(ticket + 1, written);
            let (done_again, finish_again) = compiling_again.advance(ticket + 1, rejected);
            &&& first == AdmissionView::Miss { ticket }
            &&& write is WriteSource
            &&& compile == StepView::Compile
            &&& finish == StepView::Finish(Ok(answer))
            &&& done.runs == s.runs + 1
            &&& done.entries == s.entries
            &&& second == AdmissionView::Miss { ticket: ticket + 1 }
            &&& write_again is WriteSource
            &&& compile_again == StepView::Compile
            &&& finish_again == StepView::Finish(Ok(answer))
            &&& done_again.runs == s.runs + 2
            &&& done_again.entries == s.entries
            &&& done_again.submit(code).1 is Miss
        }),
{
}

/// Two sources sent together are built one after the other.
///
/// Two programs without entries are sent to a service where nobody builds
/// or waits. The first to come begins its run. Whenever the second asks,
/// before the first has begun, while it is written, compiled, bundled,
/// collected and stored, it is told to wait and nothing changes. When the
/// first is finished, the second begins.
pub proof fn law_two_sources_build_one_after_the_other(
    s: ServiceState,
    one: Seq<char>,
    two: Seq<char>,
    stderr: Seq<u8>,
    js: Seq<u8>,
    wasm: Seq<u8>,
)
    requires
        s.wf(),
        s.queue.idle(),
        !s.entries.dom().contains(key_of(one)),
        !s.entries.dom().contains(key_of(two)),
        valid_utf8(js),
    ensures
        ({
            let a = s.queue.issued;
            let b = s.queue.issued + 1;
            let queued = s.submit(one).0.submit(two).0;
            let begun = queued.begin(a, one).0;
            let compiling = begun.advance(a, EventView::SourceWritten { ok: true }).0;
            let bundling = compiling.advance(
                a,
                EventView::CompilerExited { success: true, stderr },
            ).0;
            let collecting = bundling.advance(a, EventView::BundlerExited).0;
            let storing = collecting.advance(
                a,
                EventView::Collected { js: Some(js), wasm: Some(wasm) },
            ).0;
            let (done, finish) = storing.advance(a, EventView::Stored { ok: true });
            &&& s.submit(one).1 == AdmissionView::Miss { ticket: a }
            &&& s.submit(one).0.submit(two).1 == AdmissionView::Miss { ticket: b }
            &&& queued.begin(b, two) == (queued, StepView::Wait)
            &&& queued.begin(a, one).1 is WriteSource
            &&& begun.begin(b, two) == (begun, StepView::Wait)
            &&& compiling.begin(b, two) == (compiling, StepView::Wait)
            &&& bundling.begin(b, two) == (bundling, StepView::Wait)
            &&& collecting.begin(b, two) == (collecting, StepView::Wait)
            &&& storing.begin(b, two) == (storing, StepView::Wait)
            &&& finish is Finish
            &&& done.begin(b, two).1 is WriteSource
            &&& done.begin(b, two).0.building(b)
            &&& done.begin(b, two).0.runs == s.runs + 2
        }),
{
}

/// Two requests for one new program make two runs, and no more.
///
/// A program that has no entry is sent twice to a service where nobody
/// builds or waits, the second time before the first has built. Both miss.
/// The first builds and its response is stored. The second builds too; its
/// key has an entry by then, so its response is sent and not stored. If
/// the toolchain leaves the same artifacts both times, the two answers are
/// the same bytes. Two runs were made; neither ticket can begin another,
/// and a third request is a hit.
pub proof fn law_identical_new_sources_both_build(
    s: ServiceState,
    code: Seq<char>,
    stderr: Seq<u8>,
    js: Seq<u8>,
    wasm: Seq<u8>,
)
    requires
        s.wf(),
        s.queue.idle(),
        !s.entries.dom().contains(key_of(code)),
        valid_utf8(js),
    ensures
        ({
            let key = key_of(code);
            let answer = wire_format(ResponseView::Success { js: decode_utf8(js), wasm });
            let artifacts = EventView::Collected { js: Some(js), wasm: Some(wasm) };
            let a = s.queue.issued;
            let b = s.queue.issued + 1;
            let (once, first) = s.submit(code);
            let (twice, second) = once.submit(code);
            let (collecting, collect) = run_to_collect(twice, a, code, stderr);
            let (storing, store) = collecting.advance(a, artifacts);
            let (built, finish) = storing.advance(a, EventView::Stored { ok: true });
            let (collecting_again, collect_again) = run_to_collect(built, b, code, stderr);
            let (done, finish_again) = collecting_again.advance(b, artifacts);
            &&& first == AdmissionView::Miss { ticket: a }
            &&& second == AdmissionView::Miss { ticket: b }
            &&& collect == StepView::Collect
            &&& store == StepView::Store { key, bytes: answer }
            &&& finish == StepView::Finish(Ok(answer))
            &&& built.runs == s.runs + 1
            &&& collect_again == StepView::Collect
            &&& finish_again == StepView::Finish(Ok(answer))
            &&& done.runs == s.runs + 2
            &&& done.entries == built.entries
            &&& done.begin(a, code) == (done, StepView::Ignored)
            &&& done.begin(b, code) == (done, StepView::Ignored)
            &&& done.submit(code) == (done, AdmissionView::Hit { key })
        }),
{
}

} // verus!
