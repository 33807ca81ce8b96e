//! The compile service: cache first, then one build at a time.
//!
//! A request is looked up by the key of its source. If the key has an
//! entry, the entry is the answer and nothing is built. If not, the request
//! takes a ticket and builds when its turn comes; a successful build is
//! written to the cache and then recorded, a rejected program is answered
//! and forgotten.
//!
//! Two requests for one new program may both miss the cache before either
//! has built. Then both build, one after the other. Nothing merges them.
//!
//! The caller drives a request like this. It hands the request to
//! [`CompileService::submit`]. On a hit it reads the file of the key and
//! serves what it holds. On a miss it calls [`CompileService::begin`] with
//! its ticket, again after each build that finishes, until the answer is
//! no longer [`Step::Wait`]. From then on it does what each step says and
//! reports the result to [`CompileService::advance`], which gives the next
//! step, until the step is [`Step::Finish`].

use crate::cache::{recorded, BuildCache, Entries};
use crate::codec::{encode, wire_format};
use crate::key::{key_of, CacheKey};
use crate::protocol::{Event, EventView, Failure, Step, StepView};
use crate::response::{CompileRequest, CompileResponse, ResponseView};
use crate::runner::{react, run_step, Phase, Progress, ProgressView};
use crate::serializer::{BuildSerializer, Queue};
use vstd::prelude::*;
use vstd::slice::slice_to_vec;
use vstd::utf8::encode_utf8;

verus! {

/// How far the build in the section has come.
pub ghost enum StageView {
    /// The toolchain runs and is in the given phase.
    Running(Phase),
    /// The build went through; its encoded response is being written to
    /// the cache.
    Storing(Seq<u8>),
}

/// The build in the section.
pub ghost struct BuildView {
    pub ticket: nat,
    pub key: Seq<u8>,
    pub stage: StageView,
}

/// What the service answers to a new request.
pub ghost enum AdmissionView {
    Hit { key: Seq<u8> },
    Miss { ticket: nat },
}

/// Whether `bytes` are the wire format of a successful build.
pub open spec fn encodes_success(bytes: Seq<u8>) -> bool {
    exists|response: ResponseView| response is Success && #[trigger] wire_format(response) == bytes
}

/// Whether every entry is the wire format of a successful build.
pub open spec fn holds_successes(entries: Entries) -> bool {
    forall|key: Seq<u8>| #[trigger] entries.dom().contains(key) ==> encodes_success(entries[key])
}

/// The state of the service.
pub ghost struct ServiceState {
    /// The cache: the encoded response of each key that has an entry.
    pub entries: Entries,
    /// The tickets of the build section.
    pub queue: Queue,
    /// The build that is under way, if one is.
    pub build: Option<BuildView>,
    /// How many runs of the toolchain were begun so far.
    pub runs: nat,
}

impl ServiceState {
    /// The queue is consistent. A build that is under way belongs to the
    /// ticket whose turn it is. The cache holds successful builds and
    /// nothing else, and what is being written to it is a successful build
    /// whose key has no entry yet.
    pub open spec fn wf(self) -> bool {
        &&& self.queue.wf()
        &&& self.build matches Some(build) ==> {
            &&& self.queue.is_turn(build.ticket)
            &&& build.stage matches StageView::Storing(bytes) ==> {
                &&& encodes_success(bytes)
                &&& !self.entries.dom().contains(build.key)
            }
        }
        &&& holds_successes(self.entries)
    }

    /// The state of a service that has seen no request.
    pub open spec fn initial() -> ServiceState {
        ServiceState { entries: Map::empty(), queue: Queue::empty(), build: None, runs: 0 }
    }

    /// Whether the ticket's build is under way.
    pub open spec fn building(self, ticket: nat) -> bool {
        self.build matches Some(build) && build.ticket == ticket
    }

    /// A request for `code` arrives: a hit if its key has an entry, else a
    /// miss, which takes the next ticket.
    pub open spec fn submit(self, code: Seq<char>) -> (ServiceState, AdmissionView) {
        let key = key_of(code);
        if self.entries.dom().contains(key) {
            (self, AdmissionView::Hit { key })
        } else {
            (
                ServiceState { queue: self.queue.enter(), ..self },
                AdmissionView::Miss { ticket: self.queue.issued },
            )
        }
    }

    /// The holder of `ticket` asks to build `code`. If it is its turn and
    /// it has not begun, a run begins with the writing of the source. If
    /// it waits, it is told to wait. Else nothing happens. No other move
    /// begins a run.
    pub open spec fn begin(self, ticket: nat, code: Seq<char>) -> (ServiceState, StepView) {
        if self.queue.is_turn(ticket) && self.build is None {
            (
                ServiceState {
                    build: Some(
                        BuildView {
                            ticket,
                            key: key_of(code),
                            stage: StageView::Running(Phase::Writing),
                        },
                    ),
                    runs: self.runs + 1,
                    ..self
                },
                StepView::WriteSource { code: encode_utf8(code) },
            )
        } else if self.queue.waiting(ticket) {
            (self, StepView::Wait)
        } else {
            (self, StepView::Ignored)
        }
    }

    /// The state after the build under way has ended: the section is free
    /// and the turn passes on.
    pub open spec fn released(self) -> ServiceState {
        ServiceState { queue: self.queue.leave(), build: None, ..self }
    }

    /// The run of the build under way, which is for `key`, has ended with
    /// `result`. A fault ends the request. A response is encoded; that of
    /// a successful build goes to the cache first, unless the key has
    /// an entry by now; any other is the answer at once.
    pub open spec fn conclude(self, ticket: nat, key: Seq<u8>, result: Result<ResponseView, Failure>) -> (
        ServiceState,
        StepView,
    ) {
        match result {
            Err(failure) => (self.released(), StepView::Finish(Err(failure))),
            Ok(response) => {
                let bytes = wire_format(response);
                if response is Success && !self.entries.dom().contains(key) {
                    (
                        ServiceState {
                            build: Some(BuildView { ticket, key, stage: StageView::Storing(bytes) }),
                            ..self
                        },
                        StepView::Store { key, bytes },
                    )
                } else {
                    (self.released(), StepView::Finish(Ok(bytes)))
                }
            },
        }
    }

    /// The holder of `ticket` reports `event`. Unless its build is under
    /// way and awaits that event, nothing happens.
    pub open spec fn advance(self, ticket: nat, event: EventView) -> (ServiceState, StepView) {
        match self.build {
            Some(build) if build.ticket == ticket => match build.stage {
                StageView::Running(phase) => match run_step(phase, event) {
                    ProgressView::Compile => (
                        self.running(build, Phase::Compiling),
                        StepView::Compile,
                    ),
                    ProgressView::Bundle => (self.running(build, Phase::Bundling), StepView::Bundle),
                    ProgressView::Collect => (
                        self.running(build, Phase::Collecting),
                        StepView::Collect,
                    ),
                    ProgressView::Done(result) => self.conclude(ticket, build.key, result),
                    ProgressView::Unexpected => (self, StepView::Ignored),
                },
                StageView::Storing(bytes) => match event {
                    EventView::Stored { ok } => if ok {
                        (
                            ServiceState {
                                entries: recorded(self.entries, build.key, bytes),
                                ..self.released()
                            },
                            StepView::Finish(Ok(bytes)),
                        )
                    } else {
                        (self.released(), StepView::Finish(Err(Failure::CacheIo)))
                    },
                    _ => (self, StepView::Ignored),
                },
            },
            _ => (self, StepView::Ignored),
        }
    }

    /// The state with the run of `build` in `phase`.
    pub open spec fn running(self, build: BuildView, phase: Phase) -> ServiceState {
        ServiceState { build: Some(BuildView { stage: StageView::Running(phase), ..build }), ..self }
    }
}

/// What the service answers to a new request.
#[derive(Debug, Clone, Copy, PartialEq, Eq)]
pub enum Admission {
    /// The key has an entry: read its file and serve what it holds.
    Hit { key: CacheKey },
    /// The key has no entry: build with the given ticket.
    Miss { ticket: u64 },
}

impl View for Admission {
    type V = AdmissionView;

    open spec fn view(&self) -> AdmissionView {
        match *self {
            Admission::Hit { key } => AdmissionView::Hit { key: key@ },
            Admission::Miss { ticket } => AdmissionView::Miss { ticket: ticket as nat },
        }
    }
}

/// How far the build in the section has come.
enum Stage {
    Running(Phase),
    Storing(Vec<u8>),
}

/// The build in the section.
struct Build {
    ticket: u64,
    key: CacheKey,
    stage: Stage,
}

/// The service: its cache, its build section, and the build under way.
/// Made once, when the server starts, and handed to every request.
pub struct CompileService {
    cache: BuildCache,
    serializer: BuildSerializer,
    build: Option<Build>,
    runs: Ghost<nat>,
}

impl View for CompileService {
    type V = ServiceState;

    closed spec fn view(&self) -> ServiceState {
        ServiceState {
            entries: self.cache@,
            queue: self.serializer@,
            build: match self.build {
                Some(build) => Some(
                    BuildView {
                        ticket: build.ticket as nat,
                        key: build.key@,
                        stage: match build.stage {
                            Stage::Running(phase) => StageView::Running(phase),
                            Stage::Storing(bytes) => StageView::Storing(bytes@),
                        },
                    },
                ),
                None => None,
            },
            runs: self.runs@,
        }
    }
}

impl CompileService {
    /// Whether the index of the cache and the counters of the build
    /// section are consistent.
    pub closed spec fn parts_wf(&self) -> bool {
        &&& self.cache.wf()
        &&& self.serializer.wf()
    }

    /// Whether the service is consistent: its parts are, and so is its
    /// state. Every service made by [`Self::new`] and changed by the
    /// methods below is.
    pub open spec fn wf(&self) -> bool {
        &&& self.parts_wf()
        &&& self@.wf()
    }

    /// A service that has seen no request.
    pub fn new() -> (out: CompileService)
        ensures
            out.wf(),
            out@ == ServiceState::initial(),
    {
        CompileService {
            cache: BuildCache::new(),
            serializer: BuildSerializer::new(),
            build: None,
            runs: Ghost(0),
        }
    }

    /// Whether a ticket is left for a request that misses the cache.
    /// Tickets run out after `u64::MAX` misses.
    pub fn has_ticket(&self) -> (out: bool)
        ensures
            out == (self@.queue.issued < u64::MAX),
    {
        self.serializer.has_ticket()
    }

    /// Whether the holder of `ticket` may build now.
    pub fn is_turn(&self, ticket: u64) -> (out: bool)
        ensures
            out == self@.queue.is_turn(ticket as nat),
    {
        self.serializer.is_turn(ticket)
    }

    /// Whether a build is under way.
    pub fn is_building(&self) -> (out: bool)
        ensures
            out == self@.build is Some,
    {
        self.build.is_some()
    }

    /// Takes in a request: a hit if the key of its source has an entry, a
    /// miss with a new ticket if not.
    pub fn submit(&mut self, request: &CompileRequest) -> (out: Admission)
        requires
            old(self).wf(),
            old(self)@.queue.issued < u64::MAX,
        ensures
            final(self).wf(),
            (final(self)@, out@) == old(self)@.submit(request@),
    {
        let key = CacheKey::of(request.code.as_str());
        if self.cache.contains(&key) {
            Admission::Hit { key }
        } else {
            let ticket = self.serializer.enter();
            Admission::Miss { ticket }
        }
    }

    /// Begins the build of `request` for the holder of `ticket`, if it is
    /// its turn.
    pub fn begin(&mut self, ticket: u64, request: &CompileRequest) -> (out: Step)
        requires
            old(self).wf(),
        ensures
            final(self).wf(),
            (final(self)@, out@) == old(self)@.begin(ticket as nat, request@),
    {
        if self.serializer.is_turn(ticket) && self.build.is_none() {
            let code = request.code.as_str();
            let key = CacheKey::of(code);
            self.build = Some(Build { ticket, key, stage: Stage::Running(Phase::Writing) });
            self.runs = Ghost(self.runs@ + 1);
            Step::WriteSource { code: slice_to_vec(code.as_bytes()) }
        } else if self.serializer.is_waiting(ticket) {
            Step::Wait
        } else {
            Step::Ignored
        }
    }

    /// Ends the build under way with the result of its run.
    fn conclude(&mut self, ticket: u64, key: CacheKey, result: Result<CompileResponse, Failure>) -> (out:
        Step)
        requires
            old(self).wf(),
            old(self)@.building(ticket as nat),
        ensures
            final(self).wf(),
            (final(self)@, out@) == old(self)@.conclude(
                ticket as nat,
                key@,
                match result {
                    Ok(response) => Ok(response@),
                    Err(failure) => Err(failure),
                },
            ),
    {
        match result {
            Err(failure) => {
                self.build = None;
                self.serializer.leave(ticket);
                Step::Finish(Err(failure))
            },
            Ok(response) => {
                let bytes = encode(&response);
                if response.is_success() && !self.cache.contains(&key) {
                    let copy = slice_to_vec(bytes.as_slice());
                    self.build = Some(Build { ticket, key, stage: Stage::Storing(bytes) });
                    Step::Store { key, bytes: copy }
                } else {
                    self.build = None;
                    self.serializer.leave(ticket);
                    Step::Finish(Ok(bytes))
                }
            },
        }
    }

    /// Takes the report of the holder of `ticket` and says what is next.
    pub fn advance(&mut self, ticket: u64, event: Event) -> (out: Step)
        requires
            old(self).wf(),
        ensures
            final(self).wf(),
            (final(self)@, out@) == old(self)@.advance(ticket as nat, event@),
    {
        let holds = match &self.build {
            Some(build) => build.ticket == ticket,
            None => false,
        };
        if !holds {
            return Step::Ignored;
        }
        let Build { ticket: _, key, stage } = self.build.take().unwrap();
        match stage {
            Stage::Running(phase) => match react(phase, event) {
                Progress::Compile => {
                    self.build = Some(Build { ticket, key, stage: Stage::Running(Phase::Compiling) });
                    Step::Compile
                },
                Progress::Bundle => {
                    self.build = Some(Build { ticket, key, stage: Stage::Running(Phase::Bundling) });
                    Step::Bundle
                },
                Progress::Collect => {
                    self.build = Some(
                        Build { ticket, key, stage: Stage::Running(Phase::Collecting) },
                    );
                    Step::Collect
                },
                Progress::Done(result) => {
                    self.build = Some(Build { ticket, key, stage: Stage::Running(phase) });
                    self.conclude(ticket, key, result)
                },
                Progress::Unexpected => {
                    self.build = Some(Build { ticket, key, stage: Stage::Running(phase) });
                    Step::Ignored
                },
            },
            Stage::Storing(bytes) => match event {
                Event::Stored { ok } => {
                    self.serializer.leave(ticket);
                    if ok {
                        self.cache.record(key, bytes.as_slice());
                        Step::Finish(Ok(bytes))
                    } else {
                        Step::Finish(Err(Failure::CacheIo))
                    }
                },
                _ => {
                    self.build = Some(Build { ticket, key, stage: Stage::Storing(bytes) });
                    Step::Ignored
                },
            },
        }
    }
}

} // verus!
