//! The tracing pipeline: stages that each see an event and may change or
//! suppress it, and at the end a writer, if tracing is on.

use vstd::prelude::*;
use crate::coverage::SharedMemoryAttachError;
use crate::stream::{HEADER_LEN, TraceIoError, TraceStream};
use crate::trace::{Comparison, SiteId, TraceMessage};

verus! {

/// The symbolic part of an event: which input byte decided the branch, and
/// by what comparison.
#[derive(Clone, Copy, Debug, PartialEq, Eq, Structural)]
pub struct Constraint {
    pub offset: u64,
    pub comparison: Comparison,
}

/// One traced event. An event without a symbolic part is concrete: it is
/// seen by the stages and never written.
#[derive(Clone, Copy, Debug, PartialEq, Eq, Structural)]
pub struct TraceEvent {
    pub site: SiteId,
    pub float_derived: bool,
    pub symbolic: Option<Constraint>,
}

/// The environment variable that switches tracing off for a run.
pub const NO_SYMBOLIC_ENV: &'static str = "SYMCC_NO_SYMBOLIC_INPUT";

/// Setup hook of the tracing pipeline; it has nothing to prepare.
pub fn initialize() {
}

/// A stage as contracts see it.
pub enum StageModel {
    NoFloat,
    CallStackCoverage(Seq<SiteId>),
    Initialization(bool),
}

/// One stage of the pipeline.
#[derive(Debug)]
pub enum Stage {
    /// Makes every event that derives from a floating-point operation
    /// concrete.
    NoFloat,
    /// Lets the first symbolic event of each branch identity through and
    /// suppresses the later ones. Holds the identities seen so far.
    CallStackCoverage(Vec<SiteId>),
    /// Runs `initialize` before the first event that reaches it, and never
    /// again. Holds whether it has run.
    Initialization(bool),
}

impl View for Stage {
    type V = StageModel;

    open spec fn view(&self) -> StageModel {
        match self {
            Stage::NoFloat => StageModel::NoFloat,
            Stage::CallStackCoverage(seen) => StageModel::CallStackCoverage(seen@),
            Stage::Initialization(ran) => StageModel::Initialization(*ran),
        }
    }
}

/// What a stage makes of an event: the stage afterwards, and the event that
/// goes on to the next stage, `None` where the stage suppresses it.
pub open spec fn stage_step(stage: StageModel, event: TraceEvent) -> (StageModel, Option<TraceEvent>) {
    match stage {
        StageModel::NoFloat => (
            stage,
            Some(
                if event.float_derived {
                    TraceEvent { site: event.site, float_derived: true, symbolic: None }
                } else {
                    event
                },
            ),
        ),
        StageModel::CallStackCoverage(seen) => if event.symbolic is None {
            (stage, Some(event))
        } else if seen.contains(event.site) {
            (stage, None)
        } else {
            (StageModel::CallStackCoverage(seen.push(event.site)), Some(event))
        },
        StageModel::Initialization(_) => (StageModel::Initialization(true), Some(event)),
    }
}

fn contains_site(seen: &Vec<SiteId>, site: SiteId) -> (found: bool)
    ensures
        found == seen@.contains(site),
{
    let mut i: usize = 0;
    while i < seen.len()
        invariant
            i <= seen.len(),
            forall|k: int| 0 <= k < i ==> seen@[k] != site,
        decreases seen.len() - i,
    {
        if seen[i].call_site == site.call_site && seen[i].branch == site.branch {
            return true;
        }
        i += 1;
    }
    false
}

impl Stage {
    /// Hands `event` to the stage.
    pub fn process(&mut self, event: TraceEvent) -> (survivor: Option<TraceEvent>)
        ensures
            (final(self)@, survivor) == stage_step(old(self)@, event),
    {
        match self {
            Stage::NoFloat => {
                if event.float_derived {
                    Some(TraceEvent { site: event.site, float_derived: true, symbolic: None })
                } else {
                    Some(event)
                }
            },
            Stage::CallStackCoverage(seen) => {
                if event.symbolic.is_none() {
                    Some(event)
                } else if contains_site(seen, event.site) {
                    None
                } else {
                    seen.push(event.site);
                    Some(event)
                }
            },
            Stage::Initialization(ran) => {
                if !*ran {
                    initialize();
                    *ran = true;
                }
                Some(event)
            },
        }
    }
}

/// The message that is written for an event that has passed every stage:
/// none for a suppressed event, none for a concrete one.
pub open spec fn emission(survivor: Option<TraceEvent>) -> Option<TraceMessage> {
    match survivor {
        Some(event) => match event.symbolic {
            Some(constraint) => Some(
                TraceMessage {
                    site: event.site,
                    offset: constraint.offset,
                    comparison: constraint.comparison,
                },
            ),
            None => None,
        },
        None => None,
    }
}

/// An event's way through the stages, in their order: the stages afterwards
/// and what is left of the event. A stage that suppresses the event ends its
/// way; the stages behind it do not see it and do not change.
pub open spec fn run_stages(stages: Seq<StageModel>, event: TraceEvent) -> (
    Seq<StageModel>,
    Option<TraceEvent>,
)
    decreases stages.len(),
{
    if stages.len() == 0 {
        (stages, Some(event))
    } else {
        let before = run_stages(stages.drop_last(), event);
        match before.1 {
            Some(passed) => {
                let step = stage_step(stages.last(), passed);
                (before.0.push(step.0), step.1)
            },
            None => (before.0.push(stages.last()), None),
        }
    }
}

/// The stages as contracts see them.
pub open spec fn models(stages: Seq<Stage>) -> Seq<StageModel> {
    Seq::new(stages.len(), |i: int| stages[i]@)
}

/// The stages that the runtime is built with, before any event: floats are
/// made concrete, repeated branches are pruned, and setup runs once.
pub open spec fn standard_stages() -> Seq<StageModel> {
    seq![
        StageModel::NoFloat,
        StageModel::CallStackCoverage(Seq::empty()),
        StageModel::Initialization(false),
    ]
}

/// The stages and, where tracing is on, the writer behind them.
pub struct Pipeline {
    stages: Vec<Stage>,
    writer: Option<TraceStream>,
}

impl Pipeline {
    /// The stages, in the order in which an event meets them.
    pub closed spec fn stages(&self) -> Seq<StageModel> {
        models(self.stages@)
    }

    /// The writer; `None` where the process traces nothing.
    pub closed spec fn writer(&self) -> Option<TraceStream> {
        self.writer
    }

    /// The writer, if there is one, is well formed.
    pub open spec fn wf(&self) -> bool {
        self.writer() matches Some(stream) ==> stream.wf()
    }

    /// What `process` does to the writer for an event whose way through the
    /// stages ends in `message`, and what it returns.
    ///
    /// Nothing is written without a message or without a writer. A message
    /// is appended where the writer has room for it; where it has none, the
    /// stream stays as it is and the error says so.
    pub open spec fn written(
        &self,
        message: Option<TraceMessage>,
        after: Pipeline,
        emitted: Result<Option<TraceMessage>, TraceIoError>,
    ) -> bool {
        match (message, self.writer()) {
            (Some(message), Some(stream)) => {
                &&& after.writer() matches Some(later)
                &&& later.limit() == stream.limit()
                &&& if stream.has_room() {
                    &&& emitted == Ok::<Option<TraceMessage>, TraceIoError>(Some(message))
                    &&& later@ == stream@.push(message)
                } else {
                    &&& emitted == Err::<Option<TraceMessage>, TraceIoError>(
                        TraceIoError::CapacityExhausted,
                    )
                    &&& later@ == stream@
                    &&& later.image() == stream.image()
                }
            },
            _ => {
                &&& emitted == Ok::<Option<TraceMessage>, TraceIoError>(None)
                &&& after.writer() == self.writer()
            },
        }
    }

    /// A pipeline of `stages`, in this order, that ends in `writer`.
    pub fn new(stages: Vec<Stage>, writer: Option<TraceStream>) -> (pipeline: Pipeline)
        requires
            writer matches Some(stream) ==> stream.wf(),
        ensures
            pipeline.wf(),
            pipeline.stages() == models(stages@),
            pipeline.writer() == writer,
    {
        Pipeline { stages, writer }
    }

    /// The pipeline that the runtime is built with.
    pub fn standard(writer: Option<TraceStream>) -> (pipeline: Pipeline)
        requires
            writer matches Some(stream) ==> stream.wf(),
        ensures
            pipeline.wf(),
            pipeline.stages() == standard_stages(),
            pipeline.writer() == writer,
    {
        let mut stages: Vec<Stage> = Vec::new();
        stages.push(Stage::NoFloat);
        stages.push(Stage::CallStackCoverage(Vec::new()));
        stages.push(Stage::Initialization(false));
        Pipeline { stages, writer }
    }

    /// Whether the pipeline ends in a writer.
    pub fn is_tracing(&self) -> (tracing: bool)
        ensures
            tracing == self.writer() is Some,
    {
        self.writer.is_some()
    }

    /// The writer, to read what it has written.
    pub fn stream(&self) -> (stream: Option<&TraceStream>)
        ensures
            match stream {
                Some(found) => self.writer() == Some(*found),
                None => self.writer() is None,
            },
    {
        self.writer.as_ref()
    }

    /// Takes the pipeline apart and returns its writer.
    pub fn into_writer(self) -> (writer: Option<TraceStream>)
        ensures
            writer == self.writer(),
    {
        self.writer
    }

    /// Hands `event` to the stages, in their order, and writes the message
    /// of what comes out of the last, if tracing is on. Returns the message
    /// that was written, if any.
    ///
    /// The stages see the event whether tracing is on or not. Without a
    /// writer nothing is ever written.
    pub fn process(&mut self, event: TraceEvent) -> (emitted: Result<
        Option<TraceMessage>,
        TraceIoError,
    >)
        requires
            old(self).wf(),
        ensures
            final(self).wf(),
            final(self).stages() == run_stages(old(self).stages(), event).0,
            old(self).written(
                emission(run_stages(old(self).stages(), event).1),
                *final(self),
                emitted,
            ),
            old(self).writer() is None ==> emitted == Ok::<Option<TraceMessage>, TraceIoError>(
                None,
            ) && final(self).writer() is None,
    {
        let ghost before = models(self.stages@);
        let mut current = Some(event);
        let mut i: usize = 0;
        while i < self.stages.len()
            invariant
                i <= self.stages.len(),
                self.stages.len() == before.len(),
                self.writer == old(self).writer,
                before == models(old(self).stages@),
                models(self.stages@).take(i as int) == run_stages(before.take(i as int), event).0,
                current == run_stages(before.take(i as int), event).1,
                forall|k: int| i <= k < before.len() ==> self.stages@[k]@ == before[k],
            decreases self.stages.len() - i,
        {
            assert(before.take(i + 1).drop_last() == before.take(i as int));
            match current {
                Some(passed) => {
                    current = self.stages[i].process(passed);
                },
                None => {},
            }
            i += 1;
        }
        assert(before.take(i as int) == before);
        match current {
            Some(TraceEvent { site, float_derived: _, symbolic: Some(constraint) }) => {
                let message = TraceMessage {
                    site,
                    offset: constraint.offset,
                    comparison: constraint.comparison,
                };
                match &mut self.writer {
                    Some(stream) => match stream.append(message) {
                        Ok(()) => Ok(Some(message)),
                        Err(e) => Err(e),
                    },
                    None => Ok(None),
                }
            },
            _ => Ok(None),
        }
    }
}

/// Whether a value of `NO_SYMBOLIC_ENV` switches tracing off: `1` does, and
/// nothing else; nor does a variable that is not set.
pub open spec fn tracing_off(flag: Option<&str>) -> bool {
    flag matches Some(value) && value@ == "1"@
}

/// Reads the flag that switches tracing off.
pub fn tracing_disabled(flag: Option<&str>) -> (disabled: bool)
    ensures
        disabled == tracing_off(flag),
{
    match flag {
        Some(value) => value.to_owned() == "1".to_owned(),
        None => false,
    }
}

/// What a segment of `capacity` bytes makes of a writer, `None` standing for
/// a segment that could not be had: an empty stream with that capacity, or
/// the error where there is no segment or none that can hold a stream.
pub open spec fn opened(
    capacity: Option<usize>,
    writer: Result<Option<TraceStream>, SharedMemoryAttachError>,
) -> bool {
    if capacity matches Some(limit) && limit >= HEADER_LEN {
        &&& writer matches Ok(Some(stream))
        &&& stream.wf()
        &&& stream@ == Seq::<TraceMessage>::empty()
        &&& stream.limit() == capacity->Some_0
    } else {
        writer is Err
    }
}

/// Chooses, once and for the life of the process, between tracing and
/// coverage only.
///
/// `flag` is the value of `NO_SYMBOLIC_ENV`, and `segment` maps the trace
/// segment and gives its capacity, `None` where it cannot. With tracing
/// switched off there is no writer and the segment is not touched. Else the
/// segment must be there and hold a stream.
pub fn open_writer<F: FnOnce() -> Option<usize>>(flag: Option<&str>, segment: F) -> (writer: Result<
    Option<TraceStream>,
    SharedMemoryAttachError,
>)
    requires
        call_requires(segment, ()),
    ensures
        tracing_off(flag) ==> writer matches Ok(None),
        !tracing_off(flag) ==> exists|capacity: Option<usize>| #[trigger]
            call_ensures(segment, (), capacity) && opened(capacity, writer),
{
    if tracing_disabled(flag) {
        return Ok(None);
    }
    let capacity = segment();
    let writer = match capacity {
        Some(limit) => match TraceStream::new(limit) {
            Ok(stream) => Ok(Some(stream)),
            Err(e) => Err(e),
        },
        None => Err(SharedMemoryAttachError),
    };
    writer
}

/// What a run of events leaves behind the last stage: the stages after the
/// run, and the messages of the events that passed every stage, in their
/// order.
pub open spec fn trace_of(stages: Seq<StageModel>, events: Seq<TraceEvent>) -> (
    Seq<StageModel>,
    Seq<TraceMessage>,
)
    decreases events.len(),
{
    if events.len() == 0 {
        (stages, Seq::empty())
    } else {
        let before = trace_of(stages, events.drop_last());
        let step = run_stages(before.0, events.last());
        (
            step.0,
            match emission(step.1) {
                Some(message) => before.1.push(message),
                None => before.1,
            },
        )
    }
}

/// The stages of the standard pipeline, at any point of a run.
pub open spec fn is_standard(stages: Seq<StageModel>) -> bool {
    &&& stages.len() == 3
    &&& stages[0] is NoFloat
    &&& stages[1] is CallStackCoverage
    &&& stages[2] is Initialization
}

/// The branch identities that the pruning stage of a standard pipeline has
/// let through.
pub open spec fn seen_of(stages: Seq<StageModel>) -> Seq<SiteId> {
    stages[1]->CallStackCoverage_0
}

/// One event in the standard pipeline: a message comes out for a symbolic
/// event that derives from no floating-point operation and whose branch
/// identity is new, and for no other. The identity is then known.
pub proof fn lemma_standard_step(stages: Seq<StageModel>, event: TraceEvent)
    requires
        is_standard(stages),
    ensures
        is_standard(run_stages(stages, event).0),
        run_stages(stages, event).0[2] == StageModel::Initialization(true) || run_stages(
            stages,
            event,
        ).0[2] == stages[2],
        emission(run_stages(stages, event).1) == if !event.float_derived && event.symbolic is Some
            && !seen_of(stages).contains(event.site) {
            emission(Some(event))
        } else {
            None
        },
        seen_of(run_stages(stages, event).0) == if emission(run_stages(stages, event).1) is Some {
            seen_of(stages).push(event.site)
        } else {
            seen_of(stages)
        },
{
    reveal_with_fuel(run_stages, 4);
}

/// Under pruning every branch identity is recorded at most once: no two
/// messages of a run through the standard pipeline name the same branch, and
/// each names a branch that the pruning stage then knows.
pub proof fn lemma_pruned_sites_are_distinct(stages: Seq<StageModel>, events: Seq<TraceEvent>)
    requires
        is_standard(stages),
    ensures
        is_standard(trace_of(stages, events).0),
        forall|i: int|
            0 <= i < trace_of(stages, events).1.len() ==> seen_of(
                trace_of(stages, events).0,
            ).contains(#[trigger] trace_of(stages, events).1[i].site),
        forall|i: int|
            0 <= i < trace_of(stages, events).1.len() ==> !seen_of(stages).contains(
                #[trigger] trace_of(stages, events).1[i].site,
            ),
        forall|i: int, j: int|
            0 <= i < j < trace_of(stages, events).1.len() ==> trace_of(stages, events).1[i].site
                != trace_of(stages, events).1[j].site,
        forall|site: SiteId|
            seen_of(stages).contains(site) ==> seen_of(trace_of(stages, events).0).contains(site),
    decreases events.len(),
{
    if events.len() > 0 {
        let before = trace_of(stages, events.drop_last());
        lemma_pruned_sites_are_distinct(stages, events.drop_last());
        lemma_standard_step(before.0, events.last());
        let after = trace_of(stages, events);
        let site = events.last().site;
        if emission(run_stages(before.0, events.last()).1) is Some {
            assert(seen_of(after.0).last() == site);
            assert(forall|s: SiteId|
                seen_of(before.0).contains(s) ==> seen_of(after.0).contains(s)) by {
                assert forall|s: SiteId| seen_of(before.0).contains(s) implies seen_of(
                    after.0,
                ).contains(s) by {
                    let k = choose|k: int|
                        0 <= k < seen_of(before.0).len() && seen_of(before.0)[k] == s;
                    assert(seen_of(after.0)[k] == s);
                }
            }
        }
    }
}

/// A branch that is executed over and over, each time with the same event,
/// is recorded exactly once: of `times` equal events the standard pipeline
/// lets the first through and suppresses the rest.
pub proof fn lemma_repeated_branch_is_recorded_once(event: TraceEvent, times: nat)
    requires
        times >= 1,
        event.symbolic is Some,
        !event.float_derived,
    ensures
        trace_of(standard_stages(), Seq::new(times, |i: int| event)).1 == seq![
            emission(Some(event))->Some_0,
        ],
        seen_of(trace_of(standard_stages(), Seq::new(times, |i: int| event)).0) == seq![
            event.site,
        ],
    decreases times,
{
    let events = Seq::new(times, |i: int| event);
    let earlier = Seq::new((times - 1) as nat, |i: int| event);
    assert(events.drop_last() =~= earlier);
    lemma_pruned_sites_are_distinct(standard_stages(), earlier);
    let before = trace_of(standard_stages(), earlier);
    lemma_standard_step(before.0, event);
    if times > 1 {
        lemma_repeated_branch_is_recorded_once(event, (times - 1) as nat);
        assert(seen_of(before.0)[0] == event.site);
    }
}

} // verus!
