//! The transform pipeline, as a state machine.  The caller performs every
//! filesystem and filter-engine operation: the machine hands it an `Action`,
//! the caller answers with an `Event`, and the machine decides everything in
//! between — parameter resolution, fail-fast collection of all sources,
//! per-document or aggregate execution, encoding, and the terminal outcome.
//!
//! The machine is a pure function of its state and the events it is fed:
//! `spec_start` and `spec_next` state every transition exactly.

use vstd::prelude::*;
use vstd::string::StringExecFns;
use crate::codec::{decode, encode, spec_decode, spec_encode};
use crate::params::{JobSpec, ParamV, str_views};
use crate::resolve::{
    resolve, resolve_filter_source, spec_resolve, error_message, filter_resolution, ConfigV,
    ErrorV, FilterResolution, FilterSource, PipelineError, ResolvedConfig,
};

verus! {

/// The terminal outcome of one job: success, or one diagnostic message.
#[derive(Debug)]
pub enum JobOutcome {
    Completed,
    Error(String),
}

/// The mathematical shape of a `JobOutcome`.
pub enum OutcomeV {
    Completed,
    Error(Seq<char>),
}

impl View for JobOutcome {
    type V = OutcomeV;

    open spec fn view(&self) -> OutcomeV {
        match self {
            JobOutcome::Completed => OutcomeV::Completed,
            JobOutcome::Error(m) => OutcomeV::Error(m@),
        }
    }
}

impl JobOutcome {
    /// True exactly when the job completed without error.
    pub fn is_completed(&self) -> (r: bool)
        ensures
            r == (self@ is Completed),
    {
        match self {
            JobOutcome::Completed => true,
            JobOutcome::Error(_) => false,
        }
    }
}

/// The message an error outcome carries.
pub open spec fn outcome_message(e: ErrorV) -> Seq<char> {
    "IO Error: "@ + error_message(e)
}

/// Builds the error outcome, as `outcome_message` states.
fn failed_outcome(e: &PipelineError) -> (r: JobOutcome)
    ensures
        r@ == OutcomeV::Error(outcome_message(e@)),
{
    let mut s = String::from_str("IO Error: ");
    let m = e.message();
    s.append(m.as_str());
    JobOutcome::Error(s)
}

/// The documents joined with commas, in order.
pub open spec fn joined_docs(docs: Seq<Seq<char>>) -> Seq<char>
    decreases docs.len(),
{
    if docs.len() == 0 {
        Seq::empty()
    } else if docs.len() == 1 {
        docs[0]
    } else {
        joined_docs(docs.drop_last()) + ","@ + docs.last()
    }
}

/// The aggregate-mode filter input: exactly the array of the documents, in
/// source order.
pub open spec fn aggregate_text(docs: Seq<Seq<char>>) -> Seq<char> {
    "["@ + joined_docs(docs) + "]"@
}

proof fn lemma_joined_docs_step(docs: Seq<Seq<char>>, i: int)
    requires
        0 <= i < docs.len(),
    ensures
        i == 0 ==> joined_docs(docs.take(1)) == docs[0],
        i > 0 ==> joined_docs(docs.take(i + 1)) == joined_docs(docs.take(i)) + ","@ + docs[i],
{
    let t = docs.take(i + 1);
    assert(t.last() == docs[i]);
    assert(t.drop_last() =~= docs.take(i));
}

/// Builds the aggregate-mode filter input, as `aggregate_text` states.
pub fn aggregate_input(docs: &Vec<String>) -> (r: String)
    ensures
        r@ == aggregate_text(str_views(docs@)),
{
    let ghost views = str_views(docs@);
    let mut s = String::from_str("[");
    let mut i: usize = 0;
    while i < docs.len()
        invariant
            i <= docs.len(),
            views == str_views(docs@),
            views.len() == docs.len(),
            s@ == "["@ + joined_docs(views.take(i as int)),
        decreases docs.len() - i,
    {
        proof {
            lemma_joined_docs_step(views, i as int);
            assert(views[i as int] == docs@[i as int]@);
        }
        if i > 0 {
            s.append(",");
            s.append(docs[i].as_str());
            proof {
                assert(s@ =~= "["@ + joined_docs(views.take(i + 1)));
            }
        } else {
            s.append(docs[i].as_str());
            proof {
                assert(views.take(0int) =~= Seq::<Seq<char>>::empty());
                assert(s@ =~= "["@ + joined_docs(views.take(1int)));
            }
        }
        i += 1;
    }
    s.append("]");
    proof {
        assert(views.take(docs.len() as int) =~= views);
    }
    s
}

/// What a probed path turned out to be.
#[derive(Clone, Copy, PartialEq, Eq, Structural, Debug)]
pub enum FileProbe {
    RegularFile,
    Directory,
    Missing,
}

/// What the machine asks its driver to do next.
#[derive(Debug)]
pub enum Action {
    /// Probe the filter file's path.
    ProbeFilter { path: String },
    /// Read the filter file's contents.
    ReadFilterFile { path: String },
    /// Compile the filter text, once, before any source is touched.
    CompileFilter { filter: String },
    /// Probe one source path.
    ProbeSource { path: String },
    /// Read one source's contents.
    ReadSource { path: String },
    /// Run the compiled filter on the given input text.
    RunFilter { input: String },
    /// Replace the destination's contents with the given text.
    WriteDestination { path: String, content: String },
    /// The job is over; nothing more will be asked.
    Report { outcome: JobOutcome },
}

/// The mathematical shape of an `Action`.
pub enum ActionV {
    ProbeFilter { path: Seq<char> },
    ReadFilterFile { path: Seq<char> },
    CompileFilter { filter: Seq<char> },
    ProbeSource { path: Seq<char> },
    ReadSource { path: Seq<char> },
    RunFilter { input: Seq<char> },
    WriteDestination { path: Seq<char>, content: Seq<char> },
    Report { outcome: OutcomeV },
}

impl View for Action {
    type V = ActionV;

    open spec fn view(&self) -> ActionV {
        match self {
            Action::ProbeFilter { path } => ActionV::ProbeFilter { path: path@ },
            Action::ReadFilterFile { path } => ActionV::ReadFilterFile { path: path@ },
            Action::CompileFilter { filter } => ActionV::CompileFilter { filter: filter@ },
            Action::ProbeSource { path } => ActionV::ProbeSource { path: path@ },
            Action::ReadSource { path } => ActionV::ReadSource { path: path@ },
            Action::RunFilter { input } => ActionV::RunFilter { input: input@ },
            Action::WriteDestination { path, content } => ActionV::WriteDestination {
                path: path@,
                content: content@,
            },
            Action::Report { outcome } => ActionV::Report { outcome: outcome@ },
        }
    }
}

/// What the driver answers once it has performed an action.
#[derive(Debug)]
#[allow(inconsistent_fields)]
pub enum Event {
    FilterProbed { probe: FileProbe },
    FilterFileRead { result: Result<String, String> },
    FilterCompiled { result: Result<(), String> },
    SourceProbed { probe: FileProbe },
    SourceRead { result: Result<String, String> },
    FilterRan { result: Result<String, String> },
    DestinationWritten { result: Result<(), String> },
}

/// The mathematical shape of an `Event`.
#[allow(inconsistent_fields)]
pub enum EventV {
    FilterProbed { probe: FileProbe },
    FilterFileRead { result: Result<Seq<char>, Seq<char>> },
    FilterCompiled { result: Result<(), Seq<char>> },
    SourceProbed { probe: FileProbe },
    SourceRead { result: Result<Seq<char>, Seq<char>> },
    FilterRan { result: Result<Seq<char>, Seq<char>> },
    DestinationWritten { result: Result<(), Seq<char>> },
}

impl View for Event {
    type V = EventV;

    open spec fn view(&self) -> EventV {
        match self {
            Event::FilterProbed { probe } => EventV::FilterProbed { probe: *probe },
            Event::FilterFileRead { result } => EventV::FilterFileRead {
                result: (match result {
                    Ok(s) => Ok(s@),
                    Err(m) => Err(m@),
                }),
            },
            Event::FilterCompiled { result } => EventV::FilterCompiled {
                result: (match result {
                    Ok(_) => Ok(()),
                    Err(m) => Err(m@),
                }),
            },
            Event::SourceProbed { probe } => EventV::SourceProbed { probe: *probe },
            Event::SourceRead { result } => EventV::SourceRead {
                result: (match result {
                    Ok(s) => Ok(s@),
                    Err(m) => Err(m@),
                }),
            },
            Event::FilterRan { result } => EventV::FilterRan {
                result: (match result {
                    Ok(s) => Ok(s@),
                    Err(m) => Err(m@),
                }),
            },
            Event::DestinationWritten { result } => EventV::DestinationWritten {
                result: (match result {
                    Ok(_) => Ok(()),
                    Err(m) => Err(m@),
                }),
            },
        }
    }
}

enum State {
    ProbingFilter { job: JobSpec, path: String },
    ReadingFilter { job: JobSpec, path: String },
    Compiling { cfg: ResolvedConfig },
    Probing { cfg: ResolvedConfig, docs: Vec<String> },
    Reading { cfg: ResolvedConfig, docs: Vec<String> },
    Running { cfg: ResolvedConfig, docs: Vec<String>, idx: usize },
    Writing { cfg: ResolvedConfig, docs: Vec<String>, idx: usize },
    Finished { outcome: JobOutcome },
}

/// Where the machine stands.  `docs` are the documents decoded so far; while
/// collecting, the source being worked on is `sources[docs.len()]`; while
/// executing per document, `idx` is the document being transformed.
pub enum StateV {
    ProbingFilter { job: Seq<ParamV>, path: Seq<char> },
    ReadingFilter { job: Seq<ParamV>, path: Seq<char> },
    Compiling { cfg: ConfigV },
    Probing { cfg: ConfigV, docs: Seq<Seq<char>> },
    Reading { cfg: ConfigV, docs: Seq<Seq<char>> },
    Running { cfg: ConfigV, docs: Seq<Seq<char>>, idx: int },
    Writing { cfg: ConfigV, docs: Seq<Seq<char>>, idx: int },
    Finished { outcome: OutcomeV },
}

impl StateV {
    /// The machine's structural invariant: a configuration always has a
    /// source; collection is not past the last source; execution has every
    /// source decoded, and works per document unless aggregating.
    pub open spec fn inv(self) -> bool {
        match self {
            StateV::ProbingFilter { .. } => true,
            StateV::ReadingFilter { .. } => true,
            StateV::Compiling { cfg } => cfg.wf(),
            StateV::Probing { cfg, docs } => cfg.wf() && docs.len() < cfg.sources.len(),
            StateV::Reading { cfg, docs } => cfg.wf() && docs.len() < cfg.sources.len(),
            StateV::Running { cfg, docs, idx } => cfg.wf() && docs.len() == cfg.sources.len()
                && 0 <= idx < docs.len() && (cfg.aggregate ==> idx == 0),
            StateV::Writing { cfg, docs, idx } => cfg.wf() && docs.len() == cfg.sources.len()
                && 0 <= idx < docs.len() && (cfg.aggregate ==> idx == 0),
            StateV::Finished { .. } => true,
        }
    }

    /// Which event answers the action the machine last issued.
    pub open spec fn accepts(self, e: EventV) -> bool {
        match (self, e) {
            (StateV::ProbingFilter { .. }, EventV::FilterProbed { .. }) => true,
            (StateV::ReadingFilter { .. }, EventV::FilterFileRead { .. }) => true,
            (StateV::Compiling { .. }, EventV::FilterCompiled { .. }) => true,
            (StateV::Probing { .. }, EventV::SourceProbed { .. }) => true,
            (StateV::Reading { .. }, EventV::SourceRead { .. }) => true,
            (StateV::Running { .. }, EventV::FilterRan { .. }) => true,
            (StateV::Writing { .. }, EventV::DestinationWritten { .. }) => true,
            _ => false,
        }
    }
}

/// The terminal pair for an error.
pub open spec fn spec_failed(e: ErrorV) -> (StateV, ActionV) {
    (
        StateV::Finished { outcome: OutcomeV::Error(outcome_message(e)) },
        ActionV::Report { outcome: OutcomeV::Error(outcome_message(e)) },
    )
}

/// The terminal pair for success.
pub open spec fn spec_completed() -> (StateV, ActionV) {
    (
        StateV::Finished { outcome: OutcomeV::Completed },
        ActionV::Report { outcome: OutcomeV::Completed },
    )
}

/// Where the machine goes once the filter text is in hand: the remaining
/// parameters are resolved, and the filter is handed out for compilation.
pub open spec fn spec_after_filter(job: Seq<ParamV>, filter: Seq<char>) -> (StateV, ActionV) {
    match spec_resolve(job, filter) {
        Err(e) => spec_failed(e),
        Ok(cfg) => (
            StateV::Compiling { cfg },
            ActionV::CompileFilter { filter: cfg.filter },
        ),
    }
}

/// Where the machine starts: filter-source resolution first — an unsupported
/// mode ends the job before anything else is asked of the driver.
pub open spec fn spec_start(job: Seq<ParamV>) -> (StateV, ActionV) {
    match filter_resolution(job) {
        FilterResolution::Invalid(e) => spec_failed(e),
        FilterResolution::FromFile(path) => (
            StateV::ProbingFilter { job, path },
            ActionV::ProbeFilter { path },
        ),
        FilterResolution::Inline(t) => spec_after_filter(job, t),
    }
}

/// Every transition of the machine.  Unspecified where the event does not
/// answer the state's pending action (see `StateV::accepts`).
pub open spec fn spec_next(s: StateV, e: EventV) -> (StateV, ActionV) {
    match (s, e) {
        (StateV::ProbingFilter { job, path }, EventV::FilterProbed { probe }) => match probe {
            FileProbe::RegularFile => (
                StateV::ReadingFilter { job, path },
                ActionV::ReadFilterFile { path },
            ),
            FileProbe::Missing => spec_failed(ErrorV::NoSuchFile { path }),
            FileProbe::Directory => spec_failed(ErrorV::PathIsDirectory { path }),
        },
        (StateV::ReadingFilter { job, path: _ }, EventV::FilterFileRead { result }) => match result {
            Ok(text) => spec_after_filter(job, text),
            Err(m) => spec_failed(ErrorV::FilterReadFailed { message: m }),
        },
        (StateV::Compiling { cfg }, EventV::FilterCompiled { result }) => match result {
            Ok(_) => (
                StateV::Probing { cfg, docs: Seq::empty() },
                ActionV::ProbeSource { path: cfg.sources[0] },
            ),
            Err(m) => spec_failed(ErrorV::CompileFailed { message: m }),
        },
        (StateV::Probing { cfg, docs }, EventV::SourceProbed { probe }) => match probe {
            FileProbe::RegularFile => (
                StateV::Reading { cfg, docs },
                ActionV::ReadSource { path: cfg.sources[docs.len() as int] },
            ),
            FileProbe::Missing => spec_failed(
                ErrorV::NoSuchFile { path: cfg.sources[docs.len() as int] },
            ),
            FileProbe::Directory => spec_failed(
                ErrorV::PathIsDirectory { path: cfg.sources[docs.len() as int] },
            ),
        },
        (StateV::Reading { cfg, docs }, EventV::SourceRead { result }) => match result {
            Ok(raw) => match spec_decode(cfg.sources[docs.len() as int], raw) {
                Err(m) => spec_failed(
                    ErrorV::DecodeFailed { path: cfg.sources[docs.len() as int], message: m },
                ),
                Ok(doc) => {
                    let collected = docs.push(doc);
                    if collected.len() < cfg.sources.len() {
                        (
                            StateV::Probing { cfg, docs: collected },
                            ActionV::ProbeSource { path: cfg.sources[collected.len() as int] },
                        )
                    } else if cfg.aggregate {
                        (
                            StateV::Running { cfg, docs: collected, idx: 0 },
                            ActionV::RunFilter { input: aggregate_text(collected) },
                        )
                    } else {
                        (
                            StateV::Running { cfg, docs: collected, idx: 0 },
                            ActionV::RunFilter { input: collected[0] },
                        )
                    }
                },
            },
            Err(m) => spec_failed(
                ErrorV::ReadFailed { path: cfg.sources[docs.len() as int], message: m },
            ),
        },
        (StateV::Running { cfg, docs, idx }, EventV::FilterRan { result }) => match result {
            Ok(out) => match spec_encode(cfg.output, out) {
                Ok(content) => (
                    StateV::Writing { cfg, docs, idx },
                    ActionV::WriteDestination { path: cfg.dest, content },
                ),
                Err(m) => spec_failed(ErrorV::EncodeFailed { message: m }),
            },
            Err(m) => spec_failed(ErrorV::RunFailed { message: m }),
        },
        (StateV::Writing { cfg, docs, idx }, EventV::DestinationWritten { result }) => match result {
            Ok(_) => if cfg.aggregate || idx + 1 >= docs.len() {
                spec_completed()
            } else {
                (
                    StateV::Running { cfg, docs, idx: idx + 1 },
                    ActionV::RunFilter { input: docs[idx + 1] },
                )
            },
            Err(m) => spec_failed(ErrorV::WriteFailed { message: m }),
        },
        _ => arbitrary(),
    }
}

/// One job's pipeline, driven by actions and events.
pub struct Pipeline {
    state: State,
}

impl View for Pipeline {
    type V = StateV;

    closed spec fn view(&self) -> StateV {
        match &self.state {
            State::ProbingFilter { job, path } => StateV::ProbingFilter {
                job: job@,
                path: path@,
            },
            State::ReadingFilter { job, path } => StateV::ReadingFilter {
                job: job@,
                path: path@,
            },
            State::Compiling { cfg } => StateV::Compiling { cfg: cfg@ },
            State::Probing { cfg, docs } => StateV::Probing {
                cfg: cfg@,
                docs: str_views(docs@),
            },
            State::Reading { cfg, docs } => StateV::Reading {
                cfg: cfg@,
                docs: str_views(docs@),
            },
            State::Running { cfg, docs, idx } => StateV::Running {
                cfg: cfg@,
                docs: str_views(docs@),
                idx: *idx as int,
            },
            State::Writing { cfg, docs, idx } => StateV::Writing {
                cfg: cfg@,
                docs: str_views(docs@),
                idx: *idx as int,
            },
            State::Finished { outcome } => StateV::Finished { outcome: outcome@ },
        }
    }
}

fn finished(e: PipelineError) -> (r: (Pipeline, Action))
    ensures
        r.0@ == spec_failed(e@).0,
        r.1@ == spec_failed(e@).1,
{
    let state_outcome = failed_outcome(&e);
    let report_outcome = failed_outcome(&e);
    (
        Pipeline { state: State::Finished { outcome: state_outcome } },
        Action::Report { outcome: report_outcome },
    )
}

fn completed() -> (r: (Pipeline, Action))
    ensures
        r.0@ == spec_completed().0,
        r.1@ == spec_completed().1,
{
    (
        Pipeline { state: State::Finished { outcome: JobOutcome::Completed } },
        Action::Report { outcome: JobOutcome::Completed },
    )
}

impl Pipeline {
    fn after_filter(job: JobSpec, filter_text: String) -> (r: (Pipeline, Action))
        ensures
            r.0@ == spec_after_filter(job@, filter_text@).0,
            r.1@ == spec_after_filter(job@, filter_text@).1,
            r.0@.inv(),
    {
        match resolve(&job, filter_text) {
            Err(e) => finished(e),
            Ok(cfg) => {
                let filter = cfg.filter_text.clone();
                (
                    Pipeline { state: State::Compiling { cfg } },
                    Action::CompileFilter { filter },
                )
            },
        }
    }

    /// Starts one job, as `spec_start` states: the first action is already
    /// decided by the job's parameters alone.
    pub fn start(job: JobSpec) -> (r: (Pipeline, Action))
        ensures
            r.0@ == spec_start(job@).0,
            r.1@ == spec_start(job@).1,
            r.0@.inv(),
    {
        match resolve_filter_source(&job) {
            Err(e) => finished(e),
            Ok(FilterSource::FileReference(p)) => {
                let path = p.clone();
                (
                    Pipeline { state: State::ProbingFilter { job, path: p } },
                    Action::ProbeFilter { path },
                )
            },
            Ok(FilterSource::Inline(t)) => Self::after_filter(job, t),
        }
    }

    /// Feeds the answer to the pending action, as `spec_next` states, and
    /// returns the next action.
    pub fn on_event(self, event: Event) -> (r: (Pipeline, Action))
        requires
            self@.inv(),
            self@.accepts(event@),
        ensures
            r.0@ == spec_next(self@, event@).0,
            r.1@ == spec_next(self@, event@).1,
            r.0@.inv(),
    {
        let Pipeline { state } = self;
        match (state, event) {
            (State::ProbingFilter { job, path }, Event::FilterProbed { probe }) => match probe {
                FileProbe::RegularFile => {
                    let p = path.clone();
                    (
                        Pipeline { state: State::ReadingFilter { job, path } },
                        Action::ReadFilterFile { path: p },
                    )
                },
                FileProbe::Missing => finished(PipelineError::NoSuchFile { path }),
                FileProbe::Directory => finished(PipelineError::PathIsDirectory { path }),
            },
            (State::ReadingFilter { job, path: _ }, Event::FilterFileRead { result }) => match result {
                Ok(text) => Self::after_filter(job, text),
                Err(m) => finished(PipelineError::FilterReadFailed { message: m }),
            },
            (State::Compiling { cfg }, Event::FilterCompiled { result }) => match result {
                Ok(_) => {
                    let path = cfg.source_paths[0].clone();
                    let docs: Vec<String> = Vec::new();
                    proof {
                        assert(cfg@.sources[0] == cfg.source_paths@[0]@);
                        assert(str_views(docs@) =~= Seq::<Seq<char>>::empty());
                    }
                    (
                        Pipeline { state: State::Probing { cfg, docs } },
                        Action::ProbeSource { path },
                    )
                },
                Err(m) => finished(PipelineError::CompileFailed { message: m }),
            },
            (State::Probing { cfg, docs }, Event::SourceProbed { probe }) => {
                let path = cfg.source_paths[docs.len()].clone();
                proof {
                    assert(cfg@.sources[docs@.len() as int]
                        == cfg.source_paths@[docs@.len() as int]@);
                    assert(str_views(docs@).len() == docs@.len());
                }
                match probe {
                    FileProbe::RegularFile => (
                        Pipeline { state: State::Reading { cfg, docs } },
                        Action::ReadSource { path },
                    ),
                    FileProbe::Missing => finished(PipelineError::NoSuchFile { path }),
                    FileProbe::Directory => finished(PipelineError::PathIsDirectory { path }),
                }
            },
            (State::Reading { cfg, docs }, Event::SourceRead { result }) => match result {
                Ok(raw) => {
                    let mut docs = docs;
                    let path = cfg.source_paths[docs.len()].clone();
                    proof {
                        assert(cfg@.sources[docs@.len() as int]
                            == cfg.source_paths@[docs@.len() as int]@);
                        assert(str_views(docs@).len() == docs@.len());
                    }
                    match decode(path.as_str(), raw) {
                        Err(m) => finished(PipelineError::DecodeFailed { path, message: m }),
                        Ok(doc) => {
                            let ghost docs_before = str_views(docs@);
                            docs.push(doc);
                            proof {
                                assert(str_views(docs@) =~= docs_before.push(
                                    docs@[docs@.len() - 1]@,
                                ));
                            }
                            if docs.len() < cfg.source_paths.len() {
                                let next = cfg.source_paths[docs.len()].clone();
                                proof {
                                    assert(cfg@.sources[docs@.len() as int]
                                        == cfg.source_paths@[docs@.len() as int]@);
                                }
                                (
                                    Pipeline { state: State::Probing { cfg, docs } },
                                    Action::ProbeSource { path: next },
                                )
                            } else if cfg.aggregate {
                                let input = aggregate_input(&docs);
                                (
                                    Pipeline {
                                        state: State::Running { cfg, docs, idx: 0 },
                                    },
                                    Action::RunFilter { input },
                                )
                            } else {
                                let input = docs[0].clone();
                                proof {
                                    assert(str_views(docs@)[0] == docs@[0]@);
                                }
                                (
                                    Pipeline {
                                        state: State::Running { cfg, docs, idx: 0 },
                                    },
                                    Action::RunFilter { input },
                                )
                            }
                        },
                    }
                },
                Err(m) => {
                    let path = cfg.source_paths[docs.len()].clone();
                    proof {
                        assert(cfg@.sources[docs@.len() as int]
                            == cfg.source_paths@[docs@.len() as int]@);
                        assert(str_views(docs@).len() == docs@.len());
                    }
                    finished(PipelineError::ReadFailed { path, message: m })
                },
            },
            (State::Running { cfg, docs, idx }, Event::FilterRan { result }) => match result {
                Ok(out) => match encode(cfg.output_format, out) {
                    Ok(content) => {
                        let path = cfg.destination_path.clone();
                        (
                            Pipeline { state: State::Writing { cfg, docs, idx } },
                            Action::WriteDestination { path, content },
                        )
                    },
                    Err(m) => finished(PipelineError::EncodeFailed { message: m }),
                },
                Err(m) => finished(PipelineError::RunFailed { message: m }),
            },
            (State::Writing { cfg, docs, idx }, Event::DestinationWritten { result }) => match result {
                Ok(_) => {
                    proof {
                        assert(str_views(docs@).len() == docs@.len());
                    }
                    let n = docs.len();
                    if cfg.aggregate || idx + 1 >= n {
                        completed()
                    } else {
                        let input = docs[idx + 1].clone();
                        proof {
                            assert(str_views(docs@)[idx + 1] == docs@[idx + 1]@);
                        }
                        (
                            Pipeline { state: State::Running { cfg, docs, idx: idx + 1 } },
                            Action::RunFilter { input },
                        )
                    }
                },
                Err(m) => finished(PipelineError::WriteFailed { message: m }),
            },
            // An event that does not answer the pending action is ruled out
            // by this function's precondition.
            _ => {
                proof {
                    assert(false);
                }
                completed()
            },
        }
    }

    /// The outcome, once the machine has finished.
    pub fn outcome(&self) -> (r: Option<&JobOutcome>)
        ensures
            (match (r, self@) {
                (Some(o), StateV::Finished { outcome }) => o@ == outcome,
                (None, s) => !(s is Finished),
                _ => false,
            }),
    {
        match &self.state {
            State::Finished { outcome } => Some(outcome),
            _ => None,
        }
    }
}

} // verus!
