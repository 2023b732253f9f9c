//! The pipeline's laws, proved over the machine's transition function.

use vstd::prelude::*;
use crate::codec::{spec_decode, spec_encode};
use crate::params::ParamV;
use crate::pipeline::{
    aggregate_text, spec_completed, spec_failed, spec_next, spec_start, ActionV, EventV,
    FileProbe, StateV,
};
use crate::resolve::{template_mode, ConfigV, ErrorV};

verus! {

/// The actions a run of the machine issues for a sequence of events.
pub open spec fn spec_trace(s: StateV, events: Seq<EventV>) -> Seq<ActionV>
    decreases events.len(),
{
    if events.len() == 0 {
        Seq::empty()
    } else {
        let step = spec_next(s, events[0]);
        seq![step.1] + spec_trace(step.0, events.drop_first())
    }
}

/// Law (idempotence): the machine is a function of the job and of the
/// answers it is fed — equal jobs start equally, and a run over equal event
/// sequences issues equal actions.  Since the codec's and the filter
/// engine's answers are themselves functions of their inputs, transforming
/// the same sources with the same filter and mode twice writes
/// byte-identical destination content.
pub proof fn lemma_deterministic(
    job1: Seq<ParamV>,
    job2: Seq<ParamV>,
    s1: StateV,
    s2: StateV,
    events1: Seq<EventV>,
    events2: Seq<EventV>,
)
    requires
        job1 == job2,
        s1 == s2,
        events1 == events2,
    ensures
        (spec_start(job1) == spec_start(job2)),
        (spec_trace(s1, events1) == spec_trace(s2, events2)),
{
}

/// Law (order sensitivity): in per-document mode every write targets the one
/// destination; the write issued while document `idx` is being transformed
/// carries the encoding of that document's filter answer; and the job
/// completes exactly after the write for the last document succeeds, any
/// earlier document's write being overwritten by a later one.  The
/// destination's final content is therefore the transform of the last
/// source.
pub proof fn lemma_order_sensitivity(cfg: ConfigV, docs: Seq<Seq<char>>, idx: int, out: Seq<char>)
    requires
        !cfg.aggregate,
        (StateV::Running { cfg, docs, idx }.inv()),
        (spec_encode(cfg.output, out) is Ok),
    ensures
        (spec_next(StateV::Running { cfg, docs, idx }, EventV::FilterRan { result: Ok(out) }).1
            == ActionV::WriteDestination {
                path: cfg.dest,
                content: spec_encode(cfg.output, out)->Ok_0,
            }),
        (spec_next(
            StateV::Writing { cfg, docs, idx },
            EventV::DestinationWritten { result: Ok(()) },
        ) == spec_completed() <==> idx == docs.len() - 1),
        (idx < docs.len() - 1 ==> spec_next(
            StateV::Writing { cfg, docs, idx },
            EventV::DestinationWritten { result: Ok(()) },
        ).1 == ActionV::RunFilter { input: docs[idx + 1] }),
{
}

/// Law (aggregate correctness): in aggregate mode, once the last source is
/// decoded the single filter run receives exactly the array of all decoded
/// documents, in source order.
pub proof fn lemma_aggregate_input(cfg: ConfigV, docs: Seq<Seq<char>>, raw: Seq<char>)
    requires
        cfg.aggregate,
        (StateV::Reading { cfg, docs }.inv()),
        docs.len() + 1 == cfg.sources.len(),
        (spec_decode(cfg.sources[docs.len() as int], raw) is Ok),
    ensures
        (spec_next(StateV::Reading { cfg, docs }, EventV::SourceRead { result: Ok(raw) }).1
            == ActionV::RunFilter {
                input: aggregate_text(
                    docs.push(spec_decode(cfg.sources[docs.len() as int], raw)->Ok_0),
                ),
            }),
{
}

/// Law (fail fast, first half): a source that is missing, or is a directory,
/// or cannot be read or decoded, ends the job at once with a diagnostic
/// naming that source, and nothing more is asked of the driver.
pub proof fn lemma_fail_fast(cfg: ConfigV, docs: Seq<Seq<char>>, message: Seq<char>)
    requires
        (StateV::Probing { cfg, docs }.inv()),
    ensures
        ({
            let path = cfg.sources[docs.len() as int];
            spec_next(
                StateV::Probing { cfg, docs },
                EventV::SourceProbed { probe: FileProbe::Missing },
            ) == spec_failed(ErrorV::NoSuchFile { path })
        }),
        ({
            let path = cfg.sources[docs.len() as int];
            spec_next(
                StateV::Probing { cfg, docs },
                EventV::SourceProbed { probe: FileProbe::Directory },
            ) == spec_failed(ErrorV::PathIsDirectory { path })
        }),
        ({
            let path = cfg.sources[docs.len() as int];
            spec_next(
                StateV::Reading { cfg, docs },
                EventV::SourceRead { result: Err(message) },
            ) == spec_failed(ErrorV::ReadFailed { path, message })
        }),
{
}

/// Law (fail fast, second half): a write is requested only while executing,
/// and execution is reached only with every source decoded — so a failure
/// during collection can never leave partial output behind.
pub proof fn lemma_write_only_after_collect(s: StateV, e: EventV)
    requires
        s.inv(),
        s.accepts(e),
        (spec_next(s, e).1 is WriteDestination),
    ensures
        (s matches StateV::Running { cfg, docs, .. } && docs.len() == cfg.sources.len()),
{
}

/// Law (mode validation): an unsupported filter-source mode ends the job at
/// its first step, with a diagnostic naming the rejected value; the first
/// and only action is the report, so the filesystem is never touched.
pub proof fn lemma_mode_validation(job: Seq<ParamV>)
    requires
        template_mode(job) != "string"@,
        template_mode(job) != "file"@,
    ensures
        (spec_start(job) == spec_failed(ErrorV::UnsupportedMode { mode: template_mode(job) })),
        (spec_start(job).1 is Report),
{
}

} // verus!

