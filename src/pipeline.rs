//! The driver that runs a list of stages on one document.
use crate::context::{Context, MarkdownEvents, Postprocessor, PostprocessorResult};
use pulldown_cmark::Event;
use vstd::prelude::*;

verus! {

/// What running `stages` in order on a document gives: each stage gets what
/// the one before it returned, and the first signal other than `Continue`
/// ends the run with that stage's output.
pub open spec fn run_chain<'a, P: Postprocessor>(
    stages: Seq<P>,
    context: Context,
    events: Seq<Event<'a>>,
) -> (Context, Seq<Event<'a>>, PostprocessorResult)
    decreases stages.len(),
{
    if stages.len() == 0 {
        (context, events, PostprocessorResult::Continue)
    } else {
        let step = stages[0].outcome(context, events);
        match step.2 {
            PostprocessorResult::Continue => run_chain(stages.drop_first(), step.0, step.1),
            PostprocessorResult::StopAndSkipNote => step,
        }
    }
}

/// Once a run has stopped, the stages after it make no difference: the run
/// of `stages` followed by `rest` is the run of `stages` alone, so no stage
/// of `rest` takes part in it.
pub proof fn lemma_chain_short_circuit<'a, P: Postprocessor>(
    stages: Seq<P>,
    rest: Seq<P>,
    context: Context,
    events: Seq<Event<'a>>,
)
    requires
        run_chain(stages, context, events).2 != PostprocessorResult::Continue,
    ensures
        run_chain(stages + rest, context, events) == run_chain(stages, context, events),
    decreases stages.len(),
{
    if stages.len() > 0 {
        assert((stages + rest).drop_first() =~= stages.drop_first() + rest);
        assert((stages + rest)[0] == stages[0]);
        let step = stages[0].outcome(context, events);
        if step.2 == PostprocessorResult::Continue {
            lemma_chain_short_circuit(stages.drop_first(), rest, step.0, step.1);
        }
    }
}

/// When a run goes through every stage of `stages`, running `stages` followed
/// by `rest` is running `rest` on what `stages` returned.
pub proof fn lemma_chain_composes<'a, P: Postprocessor>(
    stages: Seq<P>,
    rest: Seq<P>,
    context: Context,
    events: Seq<Event<'a>>,
)
    requires
        run_chain(stages, context, events).2 == PostprocessorResult::Continue,
    ensures
        run_chain(stages + rest, context, events) == run_chain(
            rest,
            run_chain(stages, context, events).0,
            run_chain(stages, context, events).1,
        ),
    decreases stages.len(),
{
    if stages.len() == 0 {
        assert(stages + rest =~= rest);
    } else {
        assert((stages + rest).drop_first() =~= stages.drop_first() + rest);
        assert((stages + rest)[0] == stages[0]);
        let step = stages[0].outcome(context, events);
        lemma_chain_composes(stages.drop_first(), rest, step.0, step.1);
    }
}

/// With three stages where the first lets the document through and the
/// second stops it, the result is the second stage's output and its signal,
/// whatever the third stage would do.
pub proof fn lemma_chain_stops_before_third<'a, P: Postprocessor>(
    first: P,
    second: P,
    third: P,
    context: Context,
    events: Seq<Event<'a>>,
)
    requires
        first.outcome(context, events).2 == PostprocessorResult::Continue,
        second.outcome(first.outcome(context, events).0, first.outcome(context, events).1).2
            == PostprocessorResult::StopAndSkipNote,
    ensures
        run_chain(seq![first, second, third], context, events) == second.outcome(
            first.outcome(context, events).0,
            first.outcome(context, events).1,
        ),
        run_chain(seq![first, second, third], context, events).2
            == PostprocessorResult::StopAndSkipNote,
{
    let stages = seq![first, second, third];
    assert(stages.drop_first() =~= seq![second, third]);
    assert(seq![second, third].drop_first() =~= seq![third]);
    reveal_with_fuel(run_chain, 3);
}

/// Runs `stages` in list order on one document, each on what the one before
/// returned, and stops at the first stage that does not signal `Continue`.
/// The result depends on this document's own context and events alone.
pub fn run_postprocessors<'a, P: Postprocessor>(
    stages: &Vec<P>,
    context: Context,
    events: MarkdownEvents<'a>,
) -> (r: (Context, MarkdownEvents<'a>, PostprocessorResult))
    ensures
        (r.0, r.1@, r.2) == run_chain(stages@, context, events@),
{
    let ghost whole = run_chain(stages@, context, events@);
    let mut current_context = context;
    let mut current_events = events;
    let mut i: usize = 0;
    assert(stages@.skip(0) =~= stages@);
    while i < stages.len()
        invariant
            i <= stages@.len(),
            whole == run_chain(stages@, context, events@),
            whole == run_chain(stages@.skip(i as int), current_context, current_events@),
        decreases stages.len() - i,
    {
        proof {
            assert(stages@.skip(i as int).drop_first() =~= stages@.skip(i + 1));
            assert(stages@.skip(i as int)[0] == stages@[i as int]);
        }
        let (next_context, next_events, signal) = stages[i].apply(current_context, current_events);
        match signal {
            PostprocessorResult::Continue => {
                current_context = next_context;
                current_events = next_events;
            },
            PostprocessorResult::StopAndSkipNote => {
                return (next_context, next_events, signal);
            },
        }
        i += 1;
    }
    (current_context, current_events, PostprocessorResult::Continue)
}

} // verus!
