//! What holds of every run: the sequence of actions and events that a run
//! produces, whatever its surroundings answer.
//!
//! A trace is told by the outcomes handed to the run, one per step, and by
//! the text extractor. The theorems hold for every extractor, and so for
//! the one that the library uses.

use crate::action::{ActionView, OutcomeView};
use crate::event::{
    failed_event, progress_event, ProgressEventView, State, COMPLETED_PERCENT, ENRICHING_PERCENT,
    PARSING_PERCENT, QUEUED_PERCENT, SAVING_PERCENT,
};
use crate::document::{DocumentStatus, RecordView};
use crate::machine::{enrichment_request, machine_step, Phase, RunView};
use vstd::prelude::*;

verus! {

/// The state of a run after it has been handed the outcomes in turn.
pub open spec fn state_after(
    run: RunView,
    outcomes: Seq<OutcomeView>,
    extractor: spec_fn(Seq<u8>) -> OutcomeView,
) -> RunView
    decreases outcomes.len(),
{
    if outcomes.len() == 0 {
        run
    } else {
        machine_step(
            state_after(run, outcomes.drop_last(), extractor),
            outcomes.last(),
            extractor,
        ).0
    }
}

/// The actions that a run asks for while it is handed the outcomes in
/// turn: one action for each outcome.
pub open spec fn actions_of(
    run: RunView,
    outcomes: Seq<OutcomeView>,
    extractor: spec_fn(Seq<u8>) -> OutcomeView,
) -> Seq<ActionView>
    decreases outcomes.len(),
{
    if outcomes.len() == 0 {
        Seq::<ActionView>::empty()
    } else {
        actions_of(run, outcomes.drop_last(), extractor).push(
            machine_step(
                state_after(run, outcomes.drop_last(), extractor),
                outcomes.last(),
                extractor,
            ).1,
        )
    }
}

/// The events among a sequence of actions, in their order: what the
/// consumer of the progress channel is sent.
pub open spec fn events_of(actions: Seq<ActionView>) -> Seq<ProgressEventView>
    decreases actions.len(),
{
    if actions.len() == 0 {
        Seq::<ProgressEventView>::empty()
    } else {
        match actions.last() {
            ActionView::Emit { event } => events_of(actions.drop_last()).push(event),
            _ => events_of(actions.drop_last()),
        }
    }
}

impl Phase {
    /// The run has not begun.
    pub open spec fn is_start(self) -> bool {
        self is SubmitStart || self is ReprocessStart
    }

    /// The action that the run awaits the outcome of is an `Emit`.
    pub open spec fn awaits_delivery(self) -> bool {
        self is AwaitQueuedSent || self is AwaitParsingSent || self is AwaitEnrichingSent
            || self is AwaitSavingSent || self is AwaitFailureSent || self is AwaitTerminalSent
    }

    /// An upper bound of the number of steps that a run in this phase has
    /// left before it is closed.
    pub open spec fn steps_left(self) -> nat {
        match self {
            Phase::Closed => 0,
            Phase::AwaitTerminalSent => 1,
            Phase::AwaitFailedSaved => 1,
            Phase::AwaitFailureSent => 2,
            Phase::AwaitSucceededSaved => 2,
            Phase::AwaitResultSaved => 3,
            Phase::AwaitSavingSent => 4,
            Phase::AwaitEnrichment => 5,
            Phase::AwaitEnrichingSent => 6,
            Phase::AwaitText => 7,
            Phase::AwaitProcessingSaved => 8,
            Phase::AwaitRecord => 9,
            Phase::AwaitParsingSent => 10,
            Phase::AwaitBlobRead => 11,
            Phase::AwaitLookup => 12,
            Phase::ReprocessStart => 13,
            Phase::AwaitQueuedSent => 11,
            Phase::AwaitInsert => 12,
            Phase::AwaitBlobWrite => 13,
            Phase::AwaitDir => 14,
            Phase::SubmitStart => 15,
        }
    }
}

/// The number of steps after which every run is closed.
pub const MAX_STEPS: usize = 15;

/// The consumer stays connected: every event that the run sends is
/// delivered.
pub open spec fn delivered(
    run: RunView,
    outcomes: Seq<OutcomeView>,
    extractor: spec_fn(Seq<u8>) -> OutcomeView,
) -> bool
    decreases outcomes.len(),
{
    if outcomes.len() == 0 {
        true
    } else {
        &&& delivered(run, outcomes.drop_last(), extractor)
        &&& (state_after(run, outcomes.drop_last(), extractor).phase.awaits_delivery()
            ==> outcomes.last() is Done)
    }
}

/// A step leaves the configuration and the identity of a run as they are,
/// and moves it strictly forward: no run visits a phase twice.
pub proof fn lemma_step_moves_forward(
    run: RunView,
    outcome: OutcomeView,
    extractor: spec_fn(Seq<u8>) -> OutcomeView,
)
    ensures
        ({
            let next = machine_step(run, outcome, extractor);
            &&& next.0.document_id == run.document_id
            &&& next.0.upload_dir == run.upload_dir
            &&& next.0.api_key == run.api_key
            &&& next.0.prompt == run.prompt
            &&& !(next.1 is ExtractText)
            &&& next.1.concerns(run.document_id)
            &&& next.1 is Emit <==> next.0.phase.awaits_delivery()
            &&& next.1 is Close <==> next.0.phase is Closed
            &&& run.phase is Closed ==> next.0 == run
            &&& !(run.phase is Closed) ==> next.0.phase.steps_left() < run.phase.steps_left()
        }),
{
}

/// A trace has one action for each outcome, and the action of each step is
/// the one that the run asks for in the state that the earlier outcomes
/// have led it to.
pub proof fn lemma_trace_at(
    run: RunView,
    outcomes: Seq<OutcomeView>,
    extractor: spec_fn(Seq<u8>) -> OutcomeView,
    i: int,
)
    requires
        0 <= i < outcomes.len(),
    ensures
        actions_of(run, outcomes, extractor).len() == outcomes.len(),
        actions_of(run, outcomes, extractor)[i] == machine_step(
            state_after(run, outcomes.take(i), extractor),
            outcomes[i],
            extractor,
        ).1,
        state_after(run, outcomes.take(i + 1), extractor) == machine_step(
            state_after(run, outcomes.take(i), extractor),
            outcomes[i],
            extractor,
        ).0,
    decreases outcomes.len(),
{
    lemma_trace_len(run, outcomes, extractor);
    assert(outcomes.take(i + 1).drop_last() =~= outcomes.take(i));
    assert(outcomes.take(i + 1).last() == outcomes[i]);
    if i == outcomes.len() - 1 {
        assert(outcomes.take(i) =~= outcomes.drop_last());
    } else {
        let before = outcomes.drop_last();
        lemma_trace_at(run, before, extractor, i);
        assert(before.take(i) =~= outcomes.take(i));
    }
}

/// A trace has one action for each outcome.
pub proof fn lemma_trace_len(
    run: RunView,
    outcomes: Seq<OutcomeView>,
    extractor: spec_fn(Seq<u8>) -> OutcomeView,
)
    ensures
        actions_of(run, outcomes, extractor).len() == outcomes.len(),
    decreases outcomes.len(),
{
    if outcomes.len() > 0 {
        lemma_trace_len(run, outcomes.drop_last(), extractor);
    }
}

/// Every run comes to an end: whatever the outcomes and whatever the
/// extractor, a run that has been handed as many outcomes as its phase has
/// steps left is closed, and no phase has more than `MAX_STEPS` steps
/// left.
pub proof fn theorem_run_closes(
    run: RunView,
    outcomes: Seq<OutcomeView>,
    extractor: spec_fn(Seq<u8>) -> OutcomeView,
)
    requires
        outcomes.len() >= run.phase.steps_left(),
    ensures
        run.phase.steps_left() <= MAX_STEPS,
        state_after(run, outcomes, extractor).phase is Closed,
{
    lemma_steps_left(run, outcomes, extractor);
}

/// Each outcome handed to a run brings it one step nearer to its end.
proof fn lemma_steps_left(
    run: RunView,
    outcomes: Seq<OutcomeView>,
    extractor: spec_fn(Seq<u8>) -> OutcomeView,
)
    ensures
        state_after(run, outcomes, extractor).phase.steps_left() + outcomes.len()
            <= run.phase.steps_left() || state_after(run, outcomes, extractor).phase is Closed,
    decreases outcomes.len(),
{
    if outcomes.len() > 0 {
        lemma_steps_left(run, outcomes.drop_last(), extractor);
        lemma_step_moves_forward(
            state_after(run, outcomes.drop_last(), extractor),
            outcomes.last(),
            extractor,
        );
    }
}

/// The events of a run that has not sent its terminal event: none of them
/// is terminal, the progress nowhere exceeds `ceiling`, and it never falls.
pub open spec fn in_progress(events: Seq<ProgressEventView>, ceiling: nat) -> bool {
    &&& forall|i: int|
        0 <= i < events.len() ==> !(#[trigger] events[i]).state.terminal()
            && events[i].progress_percent <= ceiling
    &&& forall|i: int, j: int|
        0 <= i <= j < events.len() ==> (#[trigger] events[i]).progress_percent
            <= (#[trigger] events[j]).progress_percent
}

/// The events of a run that has ended: exactly one terminal event, which is
/// the last; before it the progress stays within 100 and never falls.
pub open spec fn complete(events: Seq<ProgressEventView>) -> bool {
    &&& events.len() > 0
    &&& events.last().state.terminal()
    &&& in_progress(events.drop_last(), 100)
}

impl Phase {
    /// The terminal event of the run has been handed over for sending.
    pub open spec fn is_ended(self) -> bool {
        self is AwaitFailureSent || self is AwaitFailedSaved || self is AwaitTerminalSent
            || self is Closed
    }

    /// The progress that a run in this phase has reported at most.
    pub open spec fn ceiling(self) -> nat {
        match self {
            Phase::AwaitQueuedSent => 10,
            Phase::AwaitParsingSent => 20,
            Phase::AwaitRecord => 20,
            Phase::AwaitProcessingSaved => 20,
            Phase::AwaitText => 20,
            Phase::AwaitEnrichingSent => 40,
            Phase::AwaitEnrichment => 40,
            Phase::AwaitSavingSent => 80,
            Phase::AwaitResultSaved => 80,
            Phase::AwaitSucceededSaved => 80,
            _ => 0,
        }
    }
}

/// What holds of the events that a run in the given phase has sent.
pub open spec fn traced(phase: Phase, events: Seq<ProgressEventView>) -> bool {
    if phase.is_ended() {
        complete(events)
    } else {
        in_progress(events, phase.ceiling())
    }
}

/// The events so far, and the event of the action where it is an `Emit`.
pub open spec fn with_event(events: Seq<ProgressEventView>, action: ActionView) -> Seq<
    ProgressEventView,
> {
    match action {
        ActionView::Emit { event } => events.push(event),
        _ => events,
    }
}

/// One step keeps the events of a run in order, as long as the consumer
/// takes what it is sent.
pub proof fn lemma_step_keeps_order(
    run: RunView,
    outcome: OutcomeView,
    extractor: spec_fn(Seq<u8>) -> OutcomeView,
    events: Seq<ProgressEventView>,
)
    requires
        traced(run.phase, events),
        run.phase.awaits_delivery() ==> outcome is Done,
    ensures
        traced(
            machine_step(run, outcome, extractor).0.phase,
            with_event(events, machine_step(run, outcome, extractor).1),
        ),
{
    let next = machine_step(run, outcome, extractor);
    let after = with_event(events, next.1);
    if run.phase.is_ended() {
        assert(after == events);
    } else if next.0.phase.is_ended() {
        if next.1 is Emit {
            assert(after.drop_last() =~= events);
        }
    } else {
        if next.1 is Emit {
            let event = next.1->event;
            assert(forall|i: int| 0 <= i < events.len() ==> after[i] == events[i]);
            assert(after[events.len() as int] == event);
        }
    }
}

/// The events of a trace, told step by step.
pub proof fn lemma_events_step(
    run: RunView,
    outcomes: Seq<OutcomeView>,
    extractor: spec_fn(Seq<u8>) -> OutcomeView,
)
    requires
        outcomes.len() > 0,
    ensures
        events_of(actions_of(run, outcomes, extractor)) == with_event(
            events_of(actions_of(run, outcomes.drop_last(), extractor)),
            machine_step(
                state_after(run, outcomes.drop_last(), extractor),
                outcomes.last(),
                extractor,
            ).1,
        ),
{
    let before = actions_of(run, outcomes.drop_last(), extractor);
    let action = machine_step(
        state_after(run, outcomes.drop_last(), extractor),
        outcomes.last(),
        extractor,
    ).1;
    assert(before.push(action).drop_last() =~= before);
    assert(before.push(action).last() == action);
}

/// The events of every run are in order, as long as the consumer takes
/// what it is sent.
pub proof fn lemma_trace_in_order(
    run: RunView,
    outcomes: Seq<OutcomeView>,
    extractor: spec_fn(Seq<u8>) -> OutcomeView,
)
    requires
        run.phase.is_start(),
        delivered(run, outcomes, extractor),
    ensures
        traced(
            state_after(run, outcomes, extractor).phase,
            events_of(actions_of(run, outcomes, extractor)),
        ),
    decreases outcomes.len(),
{
    if outcomes.len() > 0 {
        lemma_trace_in_order(run, outcomes.drop_last(), extractor);
        lemma_events_step(run, outcomes, extractor);
        lemma_step_keeps_order(
            state_after(run, outcomes.drop_last(), extractor),
            outcomes.last(),
            extractor,
            events_of(actions_of(run, outcomes.drop_last(), extractor)),
        );
    }
}

/// A run whose consumer stays connected sends exactly one terminal event,
/// `Completed` or `Failed`, and sends it last; the progress of the events
/// before it never falls. With `theorem_run_closes`: every such run ends
/// so within `MAX_STEPS` steps.
pub proof fn theorem_one_terminal_event(
    run: RunView,
    outcomes: Seq<OutcomeView>,
    extractor: spec_fn(Seq<u8>) -> OutcomeView,
)
    requires
        run.phase.is_start(),
        delivered(run, outcomes, extractor),
        state_after(run, outcomes, extractor).phase is Closed,
    ensures
        complete(events_of(actions_of(run, outcomes, extractor))),
{
    lemma_trace_in_order(run, outcomes, extractor);
}

impl Phase {
    /// Nothing but `Close` is left for the run to ask for.
    pub open spec fn is_finishing(self) -> bool {
        self is AwaitTerminalSent || self is AwaitFailedSaved || self is Closed
    }
}

/// The trace of the first `k` outcomes is the beginning of the trace of
/// them all.
pub proof fn lemma_trace_prefix(
    run: RunView,
    outcomes: Seq<OutcomeView>,
    extractor: spec_fn(Seq<u8>) -> OutcomeView,
    k: int,
)
    requires
        0 <= k <= outcomes.len(),
    ensures
        actions_of(run, outcomes.take(k), extractor) == actions_of(run, outcomes, extractor).take(
            k,
        ),
{
    let part = actions_of(run, outcomes.take(k), extractor);
    let whole = actions_of(run, outcomes, extractor);
    lemma_trace_len(run, outcomes, extractor);
    lemma_trace_len(run, outcomes.take(k), extractor);
    assert forall|i: int| 0 <= i < k implies part[i] == whole[i] by {
        lemma_trace_at(run, outcomes, extractor, i);
        lemma_trace_at(run, outcomes.take(k), extractor, i);
        assert(outcomes.take(k).take(i) =~= outcomes.take(i));
    }
    assert(part =~= whole.take(k));
}

/// Once nothing but `Close` is left, the run asks for nothing else and
/// sends no further event, whatever it is handed.
pub proof fn lemma_finishing_tail(
    run: RunView,
    outcomes: Seq<OutcomeView>,
    extractor: spec_fn(Seq<u8>) -> OutcomeView,
    k: int,
)
    requires
        0 <= k <= outcomes.len(),
        state_after(run, outcomes.take(k), extractor).phase.is_finishing(),
    ensures
        state_after(run, outcomes, extractor).phase.is_finishing(),
        k < outcomes.len() ==> state_after(run, outcomes, extractor).phase is Closed,
        events_of(actions_of(run, outcomes, extractor)) == events_of(
            actions_of(run, outcomes.take(k), extractor),
        ),
        forall|i: int|
            k <= i < outcomes.len() ==> #[trigger] actions_of(run, outcomes, extractor)[i] is Close,
    decreases outcomes.len(),
{
    if k == outcomes.len() {
        assert(outcomes.take(k) =~= outcomes);
    } else {
        let before = outcomes.drop_last();
        assert(before.take(k) =~= outcomes.take(k));
        lemma_finishing_tail(run, before, extractor, k);
        lemma_events_step(run, outcomes, extractor);
        lemma_trace_len(run, before, extractor);
        lemma_step_moves_forward(state_after(run, before, extractor), outcomes.last(), extractor);
    }
}

/// Reprocessing an unknown document: the lookup is the only thing that the
/// run asks of the record store, the one event that it sends is `Failed`
/// with "Document not found", and then it closes. No record is written.
pub proof fn theorem_unknown_document(
    run: RunView,
    outcomes: Seq<OutcomeView>,
    extractor: spec_fn(Seq<u8>) -> OutcomeView,
)
    requires
        run.phase is ReprocessStart,
        outcomes.len() >= 2,
        !(outcomes[1] matches OutcomeView::Record { record: Some(_) }),
    ensures
        ({
            let actions = actions_of(run, outcomes, extractor);
            &&& actions.len() == outcomes.len()
            &&& actions[0] == (ActionView::FetchRecord { document_id: run.document_id })
            &&& actions[1] == (ActionView::Emit {
                event: failed_event(run.document_id, "Document not found"@),
            })
            &&& forall|i: int| 2 <= i < actions.len() ==> #[trigger] actions[i] is Close
            &&& forall|i: int| 0 <= i < actions.len() ==> !(#[trigger] actions[i]).writes_record()
            &&& events_of(actions) == seq![failed_event(run.document_id, "Document not found"@)]
        }),
{
    let first = outcomes.take(2);
    let actions = actions_of(run, outcomes, extractor);
    lemma_trace_len(run, outcomes, extractor);
    lemma_trace_prefix(run, outcomes, extractor, 2);
    lemma_trace_at(run, first, extractor, 0);
    lemma_trace_at(run, first, extractor, 1);
    assert(first.take(2) =~= first);
    assert(first.take(0).len() == 0);
    assert(state_after(run, first.take(0), extractor) == run);
    lemma_events_step(run, first, extractor);
    lemma_events_step(run, first.take(1), extractor);
    assert(first.drop_last() =~= first.take(1));
    assert(first.take(1).drop_last().len() == 0);
    assert(events_of(actions_of(run, first, extractor)) =~= seq![
        failed_event(run.document_id, "Document not found"@),
    ]);
    lemma_finishing_tail(run, outcomes, extractor, 2);
    assert(actions[0] == actions.take(2)[0]);
    assert(actions[1] == actions.take(2)[1]);
    assert forall|i: int| 0 <= i < actions.len() implies !(#[trigger] actions[i]).writes_record() by {
        if i >= 2 {
            assert(actions[i] is Close);
        }
    }
}

/// Reprocessing a document whose bytes cannot be read back: the one event
/// that the run sends is `Failed` with "File not found" and the blob
/// store's message, and then it closes. The bytes are asked for before any
/// status is written, so no record is written at all.
pub proof fn theorem_missing_blob(
    run: RunView,
    outcomes: Seq<OutcomeView>,
    extractor: spec_fn(Seq<u8>) -> OutcomeView,
)
    requires
        run.phase is ReprocessStart,
        outcomes.len() >= 3,
        outcomes[1] matches OutcomeView::Record { record: Some(_) },
        !(outcomes[2] is Blob),
    ensures
        ({
            let actions = actions_of(run, outcomes, extractor);
            let failure = failed_event(run.document_id, "File not found: "@ + outcomes[2].detail());
            &&& actions.len() == outcomes.len()
            &&& actions[0] == (ActionView::FetchRecord { document_id: run.document_id })
            &&& actions[1] is ReadBlob
            &&& actions[2] == (ActionView::Emit { event: failure })
            &&& forall|i: int| 3 <= i < actions.len() ==> #[trigger] actions[i] is Close
            &&& forall|i: int| 0 <= i < actions.len() ==> !(#[trigger] actions[i]).writes_record()
            &&& events_of(actions) == seq![failure]
        }),
{
    let first = outcomes.take(3);
    let actions = actions_of(run, outcomes, extractor);
    let failure = failed_event(run.document_id, "File not found: "@ + outcomes[2].detail());
    lemma_trace_len(run, outcomes, extractor);
    lemma_trace_prefix(run, outcomes, extractor, 3);
    lemma_trace_at(run, first, extractor, 0);
    lemma_trace_at(run, first, extractor, 1);
    lemma_trace_at(run, first, extractor, 2);
    assert(first.take(3) =~= first);
    assert(first.take(0).len() == 0);
    assert(state_after(run, first.take(0), extractor) == run);
    lemma_events_step(run, first, extractor);
    lemma_events_step(run, first.take(2), extractor);
    lemma_events_step(run, first.take(1), extractor);
    assert(first.drop_last() =~= first.take(2));
    assert(first.take(2).drop_last() =~= first.take(1));
    assert(first.take(2).last() == first[1]);
    assert(first.take(1).last() == first[0]);
    assert(first.take(1).drop_last().len() == 0);
    assert(events_of(actions_of(run, first, extractor)) =~= seq![failure]);
    lemma_finishing_tail(run, outcomes, extractor, 3);
    assert(actions[0] == actions.take(3)[0]);
    assert(actions[1] == actions.take(3)[1]);
    assert(actions[2] == actions.take(3)[2]);
    assert forall|i: int| 0 <= i < actions.len() implies !(#[trigger] actions[i]).writes_record() by {
        if i >= 3 {
            assert(actions[i] is Close);
        }
    }
}

/// The events of a submission in which nothing fails, in the order of the
/// lifecycle: `Queued`, `ProcessingText` for parsing and for enrichment,
/// `Saving`, `Completed`.
pub open spec fn lifecycle(document_id: Seq<char>) -> Seq<ProgressEventView> {
    seq![
        progress_event(document_id, State::Queued, "File uploaded successfully."@, QUEUED_PERCENT),
        progress_event(document_id, State::ProcessingText, "Parsing PDF text..."@, PARSING_PERCENT),
        progress_event(
            document_id,
            State::ProcessingText,
            "Consulting Gemini AI..."@,
            ENRICHING_PERCENT,
        ),
        progress_event(
            document_id,
            State::Saving,
            "Saving extraction results..."@,
            SAVING_PERCENT,
        ),
        progress_event(document_id, State::Completed, "Extraction complete!"@, COMPLETED_PERCENT),
    ]
}

impl Phase {
    /// Where in the lifecycle a run enters that starts in this phase: a
    /// submission at `Queued`, a reprocessing after it.
    pub open spec fn entry(self) -> int {
        if self is SubmitStart {
            0
        } else {
            1
        }
    }

    /// How far in the lifecycle a run in this phase has come: the number of
    /// lifecycle events that lie behind it.
    pub open spec fn stage(self) -> int {
        match self {
            Phase::SubmitStart => 0,
            Phase::AwaitDir => 0,
            Phase::AwaitBlobWrite => 0,
            Phase::AwaitInsert => 0,
            Phase::AwaitQueuedSent => 1,
            Phase::ReprocessStart => 1,
            Phase::AwaitLookup => 1,
            Phase::AwaitBlobRead => 1,
            Phase::AwaitParsingSent => 2,
            Phase::AwaitRecord => 2,
            Phase::AwaitProcessingSaved => 2,
            Phase::AwaitText => 2,
            Phase::AwaitEnrichingSent => 3,
            Phase::AwaitEnrichment => 3,
            Phase::AwaitSavingSent => 4,
            Phase::AwaitResultSaved => 4,
            Phase::AwaitSucceededSaved => 4,
            _ => 5,
        }
    }
}

/// The events are a stretch of the lifecycle, from `entry` on, with no
/// event left out.
pub open spec fn along_lifecycle(
    entry: int,
    document_id: Seq<char>,
    events: Seq<ProgressEventView>,
) -> bool {
    &&& 0 <= entry
    &&& entry + events.len() <= 5
    &&& events == lifecycle(document_id).subrange(entry, entry + events.len())
}

/// The event is a `Failed` event of the document, at 0%.
pub open spec fn is_failure(event: ProgressEventView, document_id: Seq<char>) -> bool {
    &&& event.state is Failed
    &&& event.progress_percent == 0
    &&& event.document_id == document_id
}

/// The events follow the lifecycle: they are a stretch of it from `entry`
/// on, with no event left out and none repeated, after which at most a
/// `Failed` event follows, and only where `Completed` was not reached.
pub open spec fn follows_lifecycle(
    entry: int,
    document_id: Seq<char>,
    events: Seq<ProgressEventView>,
) -> bool {
    ||| along_lifecycle(entry, document_id, events)
    ||| {
        &&& events.len() > 0
        &&& entry + events.len() - 1 <= 4
        &&& along_lifecycle(entry, document_id, events.drop_last())
        &&& is_failure(events.last(), document_id)
    }
}

/// What holds of the events that a run in the given phase has sent, where
/// it entered the lifecycle at `entry`.
pub open spec fn staged(
    entry: int,
    document_id: Seq<char>,
    phase: Phase,
    events: Seq<ProgressEventView>,
) -> bool {
    if phase is Closed {
        follows_lifecycle(entry, document_id, events)
    } else if phase.is_ended() {
        &&& follows_lifecycle(entry, document_id, events)
        &&& events.len() > 0
        &&& events.last().state.terminal()
    } else {
        &&& entry <= phase.stage()
        &&& entry + events.len() == phase.stage()
        &&& along_lifecycle(entry, document_id, events)
    }
}

/// One step keeps the events of a run on the lifecycle.
pub proof fn lemma_step_keeps_stage(
    entry: int,
    run: RunView,
    outcome: OutcomeView,
    extractor: spec_fn(Seq<u8>) -> OutcomeView,
    events: Seq<ProgressEventView>,
)
    requires
        staged(entry, run.document_id, run.phase, events),
    ensures
        staged(
            entry,
            run.document_id,
            machine_step(run, outcome, extractor).0.phase,
            with_event(events, machine_step(run, outcome, extractor).1),
        ),
{
    let id = run.document_id;
    let next = machine_step(run, outcome, extractor);
    let after = with_event(events, next.1);
    let table = lifecycle(id);
    assert(table.len() == 5);
    if next.1 is Emit {
        let event = next.1->event;
        assert(after.drop_last() =~= events);
        assert(after.last() == event);
        if !is_failure(event, id) {
            let stage = entry + events.len();
            assert(event == table[stage]);
            assert(after =~= table.subrange(entry, stage + 1));
        }
    } else {
        assert(after == events);
    }
}

/// No run leaves the lifecycle: whatever the outcomes, the events that a
/// run sends are the events of the lifecycle in their order, from `Queued`
/// on for a submission and from `ProcessingText` on for a reprocessing,
/// none left out and none repeated; after them at most one `Failed` event
/// follows, and never after `Completed`.
pub proof fn theorem_events_follow_lifecycle(
    run: RunView,
    outcomes: Seq<OutcomeView>,
    extractor: spec_fn(Seq<u8>) -> OutcomeView,
)
    requires
        run.phase.is_start(),
    ensures
        state_after(run, outcomes, extractor).document_id == run.document_id,
        staged(
            run.phase.entry(),
            run.document_id,
            state_after(run, outcomes, extractor).phase,
            events_of(actions_of(run, outcomes, extractor)),
        ),
        follows_lifecycle(
            run.phase.entry(),
            run.document_id,
            events_of(actions_of(run, outcomes, extractor)),
        ),
    decreases outcomes.len(),
{
    if outcomes.len() > 0 {
        let before = outcomes.drop_last();
        theorem_events_follow_lifecycle(run, before, extractor);
        lemma_events_step(run, outcomes, extractor);
        lemma_step_moves_forward(state_after(run, before, extractor), outcomes.last(), extractor);
        lemma_step_keeps_stage(
            run.phase.entry(),
            state_after(run, before, extractor),
            outcomes.last(),
            extractor,
            events_of(actions_of(run, before, extractor)),
        );
    } else {
        assert(events_of(actions_of(run, outcomes, extractor)) =~= lifecycle(
            run.document_id,
        ).subrange(run.phase.entry(), run.phase.entry()));
    }
}

/// A run works on its own document and no other: every record that it
/// looks up, inserts or updates, every result that it saves and every
/// event that it sends is under the identifier that the run started with;
/// the progress of no event exceeds 100.
pub proof fn theorem_run_keeps_to_its_document(
    run: RunView,
    outcomes: Seq<OutcomeView>,
    extractor: spec_fn(Seq<u8>) -> OutcomeView,
)
    ensures
        state_after(run, outcomes, extractor).document_id == run.document_id,
        forall|i: int|
            0 <= i < outcomes.len() ==> (#[trigger] actions_of(run, outcomes, extractor)[i]).concerns(
                run.document_id,
            ),
    decreases outcomes.len(),
{
    if outcomes.len() > 0 {
        let before = outcomes.drop_last();
        theorem_run_keeps_to_its_document(run, before, extractor);
        lemma_trace_len(run, before, extractor);
        lemma_step_moves_forward(state_after(run, before, extractor), outcomes.last(), extractor);
    }
}

/// The later of two states of a run has no more steps left than the
/// earlier.
pub proof fn lemma_steps_left_falls(
    run: RunView,
    outcomes: Seq<OutcomeView>,
    extractor: spec_fn(Seq<u8>) -> OutcomeView,
    i: int,
    j: int,
)
    requires
        0 <= i <= j <= outcomes.len(),
    ensures
        state_after(run, outcomes.take(j), extractor).phase.steps_left() <= state_after(
            run,
            outcomes.take(i),
            extractor,
        ).phase.steps_left(),
        i < j ==> state_after(run, outcomes.take(j), extractor).phase.steps_left() < state_after(
            run,
            outcomes.take(i),
            extractor,
        ).phase.steps_left() || state_after(run, outcomes.take(j), extractor).phase is Closed,
    decreases j - i,
{
    if i < j {
        lemma_steps_left_falls(run, outcomes, extractor, i, j - 1);
        lemma_trace_at(run, outcomes, extractor, j - 1);
        lemma_step_moves_forward(
            state_after(run, outcomes.take(j - 1), extractor),
            outcomes[j - 1],
            extractor,
        );
    }
}

/// A run creates at most one document record: a submission inserts the
/// record of its upload, with status `Uploaded`, and inserts no other; a
/// reprocessing inserts none.
pub proof fn theorem_at_most_one_insert(
    run: RunView,
    outcomes: Seq<OutcomeView>,
    extractor: spec_fn(Seq<u8>) -> OutcomeView,
)
    requires
        run.phase.is_start(),
    ensures
        ({
            let actions = actions_of(run, outcomes, extractor);
            &&& forall|i: int, j: int|
                0 <= i < actions.len() && 0 <= j < actions.len() && (#[trigger] actions[i])
                    is InsertRecord && (#[trigger] actions[j]) is InsertRecord ==> i == j
            &&& forall|i: int|
                0 <= i < actions.len() && (#[trigger] actions[i]) is InsertRecord ==> run.phase
                    is SubmitStart && actions[i] == (ActionView::InsertRecord {
                    document_id: run.document_id,
                    record: run.uploaded_record(),
                })
        }),
{
    let actions = actions_of(run, outcomes, extractor);
    lemma_trace_len(run, outcomes, extractor);
    assert(outcomes.take(0).len() == 0);
    assert(state_after(run, outcomes.take(0), extractor) == run);
    assert forall|i: int| 0 <= i < actions.len() && (#[trigger] actions[i]) is InsertRecord implies {
        &&& state_after(run, outcomes.take(i), extractor).phase is AwaitBlobWrite
        &&& run.phase is SubmitStart
        &&& actions[i] == (ActionView::InsertRecord {
            document_id: run.document_id,
            record: run.uploaded_record(),
        })
    } by {
        lemma_trace_at(run, outcomes, extractor, i);
        lemma_steps_left_falls(run, outcomes, extractor, 0, i);
        lemma_submission_keeps_upload(run, outcomes.take(i), extractor);
    }
    assert forall|i: int, j: int|
        0 <= i < actions.len() && 0 <= j < actions.len() && (#[trigger] actions[i])
            is InsertRecord && (#[trigger] actions[j]) is InsertRecord implies i == j by {
        if i < j {
            lemma_steps_left_falls(run, outcomes, extractor, i, j);
        } else if j < i {
            lemma_steps_left_falls(run, outcomes, extractor, j, i);
        }
    }
}

/// Until its record is inserted, a submission holds the file name and the
/// creation time that it started with.
proof fn lemma_submission_keeps_upload(
    run: RunView,
    outcomes: Seq<OutcomeView>,
    extractor: spec_fn(Seq<u8>) -> OutcomeView,
)
    requires
        run.phase is SubmitStart,
    ensures
        ({
            let state = state_after(run, outcomes, extractor);
            state.phase is SubmitStart || state.phase is AwaitDir || state.phase is AwaitBlobWrite
                ==> state.uploaded_record() == run.uploaded_record()
        }),
    decreases outcomes.len(),
{
    if outcomes.len() > 0 {
        lemma_submission_keeps_upload(run, outcomes.drop_last(), extractor);
        lemma_steps_left(run, outcomes.drop_last(), extractor);
    }
}

impl Phase {
    /// A progress event that is not terminal is on its way to the consumer.
    pub open spec fn awaits_progress_delivery(self) -> bool {
        self is AwaitQueuedSent || self is AwaitParsingSent || self is AwaitEnrichingSent
            || self is AwaitSavingSent
    }
}

/// A consumer that has gone stops the run: where a progress event is not
/// delivered, the run asks for nothing more, and closes.
pub proof fn theorem_disconnect_stops_run(
    run: RunView,
    outcomes: Seq<OutcomeView>,
    extractor: spec_fn(Seq<u8>) -> OutcomeView,
    i: int,
)
    requires
        0 <= i < outcomes.len(),
        state_after(run, outcomes.take(i), extractor).phase.awaits_progress_delivery(),
        !(outcomes[i] is Done),
    ensures
        state_after(run, outcomes, extractor).phase is Closed,
        forall|j: int|
            i <= j < outcomes.len() ==> #[trigger] actions_of(run, outcomes, extractor)[j] is Close,
        events_of(actions_of(run, outcomes, extractor)) == events_of(
            actions_of(run, outcomes.take(i), extractor),
        ),
{
    lemma_trace_at(run, outcomes, extractor, i);
    lemma_finishing_tail(run, outcomes, extractor, i + 1);
    lemma_events_step(run, outcomes.take(i + 1), extractor);
    assert(outcomes.take(i + 1).drop_last() =~= outcomes.take(i));
    assert(outcomes.take(i + 1).last() == outcomes[i]);
    if i + 1 == outcomes.len() {
        assert(outcomes.take(i + 1) =~= outcomes);
    }
}

/// `Completed` is sent only when everything is done and stored. The run
/// asked for enrichment with the request made of its instruction and the
/// extracted text, and was answered with a result; it saved that result;
/// it wrote the record with status `Succeeded`; and both writes were
/// answered with success.
pub proof fn theorem_completed_after_persisting(
    run: RunView,
    outcomes: Seq<OutcomeView>,
    extractor: spec_fn(Seq<u8>) -> OutcomeView,
    i: int,
)
    requires
        run.phase.is_start(),
        0 <= i < outcomes.len(),
        actions_of(run, outcomes, extractor)[i] matches ActionView::Emit { event }
            && event.state is Completed,
    ensures
        i >= 4,
        outcomes[i] is Done,
        outcomes[i - 1] is Done,
        outcomes[i - 3] is Enriched,
        ({
            let enriching = state_after(run, outcomes.take(i - 4), extractor);
            let saving = state_after(run, outcomes.take(i - 2), extractor);
            let actions = actions_of(run, outcomes, extractor);
            &&& actions[i - 4] == (ActionView::Enrich {
                api_key: run.api_key,
                request: enrichment_request(run.prompt, enriching.text),
            })
            &&& actions[i - 2] == (ActionView::SaveResult {
                document_id: run.document_id,
                content: outcomes[i - 3]->content,
            })
            &&& actions[i - 1] == (ActionView::UpdateRecord {
                document_id: run.document_id,
                record: saving.record.with_status(DocumentStatus::Succeeded),
            })
        }),
{
    assert(outcomes.take(0).len() == 0);
    assert(state_after(run, outcomes.take(0), extractor) == run);
    lemma_trace_at(run, outcomes, extractor, i);
    assert(state_after(run, outcomes.take(i), extractor).phase is AwaitSucceededSaved);
    assert(i >= 1);
    lemma_trace_at(run, outcomes, extractor, i - 1);
    assert(state_after(run, outcomes.take(i - 1), extractor).phase is AwaitResultSaved);
    assert(i >= 2);
    lemma_trace_at(run, outcomes, extractor, i - 2);
    assert(state_after(run, outcomes.take(i - 2), extractor).phase is AwaitSavingSent);
    assert(i >= 3);
    lemma_trace_at(run, outcomes, extractor, i - 3);
    assert(state_after(run, outcomes.take(i - 3), extractor).phase is AwaitEnrichment);
    assert(i >= 4);
    lemma_trace_at(run, outcomes, extractor, i - 4);
    assert(state_after(run, outcomes.take(i - 4), extractor).phase is AwaitEnrichingSent);
    theorem_run_keeps_to_its_document(run, outcomes.take(i - 4), extractor);
    lemma_configuration_kept(run, outcomes.take(i - 4), extractor);
}

/// The configuration of a run stays as it started: the credential and the
/// instruction.
pub proof fn lemma_configuration_kept(
    run: RunView,
    outcomes: Seq<OutcomeView>,
    extractor: spec_fn(Seq<u8>) -> OutcomeView,
)
    ensures
        state_after(run, outcomes, extractor).api_key == run.api_key,
        state_after(run, outcomes, extractor).prompt == run.prompt,
        state_after(run, outcomes, extractor).upload_dir == run.upload_dir,
    decreases outcomes.len(),
{
    if outcomes.len() > 0 {
        lemma_configuration_kept(run, outcomes.drop_last(), extractor);
        lemma_step_moves_forward(
            state_after(run, outcomes.drop_last(), extractor),
            outcomes.last(),
            extractor,
        );
    }
}

/// A run asks for enrichment at most once, and then with its credential
/// and with the request made of its instruction and the extracted text.
pub proof fn theorem_at_most_one_enrichment(
    run: RunView,
    outcomes: Seq<OutcomeView>,
    extractor: spec_fn(Seq<u8>) -> OutcomeView,
)
    ensures
        ({
            let actions = actions_of(run, outcomes, extractor);
            &&& forall|i: int, j: int|
                0 <= i < actions.len() && 0 <= j < actions.len() && (#[trigger] actions[i]) is Enrich
                    && (#[trigger] actions[j]) is Enrich ==> i == j
            &&& forall|i: int|
                0 <= i < actions.len() && (#[trigger] actions[i]) is Enrich ==> actions[i] == (
                ActionView::Enrich {
                    api_key: run.api_key,
                    request: enrichment_request(
                        run.prompt,
                        state_after(run, outcomes.take(i), extractor).text,
                    ),
                })
        }),
{
    let actions = actions_of(run, outcomes, extractor);
    lemma_trace_len(run, outcomes, extractor);
    assert forall|i: int| 0 <= i < actions.len() && (#[trigger] actions[i]) is Enrich implies {
        &&& state_after(run, outcomes.take(i), extractor).phase is AwaitEnrichingSent
        &&& actions[i] == (ActionView::Enrich {
            api_key: run.api_key,
            request: enrichment_request(
                run.prompt,
                state_after(run, outcomes.take(i), extractor).text,
            ),
        })
    } by {
        lemma_trace_at(run, outcomes, extractor, i);
        lemma_configuration_kept(run, outcomes.take(i), extractor);
    }
    assert forall|i: int, j: int|
        0 <= i < actions.len() && 0 <= j < actions.len() && (#[trigger] actions[i]) is Enrich && (
        #[trigger] actions[j]) is Enrich implies i == j by {
        if i < j {
            lemma_steps_left_falls(run, outcomes, extractor, i, j);
        } else if j < i {
            lemma_steps_left_falls(run, outcomes, extractor, j, i);
        }
    }
}

/// The record that the store last handed to the run for the update of its
/// status, if it has handed it one.
pub open spec fn record_handed(
    run: RunView,
    outcomes: Seq<OutcomeView>,
    extractor: spec_fn(Seq<u8>) -> OutcomeView,
) -> Option<RecordView>
    decreases outcomes.len(),
{
    if outcomes.len() == 0 {
        None
    } else {
        let before = outcomes.drop_last();
        if state_after(run, before, extractor).phase is AwaitRecord && outcomes.last() is Record
            && outcomes.last()->record is Some {
            outcomes.last()->record
        } else {
            record_handed(run, before, extractor)
        }
    }
}

/// The second record is the first with at most the status replaced:
/// identifier, file name and creation time are the same.
pub open spec fn status_replaced(handed: RecordView, written: RecordView) -> bool {
    exists|status: DocumentStatus| written == #[trigger] handed.with_status(status)
}

/// What the run holds of the record that it was handed, in each phase in
/// which it has one.
pub open spec fn holds_record(state: RunView, handed: Option<RecordView>) -> bool {
    match state.phase {
        Phase::AwaitProcessingSaved => handed is Some && status_replaced(handed->0, state.record),
        Phase::AwaitText => handed is Some && status_replaced(handed->0, state.record),
        Phase::AwaitEnrichingSent => handed is Some && status_replaced(handed->0, state.record),
        Phase::AwaitEnrichment => handed is Some && status_replaced(handed->0, state.record),
        Phase::AwaitSavingSent => handed is Some && status_replaced(handed->0, state.record),
        Phase::AwaitResultSaved => handed is Some && status_replaced(handed->0, state.record),
        Phase::AwaitSucceededSaved => handed is Some && status_replaced(handed->0, state.record),
        Phase::AwaitFailureSent => handed is Some && status_replaced(handed->0, state.record),
        Phase::AwaitFailedSaved => handed is Some && status_replaced(handed->0, state.record),
        _ => true,
    }
}

/// Replacing the status of a record whose status was replaced leaves a
/// record whose status was replaced.
pub proof fn lemma_status_replaced_again(
    handed: RecordView,
    held: RecordView,
    status: DocumentStatus,
)
    requires
        status_replaced(handed, held),
    ensures
        status_replaced(handed, held.with_status(status)),
{
    let earlier = choose|earlier: DocumentStatus| held == #[trigger] handed.with_status(earlier);
    assert(held.with_status(status) == handed.with_status(status));
}

/// Through a whole run, the record that the run holds is the one that it
/// was last handed, with at most the status replaced.
pub proof fn lemma_record_held(
    run: RunView,
    outcomes: Seq<OutcomeView>,
    extractor: spec_fn(Seq<u8>) -> OutcomeView,
)
    requires
        run.phase.is_start(),
    ensures
        holds_record(
            state_after(run, outcomes, extractor),
            record_handed(run, outcomes, extractor),
        ),
    decreases outcomes.len(),
{
    if outcomes.len() > 0 {
        let before = outcomes.drop_last();
        lemma_record_held(run, before, extractor);
        let state = state_after(run, before, extractor);
        let handed = record_handed(run, before, extractor);
        let next = machine_step(state, outcomes.last(), extractor).0;
        if state.phase is AwaitRecord {
            if outcomes.last() is Record && outcomes.last()->record is Some {
                let found = outcomes.last()->record->0;
                assert(next.record == found.with_status(DocumentStatus::Processing));
            }
        } else if state.phase is AwaitResultSaved {
            if handed is Some {
                lemma_status_replaced_again(handed->0, state.record, DocumentStatus::Succeeded);
            }
        } else if state.phase is AwaitFailureSent {
            if handed is Some {
                lemma_status_replaced_again(handed->0, state.record, DocumentStatus::Failed);
            }
        }
    }
}

/// A run never changes what a record says but for its status. Every
/// update that a run asks for writes, under the run's identifier, the
/// record that the store last handed to the run, with the same identifier,
/// file name and creation time, and with at most the status replaced.
pub proof fn theorem_updates_replace_status_only(
    run: RunView,
    outcomes: Seq<OutcomeView>,
    extractor: spec_fn(Seq<u8>) -> OutcomeView,
    i: int,
)
    requires
        run.phase.is_start(),
        0 <= i < outcomes.len(),
        actions_of(run, outcomes, extractor)[i] is UpdateRecord,
    ensures
        ({
            let action = actions_of(run, outcomes, extractor)[i];
            let handed = record_handed(run, outcomes.take(i + 1), extractor);
            &&& action->UpdateRecord_document_id == run.document_id
            &&& handed is Some
            &&& status_replaced(handed->0, action->UpdateRecord_record)
            &&& action->UpdateRecord_record.id == handed->0.id
            &&& action->UpdateRecord_record.filename == handed->0.filename
            &&& action->UpdateRecord_record.created_at == handed->0.created_at
        }),
{
    let action = actions_of(run, outcomes, extractor)[i];
    let upto = outcomes.take(i + 1);
    lemma_trace_at(run, outcomes, extractor, i);
    assert(upto.drop_last() =~= outcomes.take(i));
    assert(upto.last() == outcomes[i]);
    lemma_record_held(run, outcomes.take(i), extractor);
    lemma_record_held(run, upto, extractor);
    theorem_run_keeps_to_its_document(run, outcomes, extractor);
    let handed = record_handed(run, upto, extractor);
    let state = state_after(run, outcomes.take(i), extractor);
    assert(handed is Some && status_replaced(handed->0, action->UpdateRecord_record)) by {
        if state.phase is AwaitRecord {
            assert(action->UpdateRecord_record == handed->0.with_status(DocumentStatus::Processing));
        } else if state.phase is AwaitResultSaved {
            lemma_status_replaced_again(
                record_handed(run, outcomes.take(i), extractor)->0,
                state.record,
                DocumentStatus::Succeeded,
            );
        } else {
            lemma_status_replaced_again(
                record_handed(run, outcomes.take(i), extractor)->0,
                state.record,
                DocumentStatus::Failed,
            );
        }
    }
    let status = choose|status: DocumentStatus|
        action->UpdateRecord_record == #[trigger] handed->0.with_status(status);
}

/// A failure to read the text is reported and recorded. Where the bytes of
/// the run are not readable, the run sends `Failed` with the extractor's
/// message and, whether or not the event was delivered, writes the record
/// with status `Failed` next.
pub proof fn theorem_parse_failure_is_recorded(
    run: RunView,
    outcomes: Seq<OutcomeView>,
    extractor: spec_fn(Seq<u8>) -> OutcomeView,
    i: int,
)
    requires
        0 <= i < outcomes.len(),
        state_after(run, outcomes.take(i), extractor).phase is AwaitProcessingSaved,
        outcomes[i] is Done,
        !(extractor(state_after(run, outcomes.take(i), extractor).file_data) is Text),
    ensures
        ({
            let state = state_after(run, outcomes.take(i), extractor);
            let actions = actions_of(run, outcomes, extractor);
            &&& actions[i] == (ActionView::Emit {
                event: failed_event(
                    state.document_id,
                    "Failed to parse PDF: "@ + extractor(state.file_data).detail(),
                ),
            })
            &&& i + 1 < outcomes.len() ==> actions[i + 1] == (ActionView::UpdateRecord {
                document_id: state.document_id,
                record: state.record.with_status(DocumentStatus::Failed),
            })
        }),
{
    lemma_trace_at(run, outcomes, extractor, i);
    if i + 1 < outcomes.len() {
        lemma_trace_at(run, outcomes, extractor, i + 1);
    }
}

} // verus!
