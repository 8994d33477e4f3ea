//! The record store as a run sees it: a map from identifiers to whole
//! records, which the run's actions replace. On this model it is stated how
//! a run leaves the record of its document: as `Succeeded` where nothing
//! fails, as `Failed` where the text cannot be read or enrichment fails.

use crate::action::{ActionView, OutcomeView};
use crate::document::{path_component, DocumentStatus, RecordView};
use crate::event::{progress_event, ProgressEventView, State, COMPLETED_PERCENT};
use crate::machine::{machine_step, Phase, RunView};
use crate::trace::{
    actions_of, events_of, is_failure, lemma_events_step, state_after, with_event,
};
use vstd::prelude::*;

verus! {

/// The records held after one action: an insert or an update puts the
/// whole record under its identifier, every other action changes nothing.
pub open spec fn records_after(
    records: Map<Seq<char>, RecordView>,
    action: ActionView,
) -> Map<Seq<char>, RecordView> {
    match action {
        ActionView::InsertRecord { document_id, record } => records.insert(document_id, record),
        ActionView::UpdateRecord { document_id, record } => records.insert(document_id, record),
        _ => records,
    }
}

/// The records held after a sequence of actions.
pub open spec fn store_after(
    records: Map<Seq<char>, RecordView>,
    actions: Seq<ActionView>,
) -> Map<Seq<char>, RecordView>
    decreases actions.len(),
{
    if actions.len() == 0 {
        records
    } else {
        records_after(store_after(records, actions.drop_last()), actions.last())
    }
}

/// What a lookup finds in the records held.
pub open spec fn lookup(records: Map<Seq<char>, RecordView>, id: Seq<char>) -> Option<RecordView> {
    if records.contains_key(id) {
        Some(records[id])
    } else {
        None
    }
}

/// The store and the consumer answer the action that a run in the given
/// state awaits, and answer it with success: a lookup with what the store
/// holds, a read with bytes, every write and every event with `Done`. How
/// enrichment answers is left open.
pub open spec fn answers(
    state: RunView,
    held: Map<Seq<char>, RecordView>,
    outcome: OutcomeView,
) -> bool {
    match state.phase {
        Phase::SubmitStart => true,
        Phase::ReprocessStart => true,
        Phase::Closed => true,
        Phase::AwaitLookup => outcome == (OutcomeView::Record {
            record: lookup(held, state.document_id),
        }),
        Phase::AwaitRecord => outcome == (OutcomeView::Record {
            record: lookup(held, state.document_id),
        }),
        Phase::AwaitBlobRead => outcome is Blob,
        Phase::AwaitText => true,
        Phase::AwaitEnrichment => true,
        _ => outcome is Done,
    }
}

/// The store and the consumer answer every action of the run with
/// success, where the record store starts out with `records`.
pub open spec fn cooperative(
    records: Map<Seq<char>, RecordView>,
    run: RunView,
    outcomes: Seq<OutcomeView>,
    extractor: spec_fn(Seq<u8>) -> OutcomeView,
) -> bool
    decreases outcomes.len(),
{
    if outcomes.len() == 0 {
        true
    } else {
        let before = outcomes.drop_last();
        &&& cooperative(records, run, before, extractor)
        &&& answers(
            state_after(run, before, extractor),
            store_after(records, actions_of(run, before, extractor)),
            outcomes.last(),
        )
    }
}

/// Neither text extraction nor enrichment fails in the step that a run in
/// the given state takes with the outcome.
pub open spec fn succeeds(
    state: RunView,
    outcome: OutcomeView,
    extractor: spec_fn(Seq<u8>) -> OutcomeView,
) -> bool {
    match state.phase {
        Phase::AwaitProcessingSaved => extractor(state.file_data) is Text,
        Phase::AwaitText => outcome is Text,
        Phase::AwaitEnrichment => outcome is Enriched,
        _ => true,
    }
}

/// Neither text extraction nor enrichment fails in the course of the run.
pub open spec fn nothing_fails(
    run: RunView,
    outcomes: Seq<OutcomeView>,
    extractor: spec_fn(Seq<u8>) -> OutcomeView,
) -> bool
    decreases outcomes.len(),
{
    if outcomes.len() == 0 {
        true
    } else {
        let before = outcomes.drop_last();
        &&& nothing_fails(run, before, extractor)
        &&& succeeds(state_after(run, before, extractor), outcomes.last(), extractor)
    }
}

/// The record that a run starts from: the one that a submission inserts,
/// or the one that a reprocessing finds.
pub open spec fn starting_record(records: Map<Seq<char>, RecordView>, run: RunView) -> RecordView {
    if run.phase is SubmitStart {
        run.uploaded_record()
    } else {
        records[run.document_id]
    }
}

/// The event that ends a successful run.
pub open spec fn completed_event(document_id: Seq<char>) -> ProgressEventView {
    progress_event(document_id, State::Completed, "Extraction complete!"@, COMPLETED_PERCENT)
}

/// The run has ended with `Completed`, and the store holds the record of
/// its document with status `Succeeded`.
pub open spec fn ended_succeeded(
    starting: RecordView,
    id: Seq<char>,
    held: Map<Seq<char>, RecordView>,
    events: Seq<ProgressEventView>,
) -> bool {
    &&& lookup(held, id) == Some(starting.with_status(DocumentStatus::Succeeded))
    &&& events.len() > 0
    &&& events.last() == completed_event(id)
}

/// The run has ended with `Failed`, and the store holds the record of its
/// document with status `Failed`.
pub open spec fn ended_failed(
    starting: RecordView,
    id: Seq<char>,
    held: Map<Seq<char>, RecordView>,
    events: Seq<ProgressEventView>,
) -> bool {
    &&& lookup(held, id) == Some(starting.with_status(DocumentStatus::Failed))
    &&& events.len() > 0
    &&& is_failure(events.last(), id)
}

/// Where a run stands whose store and consumer have not failed it: what
/// its state, the records held and the events sent are in each phase.
pub open spec fn on_course(
    starting: RecordView,
    state: RunView,
    held: Map<Seq<char>, RecordView>,
    events: Seq<ProgressEventView>,
) -> bool {
    let id = state.document_id;
    match state.phase {
        Phase::SubmitStart => {
            &&& state.file_data.len() > 0
            &&& path_component(state.filename)
            &&& state.uploaded_record() == starting
        },
        Phase::AwaitDir => state.uploaded_record() == starting,
        Phase::AwaitBlobWrite => state.uploaded_record() == starting,
        Phase::ReprocessStart => lookup(held, id) == Some(starting),
        Phase::AwaitLookup => lookup(held, id) == Some(starting),
        Phase::AwaitInsert => lookup(held, id) == Some(starting),
        Phase::AwaitQueuedSent => lookup(held, id) == Some(starting),
        Phase::AwaitBlobRead => lookup(held, id) == Some(starting),
        Phase::AwaitParsingSent => lookup(held, id) == Some(starting),
        Phase::AwaitRecord => lookup(held, id) == Some(starting),
        Phase::AwaitSucceededSaved => {
            &&& state.record == starting.with_status(DocumentStatus::Succeeded)
            &&& lookup(held, id) == Some(state.record)
        },
        Phase::AwaitTerminalSent => ended_succeeded(starting, id, held, events),
        Phase::AwaitFailureSent => {
            &&& state.record == starting.with_status(DocumentStatus::Processing)
            &&& lookup(held, id) == Some(state.record)
            &&& events.len() > 0
            &&& is_failure(events.last(), id)
        },
        Phase::AwaitFailedSaved => ended_failed(starting, id, held, events),
        Phase::Closed => {
            ||| ended_succeeded(starting, id, held, events)
            ||| ended_failed(starting, id, held, events)
        },
        _ => {
            &&& state.record == starting.with_status(DocumentStatus::Processing)
            &&& lookup(held, id) == Some(state.record)
        },
    }
}

/// One step that the store and the consumer answer with success keeps a
/// run on course.
pub proof fn lemma_step_on_course(
    starting: RecordView,
    state: RunView,
    held: Map<Seq<char>, RecordView>,
    events: Seq<ProgressEventView>,
    outcome: OutcomeView,
    extractor: spec_fn(Seq<u8>) -> OutcomeView,
)
    requires
        on_course(starting, state, held, events),
        answers(state, held, outcome),
    ensures
        ({
            let next = machine_step(state, outcome, extractor);
            &&& next.0.document_id == state.document_id
            &&& on_course(
                starting,
                next.0,
                records_after(held, next.1),
                with_event(events, next.1),
            )
            &&& succeeds(state, outcome, extractor) ==> !(next.0.phase is AwaitFailureSent)
        }),
{
}

/// A run whose store and consumer answer with success throughout stays on
/// course; and where nothing fails, it does not come to a failure.
pub proof fn lemma_trace_on_course(
    records: Map<Seq<char>, RecordView>,
    run: RunView,
    outcomes: Seq<OutcomeView>,
    extractor: spec_fn(Seq<u8>) -> OutcomeView,
)
    requires
        run.phase is SubmitStart ==> run.file_data.len() > 0 && path_component(run.filename),
        run.phase is ReprocessStart ==> records.contains_key(run.document_id),
        run.phase is SubmitStart || run.phase is ReprocessStart,
        cooperative(records, run, outcomes, extractor),
    ensures
        state_after(run, outcomes, extractor).document_id == run.document_id,
        on_course(
            starting_record(records, run),
            state_after(run, outcomes, extractor),
            store_after(records, actions_of(run, outcomes, extractor)),
            events_of(actions_of(run, outcomes, extractor)),
        ),
        nothing_fails(run, outcomes, extractor) ==> {
            let state = state_after(run, outcomes, extractor);
            &&& !(state.phase is AwaitFailureSent)
            &&& !(state.phase is AwaitFailedSaved)
            &&& state.phase is Closed ==> ended_succeeded(
                starting_record(records, run),
                run.document_id,
                store_after(records, actions_of(run, outcomes, extractor)),
                events_of(actions_of(run, outcomes, extractor)),
            )
        },
    decreases outcomes.len(),
{
    if outcomes.len() > 0 {
        let before = outcomes.drop_last();
        lemma_trace_on_course(records, run, before, extractor);
        lemma_events_step(run, outcomes, extractor);
        let state = state_after(run, before, extractor);
        let actions = actions_of(run, before, extractor);
        let action = machine_step(state, outcomes.last(), extractor).1;
        assert(actions.push(action).drop_last() =~= actions);
        assert(actions.push(action).last() == action);
        lemma_step_on_course(
            starting_record(records, run),
            state,
            store_after(records, actions),
            events_of(actions),
            outcomes.last(),
            extractor,
        );
    }
}

/// How a run leaves its document. A run that starts from a valid upload,
/// or from a document that the store holds, and whose store and consumer
/// answer every action with success, ends in one of two ways, whatever text
/// extraction and enrichment come to. Either its last event is `Completed`
/// at 100% and the store holds the record with status `Succeeded`; or its
/// last event is `Failed` and the store holds the record with status
/// `Failed`, be it that the text could not be read or that enrichment
/// failed. In both cases the record is otherwise as it was first written.
pub proof fn theorem_run_ends_recorded(
    records: Map<Seq<char>, RecordView>,
    run: RunView,
    outcomes: Seq<OutcomeView>,
    extractor: spec_fn(Seq<u8>) -> OutcomeView,
)
    requires
        run.phase is SubmitStart ==> run.file_data.len() > 0 && path_component(run.filename),
        run.phase is ReprocessStart ==> records.contains_key(run.document_id),
        run.phase is SubmitStart || run.phase is ReprocessStart,
        cooperative(records, run, outcomes, extractor),
        state_after(run, outcomes, extractor).phase is Closed,
    ensures
        ({
            let starting = starting_record(records, run);
            let held = store_after(records, actions_of(run, outcomes, extractor));
            let events = events_of(actions_of(run, outcomes, extractor));
            ||| ended_succeeded(starting, run.document_id, held, events)
            ||| ended_failed(starting, run.document_id, held, events)
        }),
{
    lemma_trace_on_course(records, run, outcomes, extractor);
}

/// The round trip of a document. A run that starts from a valid upload, or
/// from a document that the store holds, whose store and consumer answer
/// every action with success, and in which neither text extraction nor
/// enrichment fails, leaves the record of its document in the store as it
/// was first written, but for the status, which is `Succeeded`; and the
/// last event that it sends is `Completed` at 100% with the identifier of
/// that document.
pub proof fn theorem_round_trip(
    records: Map<Seq<char>, RecordView>,
    run: RunView,
    outcomes: Seq<OutcomeView>,
    extractor: spec_fn(Seq<u8>) -> OutcomeView,
)
    requires
        run.phase is SubmitStart ==> run.file_data.len() > 0 && path_component(run.filename),
        run.phase is ReprocessStart ==> records.contains_key(run.document_id),
        run.phase is SubmitStart || run.phase is ReprocessStart,
        cooperative(records, run, outcomes, extractor),
        nothing_fails(run, outcomes, extractor),
        state_after(run, outcomes, extractor).phase is Closed,
    ensures
        ended_succeeded(
            starting_record(records, run),
            run.document_id,
            store_after(records, actions_of(run, outcomes, extractor)),
            events_of(actions_of(run, outcomes, extractor)),
        ),
{
    lemma_trace_on_course(records, run, outcomes, extractor);
}

} // verus!
