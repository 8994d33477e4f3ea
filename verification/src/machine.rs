//! The lifecycle of a run as a mathematical state machine: from the state
//! of a run and the outcome of the action it asked for, to its next state
//! and the next action.
//!
//! A run moves strictly forward. It stops with `Close` after its terminal
//! event (`Completed` or `Failed`), or as soon as an event finds the
//! consumer gone.

use crate::action::{ActionView, OutcomeView};
use crate::document::{blob_path_of, path_component, DocumentStatus, RecordView};
use crate::event::{
    failed_event, progress_event, State, COMPLETED_PERCENT, ENRICHING_PERCENT, PARSING_PERCENT,
    QUEUED_PERCENT, SAVING_PERCENT,
};
use vstd::prelude::*;

verus! {

/// Where a run stands: what it is about to begin, or which outcome it
/// awaits.
#[derive(Clone, Copy, Debug, PartialEq, Eq, Structural)]
pub enum Phase {
    /// A submission that has not begun.
    SubmitStart,
    /// A reprocessing that has not begun.
    ReprocessStart,
    /// Submission: the upload directory is being created.
    AwaitDir,
    /// Submission: the bytes are being written to the blob store.
    AwaitBlobWrite,
    /// Submission: the document record is being inserted.
    AwaitInsert,
    /// Submission: `Queued` is being sent.
    AwaitQueuedSent,
    /// Reprocessing: the document record is being looked up.
    AwaitLookup,
    /// Reprocessing: the bytes are being read back from the blob store.
    AwaitBlobRead,
    /// `ProcessingText` at 20% is being sent.
    AwaitParsingSent,
    /// The current document record is being fetched for the status update.
    AwaitRecord,
    /// The record with status `Processing` is being written.
    AwaitProcessingSaved,
    /// The text is being extracted.
    AwaitText,
    /// `ProcessingText` at 40% is being sent.
    AwaitEnrichingSent,
    /// The enrichment client is at work. The run asks it whether or not a
    /// credential is configured, and does not know which client answers.
    AwaitEnrichment,
    /// `Saving` is being sent.
    AwaitSavingSent,
    /// The enrichment result is being persisted.
    AwaitResultSaved,
    /// The record with status `Succeeded` is being written.
    AwaitSucceededSaved,
    /// `Failed` is being sent for a parsing or enrichment failure; the
    /// record is still to be marked.
    AwaitFailureSent,
    /// The record with status `Failed` is being written.
    AwaitFailedSaved,
    /// The terminal event is being sent; nothing is left to do after it.
    AwaitTerminalSent,
    /// The run is over.
    Closed,
}

/// Mathematical content of a run.
pub struct RunView {
    pub phase: Phase,
    pub upload_dir: Seq<char>,
    pub api_key: Seq<char>,
    pub document_id: Seq<char>,
    pub filename: Seq<char>,
    pub prompt: Seq<char>,
    pub created_at: Seq<char>,
    pub file_data: Seq<u8>,
    pub record: RecordView,
    pub text: Seq<char>,
    pub content: Seq<char>,
}

/// The record that holds nothing yet.
pub open spec fn blank_record() -> RecordView {
    RecordView {
        id: Seq::<char>::empty(),
        filename: Seq::<char>::empty(),
        status: Seq::<char>::empty(),
        created_at: Seq::<char>::empty(),
    }
}

/// The state of a submission before its first step.
pub open spec fn submit_start(
    upload_dir: Seq<char>,
    api_key: Seq<char>,
    document_id: Seq<char>,
    created_at: Seq<char>,
    file_data: Seq<u8>,
    filename: Seq<char>,
    prompt: Seq<char>,
) -> RunView {
    RunView {
        phase: Phase::SubmitStart,
        upload_dir,
        api_key,
        document_id,
        filename,
        prompt,
        created_at,
        file_data,
        record: blank_record(),
        text: Seq::<char>::empty(),
        content: Seq::<char>::empty(),
    }
}

/// The state of a reprocessing before its first step. The prompt is the
/// override where one is given, and empty otherwise.
pub open spec fn reprocess_start(
    upload_dir: Seq<char>,
    api_key: Seq<char>,
    document_id: Seq<char>,
    prompt_override: Seq<char>,
) -> RunView {
    RunView {
        phase: Phase::ReprocessStart,
        upload_dir,
        api_key,
        document_id,
        filename: Seq::<char>::empty(),
        prompt: if prompt_override.len() > 0 {
            prompt_override
        } else {
            Seq::<char>::empty()
        },
        created_at: Seq::<char>::empty(),
        file_data: Seq::<u8>::empty(),
        record: blank_record(),
        text: Seq::<char>::empty(),
        content: Seq::<char>::empty(),
    }
}

/// The fixed instruction that opens every enrichment request.
pub open spec fn system_prompt() -> Seq<char> {
    "You are an expert Exam Parser. Extract questions, choices, and answers into JSON."@
}

/// The enrichment request: the system instruction, the caller's
/// instruction and the extracted text.
pub open spec fn enrichment_request(prompt: Seq<char>, text: Seq<char>) -> Seq<char> {
    system_prompt() + "\n\nUser Instruction: "@ + prompt + "\n\nDocument Text:\n"@ + text
}

impl RunView {
    /// The same run in another phase.
    pub open spec fn at(self, phase: Phase) -> RunView {
        RunView { phase, ..self }
    }

    /// The record that a submission inserts.
    pub open spec fn uploaded_record(self) -> RecordView {
        RecordView {
            id: self.document_id,
            filename: self.filename,
            status: DocumentStatus::Uploaded.label(),
            created_at: self.created_at,
        }
    }

    /// Where the bytes of the run's document are kept.
    pub open spec fn blob_path(self) -> Seq<char> {
        blob_path_of(self.upload_dir, self.document_id, self.filename)
    }

    /// Sends an event of the run's document and moves on to `next`.
    pub open spec fn report(self, next: Phase, state: State, message: Seq<char>, percent: u32) -> (
        RunView,
        ActionView,
    ) {
        (
            self.at(next),
            ActionView::Emit { event: progress_event(self.document_id, state, message, percent) },
        )
    }

    /// Ends the run with `Failed`; the stored record is left as it is.
    pub open spec fn fail(self, message: Seq<char>) -> (RunView, ActionView) {
        (
            self.at(Phase::AwaitTerminalSent),
            ActionView::Emit { event: failed_event(self.document_id, message) },
        )
    }

    /// Ends the run with `Failed`; the stored record is marked `Failed`
    /// once the event has been handed over.
    pub open spec fn fail_and_mark(self, message: Seq<char>) -> (RunView, ActionView) {
        (
            self.at(Phase::AwaitFailureSent),
            ActionView::Emit { event: failed_event(self.document_id, message) },
        )
    }

    /// Writes the run's record with the given status and moves on to `next`.
    pub open spec fn write_status(self, next: Phase, status: DocumentStatus) -> (
        RunView,
        ActionView,
    ) {
        (
            RunView { phase: next, record: self.record.with_status(status), ..self },
            ActionView::UpdateRecord {
                document_id: self.document_id,
                record: self.record.with_status(status),
            },
        )
    }

    /// Ends the run without a further event.
    pub open spec fn close(self) -> (RunView, ActionView) {
        (self.at(Phase::Closed), ActionView::Close)
    }
}

/// One transition of a run: its next state and the action it asks for,
/// given the outcome of the action it asked for before. A run that has not
/// begun disregards the outcome.
pub open spec fn transition_spec(run: RunView, outcome: OutcomeView) -> (RunView, ActionView) {
    match run.phase {
        Phase::SubmitStart => {
            if run.file_data.len() == 0 {
                run.fail("No file data received"@)
            } else if !path_component(run.filename) {
                run.fail("Invalid filename"@)
            } else {
                (run.at(Phase::AwaitDir), ActionView::CreateUploadDir { dir: run.upload_dir })
            }
        },
        Phase::ReprocessStart => (
            run.at(Phase::AwaitLookup),
            ActionView::FetchRecord { document_id: run.document_id },
        ),
        Phase::AwaitDir => {
            if outcome is Done {
                (
                    run.at(Phase::AwaitBlobWrite),
                    ActionView::WriteBlob { path: run.blob_path(), bytes: run.file_data },
                )
            } else {
                run.fail("Failed to create storage directory: "@ + outcome.detail())
            }
        },
        Phase::AwaitBlobWrite => {
            if outcome is Done {
                (
                    run.at(Phase::AwaitInsert),
                    ActionView::InsertRecord {
                        document_id: run.document_id,
                        record: run.uploaded_record(),
                    },
                )
            } else {
                run.fail("Failed to save file: "@ + outcome.detail())
            }
        },
        Phase::AwaitInsert => {
            if outcome is Done {
                run.report(
                    Phase::AwaitQueuedSent,
                    State::Queued,
                    "File uploaded successfully."@,
                    QUEUED_PERCENT,
                )
            } else {
                run.fail("Failed to create DB record: "@ + outcome.detail())
            }
        },
        Phase::AwaitQueuedSent => {
            if outcome is Done {
                run.report(
                    Phase::AwaitParsingSent,
                    State::ProcessingText,
                    "Parsing PDF text..."@,
                    PARSING_PERCENT,
                )
            } else {
                run.close()
            }
        },
        Phase::AwaitLookup => {
            match outcome {
                OutcomeView::Record { record: Some(found) } => (
                    RunView { phase: Phase::AwaitBlobRead, filename: found.filename, ..run },
                    ActionView::ReadBlob {
                        path: blob_path_of(run.upload_dir, run.document_id, found.filename),
                    },
                ),
                _ => run.fail("Document not found"@),
            }
        },
        Phase::AwaitBlobRead => {
            match outcome {
                OutcomeView::Blob { bytes } => RunView { file_data: bytes, ..run }.report(
                    Phase::AwaitParsingSent,
                    State::ProcessingText,
                    "Parsing PDF text..."@,
                    PARSING_PERCENT,
                ),
                _ => run.fail("File not found: "@ + outcome.detail()),
            }
        },
        Phase::AwaitParsingSent => {
            if outcome is Done {
                (
                    run.at(Phase::AwaitRecord),
                    ActionView::FetchRecord { document_id: run.document_id },
                )
            } else {
                run.close()
            }
        },
        Phase::AwaitRecord => {
            match outcome {
                OutcomeView::Record { record: Some(found) } => RunView {
                    record: found,
                    ..run
                }.write_status(Phase::AwaitProcessingSaved, DocumentStatus::Processing),
                _ => run.fail("Document not found"@),
            }
        },
        Phase::AwaitProcessingSaved => {
            if outcome is Done {
                (run.at(Phase::AwaitText), ActionView::ExtractText)
            } else {
                run.fail("Failed to update DB record: "@ + outcome.detail())
            }
        },
        Phase::AwaitText => {
            match outcome {
                OutcomeView::Text { text } => RunView { text, ..run }.report(
                    Phase::AwaitEnrichingSent,
                    State::ProcessingText,
                    "Consulting Gemini AI..."@,
                    ENRICHING_PERCENT,
                ),
                _ => run.fail_and_mark("Failed to parse PDF: "@ + outcome.detail()),
            }
        },
        Phase::AwaitEnrichingSent => {
            if outcome is Done {
                (
                    run.at(Phase::AwaitEnrichment),
                    ActionView::Enrich {
                        api_key: run.api_key,
                        request: enrichment_request(run.prompt, run.text),
                    },
                )
            } else {
                run.close()
            }
        },
        Phase::AwaitEnrichment => {
            match outcome {
                OutcomeView::Enriched { content } => RunView { content, ..run }.report(
                    Phase::AwaitSavingSent,
                    State::Saving,
                    "Saving extraction results..."@,
                    SAVING_PERCENT,
                ),
                _ => run.fail_and_mark("Enrichment failed: "@ + outcome.detail()),
            }
        },
        Phase::AwaitSavingSent => {
            if outcome is Done {
                (
                    run.at(Phase::AwaitResultSaved),
                    ActionView::SaveResult { document_id: run.document_id, content: run.content },
                )
            } else {
                run.close()
            }
        },
        Phase::AwaitResultSaved => {
            if outcome is Done {
                run.write_status(Phase::AwaitSucceededSaved, DocumentStatus::Succeeded)
            } else {
                run.fail("Failed to save extraction results: "@ + outcome.detail())
            }
        },
        Phase::AwaitSucceededSaved => {
            if outcome is Done {
                run.report(
                    Phase::AwaitTerminalSent,
                    State::Completed,
                    "Extraction complete!"@,
                    COMPLETED_PERCENT,
                )
            } else {
                run.fail("Failed to update DB record: "@ + outcome.detail())
            }
        },
        Phase::AwaitFailureSent => run.write_status(
            Phase::AwaitFailedSaved,
            DocumentStatus::Failed,
        ),
        Phase::AwaitFailedSaved => run.close(),
        Phase::AwaitTerminalSent => run.close(),
        Phase::Closed => run.close(),
    }
}

/// One step of a run as its caller sees it: a transition, followed at once
/// by a second one where the first asks for the text; `text` is what text
/// extraction then came to.
pub open spec fn step_result(run: RunView, outcome: OutcomeView, text: OutcomeView) -> (
    RunView,
    ActionView,
) {
    let first = transition_spec(run, outcome);
    if first.1 is ExtractText {
        transition_spec(first.0, text)
    } else {
        first
    }
}

/// One step of a run whose text is extracted by `extractor`, a function of
/// the run's bytes.
pub open spec fn machine_step(
    run: RunView,
    outcome: OutcomeView,
    extractor: spec_fn(Seq<u8>) -> OutcomeView,
) -> (RunView, ActionView) {
    step_result(run, outcome, extractor(transition_spec(run, outcome).0.file_data))
}

/// Whatever text extraction came to in a step, the step is one of a run
/// with an extractor: the one that gives that outcome for all bytes. And
/// a step in which the text is not asked for is the same with every
/// extractor. Since a run asks for the text in one phase only, and visits
/// no phase twice, all the steps of a run are steps with one extractor.
pub proof fn lemma_step_has_extractor(
    run: RunView,
    outcome: OutcomeView,
    text: OutcomeView,
    extractor: spec_fn(Seq<u8>) -> OutcomeView,
)
    ensures
        step_result(run, outcome, text) == machine_step(run, outcome, |bytes: Seq<u8>| text),
        !(run.phase is AwaitProcessingSaved) ==> step_result(run, outcome, text) == machine_step(
            run,
            outcome,
            extractor,
        ),
{
}

} // verus!
