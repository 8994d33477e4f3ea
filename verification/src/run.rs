//! A pipeline run: the executable state machine.
//!
//! A run does no outside work itself. Each call of [`Run::step`] takes the
//! outcome of the action asked for before and returns the next action; the
//! caller carries it out and comes back with its outcome, until the action
//! is `Close`. Text extraction alone is done within `step`.

use crate::action::{extraction_outcome, Action, ActionView, Outcome, OutcomeView};
use crate::document::{blob_path, is_path_component, DocumentRecord, DocumentStatus};
use crate::event::{
    ProgressEvent, State, COMPLETED_PERCENT, ENRICHING_PERCENT, PARSING_PERCENT, QUEUED_PERCENT,
    SAVING_PERCENT,
};
use crate::machine::{
    enrichment_request, reprocess_start, step_result, submit_start, transition_spec, Phase,
    RunView,
};
use crate::pdf::{extract_text_from_pdf, extraction_of, extraction_view};
use vstd::prelude::*;
use vstd::string::*;

verus! {

/// What a step of a run may come to: the step with some result that text
/// extraction can have, whatever the parser made of the bytes.
pub open spec fn possible_step(
    run: RunView,
    outcome: OutcomeView,
    next: RunView,
    action: ActionView,
) -> bool {
    exists|loaded: Result<lopdf::Document, lopdf::Error>|
        (next, action) == step_result(
            run,
            outcome,
            extraction_outcome(#[trigger] extraction_of(loaded)),
        )
}

/// Joins a fixed prefix and a detail into one message.
pub fn prefixed(prefix: &str, detail: &str) -> (message: String)
    ensures
        message@ == prefix@ + detail@,
{
    let mut message = String::from_str(prefix);
    message.append(detail);
    message
}

/// Builds the enrichment request from the caller's instruction and the
/// extracted text.
pub fn build_enrichment_request(prompt: &str, text: &str) -> (request: String)
    ensures
        request@ == enrichment_request(prompt@, text@),
{
    let mut request = String::from_str(
        "You are an expert Exam Parser. Extract questions, choices, and answers into JSON.",
    );
    request.append("\n\nUser Instruction: ");
    request.append(prompt);
    request.append("\n\nDocument Text:\n");
    request.append(text);
    request
}

/// The state of one pipeline run.
#[derive(Debug)]
pub struct Run {
    phase: Phase,
    upload_dir: String,
    api_key: String,
    document_id: String,
    filename: String,
    prompt: String,
    created_at: String,
    file_data: Vec<u8>,
    record: DocumentRecord,
    text: String,
    content: String,
}

impl View for Run {
    type V = RunView;

    closed spec fn view(&self) -> RunView {
        RunView {
            phase: self.phase,
            upload_dir: self.upload_dir@,
            api_key: self.api_key@,
            document_id: self.document_id@,
            filename: self.filename@,
            prompt: self.prompt@,
            created_at: self.created_at@,
            file_data: self.file_data@,
            record: self.record@,
            text: self.text@,
            content: self.content@,
        }
    }
}

impl Run {
    /// A run that will take a new upload through the pipeline.
    pub fn submit(
        upload_dir: String,
        api_key: String,
        document_id: String,
        created_at: String,
        file_data: Vec<u8>,
        filename: String,
        prompt: String,
    ) -> (run: Run)
        ensures
            run@ == submit_start(
                upload_dir@,
                api_key@,
                document_id@,
                created_at@,
                file_data@,
                filename@,
                prompt@,
            ),
    {
        Run {
            phase: Phase::SubmitStart,
            upload_dir,
            api_key,
            document_id,
            filename,
            prompt,
            created_at,
            file_data,
            record: DocumentRecord {
                id: String::new(),
                filename: String::new(),
                status: String::new(),
                created_at: String::new(),
            },
            text: String::new(),
            content: String::new(),
        }
    }

    /// A run that will take an existing document through the pipeline
    /// again, with the given instruction.
    pub fn reprocess(
        upload_dir: String,
        api_key: String,
        document_id: String,
        prompt_override: String,
    ) -> (run: Run)
        ensures
            run@ == reprocess_start(upload_dir@, api_key@, document_id@, prompt_override@),
    {
        let prompt = if !prompt_override.as_str().is_empty() {
            prompt_override
        } else {
            String::new()
        };
        Run {
            phase: Phase::ReprocessStart,
            upload_dir,
            api_key,
            document_id,
            filename: String::new(),
            prompt,
            created_at: String::new(),
            file_data: Vec::new(),
            record: DocumentRecord {
                id: String::new(),
                filename: String::new(),
                status: String::new(),
                created_at: String::new(),
            },
            text: String::new(),
            content: String::new(),
        }
    }

    pub fn phase(&self) -> (phase: Phase)
        ensures
            phase == self@.phase,
    {
        self.phase
    }

    /// Whether the run is over.
    pub fn is_closed(&self) -> (closed: bool)
        ensures
            closed == (self@.phase is Closed),
    {
        match self.phase {
            Phase::Closed => true,
            _ => false,
        }
    }

    /// The identifier of the document that the run works on.
    pub fn document_id(&self) -> (id: String)
        ensures
            id@ == self@.document_id,
    {
        self.document_id.clone()
    }

    /// The bytes of the document, as far as the run holds them: those of
    /// the upload, or those read back for a reprocessing.
    pub fn file_data(&self) -> (bytes: &Vec<u8>)
        ensures
            bytes@ == self@.file_data,
    {
        &self.file_data
    }

    fn report(&mut self, next: Phase, state: State, message: &str, percent: u32) -> (action: Action)
        ensures
            (final(self)@, action@) == old(self)@.report(next, state, message@, percent),
    {
        self.phase = next;
        Action::Emit {
            event: ProgressEvent::new(
                self.document_id.clone(),
                state,
                String::from_str(message),
                percent,
            ),
        }
    }

    fn fail(&mut self, message: String) -> (action: Action)
        ensures
            (final(self)@, action@) == old(self)@.fail(message@),
    {
        self.phase = Phase::AwaitTerminalSent;
        Action::Emit { event: ProgressEvent::failed(self.document_id.clone(), message) }
    }

    fn fail_and_mark(&mut self, message: String) -> (action: Action)
        ensures
            (final(self)@, action@) == old(self)@.fail_and_mark(message@),
    {
        self.phase = Phase::AwaitFailureSent;
        Action::Emit { event: ProgressEvent::failed(self.document_id.clone(), message) }
    }

    fn write_status(&mut self, next: Phase, status: DocumentStatus) -> (action: Action)
        ensures
            (final(self)@, action@) == old(self)@.write_status(next, status),
    {
        self.phase = next;
        self.record.set_status(status);
        Action::UpdateRecord {
            document_id: self.document_id.clone(),
            record: self.record.clone(),
        }
    }

    fn close(&mut self) -> (action: Action)
        ensures
            (final(self)@, action@) == old(self)@.close(),
    {
        self.phase = Phase::Closed;
        Action::Close
    }

    /// One transition of the run: takes the outcome of the action asked for
    /// before and returns the next action.
    pub fn transition(&mut self, outcome: Outcome) -> (action: Action)
        ensures
            (final(self)@, action@) == transition_spec(old(self)@, outcome@),
    {
        match self.phase {
            Phase::SubmitStart => {
                if self.file_data.is_empty() {
                    self.fail(String::from_str("No file data received"))
                } else if !is_path_component(self.filename.as_str()) {
                    self.fail(String::from_str("Invalid filename"))
                } else {
                    self.phase = Phase::AwaitDir;
                    Action::CreateUploadDir { dir: self.upload_dir.clone() }
                }
            },
            Phase::ReprocessStart => {
                self.phase = Phase::AwaitLookup;
                Action::FetchRecord { document_id: self.document_id.clone() }
            },
            Phase::AwaitDir => match outcome {
                Outcome::Done => {
                    self.phase = Phase::AwaitBlobWrite;
                    let bytes = self.file_data.clone();
                    assert(bytes@ =~= self.file_data@);
                    Action::WriteBlob {
                        path: blob_path(
                            self.upload_dir.as_str(),
                            self.document_id.as_str(),
                            self.filename.as_str(),
                        ),
                        bytes,
                    }
                },
                other => {
                    let detail = other.detail();
                    self.fail(prefixed("Failed to create storage directory: ", detail.as_str()))
                },
            },
            Phase::AwaitBlobWrite => match outcome {
                Outcome::Done => {
                    self.phase = Phase::AwaitInsert;
                    Action::InsertRecord {
                        document_id: self.document_id.clone(),
                        record: DocumentRecord::uploaded(
                            self.document_id.clone(),
                            self.filename.clone(),
                            self.created_at.clone(),
                        ),
                    }
                },
                other => {
                    let detail = other.detail();
                    self.fail(prefixed("Failed to save file: ", detail.as_str()))
                },
            },
            Phase::AwaitInsert => match outcome {
                Outcome::Done => self.report(
                    Phase::AwaitQueuedSent,
                    State::Queued,
                    "File uploaded successfully.",
                    QUEUED_PERCENT,
                ),
                other => {
                    let detail = other.detail();
                    self.fail(prefixed("Failed to create DB record: ", detail.as_str()))
                },
            },
            Phase::AwaitQueuedSent => match outcome {
                Outcome::Done => self.report(
                    Phase::AwaitParsingSent,
                    State::ProcessingText,
                    "Parsing PDF text...",
                    PARSING_PERCENT,
                ),
                _ => self.close(),
            },
            Phase::AwaitLookup => match outcome {
                Outcome::Record { record: Some(found) } => {
                    self.phase = Phase::AwaitBlobRead;
                    self.filename = found.filename;
                    Action::ReadBlob {
                        path: blob_path(
                            self.upload_dir.as_str(),
                            self.document_id.as_str(),
                            self.filename.as_str(),
                        ),
                    }
                },
                _ => self.fail(String::from_str("Document not found")),
            },
            Phase::AwaitBlobRead => match outcome {
                Outcome::Blob { bytes } => {
                    self.file_data = bytes;
                    self.report(
                        Phase::AwaitParsingSent,
                        State::ProcessingText,
                        "Parsing PDF text...",
                        PARSING_PERCENT,
                    )
                },
                other => {
                    let detail = other.detail();
                    self.fail(prefixed("File not found: ", detail.as_str()))
                },
            },
            Phase::AwaitParsingSent => match outcome {
                Outcome::Done => {
                    self.phase = Phase::AwaitRecord;
                    Action::FetchRecord { document_id: self.document_id.clone() }
                },
                _ => self.close(),
            },
            Phase::AwaitRecord => match outcome {
                Outcome::Record { record: Some(found) } => {
                    self.record = found;
                    self.write_status(Phase::AwaitProcessingSaved, DocumentStatus::Processing)
                },
                _ => self.fail(String::from_str("Document not found")),
            },
            Phase::AwaitProcessingSaved => match outcome {
                Outcome::Done => {
                    self.phase = Phase::AwaitText;
                    Action::ExtractText
                },
                other => {
                    let detail = other.detail();
                    self.fail(prefixed("Failed to update DB record: ", detail.as_str()))
                },
            },
            Phase::AwaitText => match outcome {
                Outcome::Text { text } => {
                    self.text = text;
                    self.report(
                        Phase::AwaitEnrichingSent,
                        State::ProcessingText,
                        "Consulting Gemini AI...",
                        ENRICHING_PERCENT,
                    )
                },
                other => {
                    let detail = other.detail();
                    self.fail_and_mark(prefixed("Failed to parse PDF: ", detail.as_str()))
                },
            },
            Phase::AwaitEnrichingSent => match outcome {
                Outcome::Done => {
                    self.phase = Phase::AwaitEnrichment;
                    Action::Enrich {
                        api_key: self.api_key.clone(),
                        request: build_enrichment_request(self.prompt.as_str(), self.text.as_str()),
                    }
                },
                _ => self.close(),
            },
            Phase::AwaitEnrichment => match outcome {
                Outcome::Enriched { content } => {
                    self.content = content;
                    self.report(
                        Phase::AwaitSavingSent,
                        State::Saving,
                        "Saving extraction results...",
                        SAVING_PERCENT,
                    )
                },
                other => {
                    let detail = other.detail();
                    self.fail_and_mark(prefixed("Enrichment failed: ", detail.as_str()))
                },
            },
            Phase::AwaitSavingSent => match outcome {
                Outcome::Done => {
                    self.phase = Phase::AwaitResultSaved;
                    Action::SaveResult {
                        document_id: self.document_id.clone(),
                        content: self.content.clone(),
                    }
                },
                _ => self.close(),
            },
            Phase::AwaitResultSaved => match outcome {
                Outcome::Done => self.write_status(
                    Phase::AwaitSucceededSaved,
                    DocumentStatus::Succeeded,
                ),
                other => {
                    let detail = other.detail();
                    self.fail(prefixed("Failed to save extraction results: ", detail.as_str()))
                },
            },
            Phase::AwaitSucceededSaved => match outcome {
                Outcome::Done => self.report(
                    Phase::AwaitTerminalSent,
                    State::Completed,
                    "Extraction complete!",
                    COMPLETED_PERCENT,
                ),
                other => {
                    let detail = other.detail();
                    self.fail(prefixed("Failed to update DB record: ", detail.as_str()))
                },
            },
            Phase::AwaitFailureSent => self.write_status(
                Phase::AwaitFailedSaved,
                DocumentStatus::Failed,
            ),
            Phase::AwaitFailedSaved => self.close(),
            Phase::AwaitTerminalSent => self.close(),
            Phase::Closed => self.close(),
        }
    }

    /// One step of the run: takes the outcome of the action asked for
    /// before and returns the next action for the caller to carry out.
    /// Where the run needs the text of its bytes, it is extracted here, so
    /// the action returned is never `ExtractText`. The step is then the one
    /// that `transition` makes of the result of extraction; which result
    /// the bytes give is not stated.
    pub fn step(&mut self, outcome: Outcome) -> (action: Action)
        ensures
            !(action@ is ExtractText),
            possible_step(old(self)@, outcome@, final(self)@, action@),
            !(transition_spec(old(self)@, outcome@).1 is ExtractText) ==> (final(self)@, action@)
                == transition_spec(old(self)@, outcome@),
    {
        let ghost before = self@;
        let action = self.transition(outcome);
        match action {
            Action::ExtractText => {
                let res = extract_text_from_pdf(self.file_data.as_slice());
                let ghost extracted = extraction_view(res);
                let next = self.transition(Outcome::from_extraction(res));
                proof {
                    let loaded = choose|loaded: Result<lopdf::Document, lopdf::Error>|
                        extracted == #[trigger] extraction_of(loaded);
                    assert((self@, next@) == step_result(
                        before,
                        outcome@,
                        extraction_outcome(extraction_of(loaded)),
                    ));
                }
                next
            },
            other => {
                proof {
                    let loaded: Result<lopdf::Document, lopdf::Error> = arbitrary();
                    assert((self@, other@) == step_result(
                        before,
                        outcome@,
                        extraction_outcome(extraction_of(loaded)),
                    ));
                }
                other
            },
        }
    }
}

} // verus!
