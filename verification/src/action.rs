//! The interface between a run and its surroundings: the actions that a run
//! asks for, and the outcomes that are handed back to it.

use crate::document::{DocumentRecord, RecordView};
use crate::event::{ProgressEvent, ProgressEventView};
use crate::pdf::{ExtractError, ExtractErrorView};
use vstd::prelude::*;
use vstd::string::*;

verus! {

/// Mathematical content of an [`Action`].
pub enum ActionView {
    CreateUploadDir { dir: Seq<char> },
    WriteBlob { path: Seq<char>, bytes: Seq<u8> },
    InsertRecord { document_id: Seq<char>, record: RecordView },
    FetchRecord { document_id: Seq<char> },
    ReadBlob { path: Seq<char> },
    UpdateRecord { document_id: Seq<char>, record: RecordView },
    ExtractText,
    Enrich { api_key: Seq<char>, request: Seq<char> },
    SaveResult { document_id: Seq<char>, content: Seq<char> },
    Emit { event: ProgressEventView },
    Close,
}

impl ActionView {
    /// The action writes to the record store.
    pub open spec fn writes_record(self) -> bool {
        self is InsertRecord || self is UpdateRecord
    }

    /// The action concerns the given document alone: what it writes, looks
    /// up, saves or reports is written, looked up, saved or reported under
    /// that identifier.
    pub open spec fn concerns(self, id: Seq<char>) -> bool {
        match self {
            ActionView::InsertRecord { document_id, .. } => document_id == id,
            ActionView::UpdateRecord { document_id, .. } => document_id == id,
            ActionView::FetchRecord { document_id } => document_id == id,
            ActionView::SaveResult { document_id, .. } => document_id == id,
            ActionView::Emit { event } => event.document_id == id && event.progress_percent <= 100,
            _ => true,
        }
    }
}

/// What a run asks its surroundings to do next.
#[derive(Debug)]
pub enum Action {
    /// Make sure that the upload directory exists.
    CreateUploadDir { dir: String },
    /// Write the bytes of the upload to the blob store.
    WriteBlob { path: String, bytes: Vec<u8> },
    /// Insert a new document record under the identifier.
    InsertRecord { document_id: String, record: DocumentRecord },
    /// Fetch the document record stored under the identifier.
    FetchRecord { document_id: String },
    /// Read the bytes of a blob.
    ReadBlob { path: String },
    /// Replace the whole document record stored under the identifier.
    UpdateRecord { document_id: String, record: DocumentRecord },
    /// Extract the text of the run's file bytes.
    ExtractText,
    /// Hand the request to the enrichment service.
    Enrich { api_key: String, request: String },
    /// Persist the enrichment result of the document.
    SaveResult { document_id: String, content: String },
    /// Send an event on the progress channel, waiting while it is full.
    Emit { event: ProgressEvent },
    /// The run is over: close the progress channel.
    Close,
}

impl View for Action {
    type V = ActionView;

    open spec fn view(&self) -> ActionView {
        match self {
            Action::CreateUploadDir { dir } => ActionView::CreateUploadDir { dir: dir@ },
            Action::WriteBlob { path, bytes } => ActionView::WriteBlob {
                path: path@,
                bytes: bytes@,
            },
            Action::InsertRecord { document_id, record } => ActionView::InsertRecord {
                document_id: document_id@,
                record: record@,
            },
            Action::FetchRecord { document_id } => ActionView::FetchRecord {
                document_id: document_id@,
            },
            Action::ReadBlob { path } => ActionView::ReadBlob { path: path@ },
            Action::UpdateRecord { document_id, record } => ActionView::UpdateRecord {
                document_id: document_id@,
                record: record@,
            },
            Action::ExtractText => ActionView::ExtractText,
            Action::Enrich { api_key, request } => ActionView::Enrich {
                api_key: api_key@,
                request: request@,
            },
            Action::SaveResult { document_id, content } => ActionView::SaveResult {
                document_id: document_id@,
                content: content@,
            },
            Action::Emit { event } => ActionView::Emit { event: event@ },
            Action::Close => ActionView::Close,
        }
    }
}

/// Mathematical content of an [`Outcome`].
pub enum OutcomeView {
    Done,
    Failed { message: Seq<char> },
    Record { record: Option<RecordView> },
    Blob { bytes: Seq<u8> },
    Text { text: Seq<char> },
    Enriched { content: Seq<char> },
    Disconnected,
}

impl OutcomeView {
    /// The detail that a failure message carries for this outcome: the
    /// collaborator's own message where it reported a failure.
    pub open spec fn detail(self) -> Seq<char> {
        match self {
            OutcomeView::Failed { message } => message,
            _ => "unexpected outcome"@,
        }
    }
}

/// What came of the action that a run asked for.
#[derive(Debug)]
pub enum Outcome {
    /// The action was carried out; there is nothing to hand back.
    Done,
    /// The action failed, with the collaborator's message.
    Failed { message: String },
    /// The record that `FetchRecord` found, if any.
    Record { record: Option<DocumentRecord> },
    /// The bytes that `ReadBlob` read.
    Blob { bytes: Vec<u8> },
    /// The text that `ExtractText` extracted.
    Text { text: String },
    /// The result that `Enrich` produced.
    Enriched { content: String },
    /// `Emit` found that the consumer has gone.
    Disconnected,
}

impl View for Outcome {
    type V = OutcomeView;

    open spec fn view(&self) -> OutcomeView {
        match self {
            Outcome::Done => OutcomeView::Done,
            Outcome::Failed { message } => OutcomeView::Failed { message: message@ },
            Outcome::Record { record } => OutcomeView::Record {
                record: match record {
                    Some(r) => Some(r@),
                    None => None,
                },
            },
            Outcome::Blob { bytes } => OutcomeView::Blob { bytes: bytes@ },
            Outcome::Text { text } => OutcomeView::Text { text: text@ },
            Outcome::Enriched { content } => OutcomeView::Enriched { content: content@ },
            Outcome::Disconnected => OutcomeView::Disconnected,
        }
    }
}

/// The outcome that a text extraction result stands for.
pub open spec fn extraction_outcome(res: Result<Seq<char>, ExtractErrorView>) -> OutcomeView {
    match res {
        Ok(text) => OutcomeView::Text { text },
        Err(e) => OutcomeView::Failed { message: e.message() },
    }
}

impl Outcome {
    /// Turns the result of text extraction into the outcome of
    /// `ExtractText`: the text, or a failure with the parser's message.
    pub fn from_extraction(res: Result<String, ExtractError>) -> (outcome: Outcome)
        ensures
            outcome@ == extraction_outcome(crate::pdf::extraction_view(res)),
    {
        match res {
            Ok(text) => Outcome::Text { text },
            Err(e) => Outcome::Failed { message: e.message() },
        }
    }

    /// The detail to report when this outcome is not the awaited one.
    pub fn detail(&self) -> (text: String)
        ensures
            text@ == self@.detail(),
    {
        match self {
            Outcome::Failed { message } => message.clone(),
            _ => String::from_str("unexpected outcome"),
        }
    }
}

} // verus!
