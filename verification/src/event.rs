//! Progress events: what a run reports to its caller while it works.

use vstd::prelude::*;

verus! {

/// Lifecycle state carried by a progress event.
#[derive(Clone, Copy, Debug, PartialEq, Eq, Structural)]
pub enum State {
    Queued,
    ProcessingText,
    Saving,
    Completed,
    Failed,
}

impl State {
    /// `Completed` and `Failed` end a run: no event follows them.
    pub open spec fn terminal(self) -> bool {
        self is Completed || self is Failed
    }

    pub fn is_terminal(&self) -> (b: bool)
        ensures
            b == self.terminal(),
    {
        match self {
            State::Completed => true,
            State::Failed => true,
            _ => false,
        }
    }
}

/// Mathematical content of a [`ProgressEvent`].
pub struct ProgressEventView {
    pub document_id: Seq<char>,
    pub state: State,
    pub message: Seq<char>,
    pub progress_percent: nat,
}

/// One message on the progress channel of a run.
#[derive(Debug)]
pub struct ProgressEvent {
    pub document_id: String,
    pub state: State,
    pub message: String,
    pub progress_percent: u32,
}

impl View for ProgressEvent {
    type V = ProgressEventView;

    open spec fn view(&self) -> ProgressEventView {
        ProgressEventView {
            document_id: self.document_id@,
            state: self.state,
            message: self.message@,
            progress_percent: self.progress_percent as nat,
        }
    }
}

impl Clone for ProgressEvent {
    fn clone(&self) -> (r: Self)
        ensures
            r@ == self@,
    {
        ProgressEvent {
            document_id: self.document_id.clone(),
            state: self.state,
            message: self.message.clone(),
            progress_percent: self.progress_percent,
        }
    }
}

/// Progress reported when the upload has been stored and recorded.
pub const QUEUED_PERCENT: u32 = 10;

/// Progress reported when text extraction begins.
pub const PARSING_PERCENT: u32 = 20;

/// Progress reported when the extracted text is handed to enrichment.
pub const ENRICHING_PERCENT: u32 = 40;

/// Progress reported when the enrichment result is about to be persisted.
pub const SAVING_PERCENT: u32 = 80;

/// Progress reported with `Completed`.
pub const COMPLETED_PERCENT: u32 = 100;

/// Progress reported with `Failed`, whatever was reached before.
pub const FAILED_PERCENT: u32 = 0;

/// The event of a given state, message and progress for a document.
pub open spec fn progress_event(
    document_id: Seq<char>,
    state: State,
    message: Seq<char>,
    percent: u32,
) -> ProgressEventView {
    ProgressEventView { document_id, state, message, progress_percent: percent as nat }
}

/// The terminal event of a run that failed with the given message.
pub open spec fn failed_event(document_id: Seq<char>, message: Seq<char>) -> ProgressEventView {
    progress_event(document_id, State::Failed, message, FAILED_PERCENT)
}

impl ProgressEvent {
    pub fn new(document_id: String, state: State, message: String, percent: u32) -> (event: Self)
        ensures
            event@ == progress_event(document_id@, state, message@, percent),
    {
        ProgressEvent { document_id, state, message, progress_percent: percent }
    }

    /// The terminal event of a run that failed: state `Failed` at 0%.
    pub fn failed(document_id: String, message: String) -> (event: Self)
        ensures
            event@ == failed_event(document_id@, message@),
    {
        ProgressEvent::new(document_id, State::Failed, message, FAILED_PERCENT)
    }

    pub fn is_terminal(&self) -> (b: bool)
        ensures
            b == self@.state.terminal(),
    {
        self.state.is_terminal()
    }
}

} // verus!
