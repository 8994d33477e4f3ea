//! The service facade: the four operations that callers reach.
//!
//! The two streaming operations start a run and hand it to the caller, who
//! drives it and forwards its events. The two unary operations turn what
//! the record store reported into the response.

use crate::action::{Outcome, OutcomeView};
use crate::document::{
    blob_path_of, lemma_blob_path_is_under_root, path_component, DocumentRecord, RecordView,
};
use crate::machine::{reprocess_start, submit_start};
use crate::run::{prefixed, Run};
use vstd::prelude::*;
use vstd::string::*;

verus! {

/// How many events the progress channel of a run holds before the run has
/// to wait for its consumer.
pub const PROGRESS_CHANNEL_CAPACITY: usize = 4;

/// The identifier type of the `uuid` crate, carried through as an opaque
/// value.
#[verifier::external_type_specification]
#[verifier::external_body]
pub struct ExUuid(uuid::Uuid);

/// A character of a hyphenated identifier: a hyphen at the four group
/// boundaries, a lower-case hexadecimal digit elsewhere.
pub open spec fn identifier_char(position: int, c: char) -> bool {
    if position == 8 || position == 13 || position == 18 || position == 23 {
        c == '-'
    } else {
        ('0' <= c && c <= '9') || ('a' <= c && c <= 'f')
    }
}

/// The shape of a document identifier: 36 characters, hexadecimal digits
/// in five groups divided by hyphens.
pub open spec fn identifier_text(id: Seq<char>) -> bool {
    &&& id.len() == 36
    &&& forall|i: int| 0 <= i < 36 ==> identifier_char(i, #[trigger] id[i])
}

/// Calls `uuid::Uuid::new_v4`, which draws a random identifier. Nothing is
/// claimed of its value. The call panics if the operating system cannot
/// supply random bytes.
#[verifier::external_body]
fn random_uuid() -> uuid::Uuid {
    uuid::Uuid::new_v4()
}

/// Formats an identifier through the `Display` impl of `uuid::Uuid`.
/// Trusted: the text is the hyphenated lower-case form.
#[verifier::external_body]
fn uuid_text(id: &uuid::Uuid) -> (text: String)
    ensures
        identifier_text(text@),
{
    id.to_string()
}

/// Calls `chrono::Utc::now` and formats the time with
/// `DateTime::to_rfc3339`. Trusted: the text holds a date, a time and an
/// offset, which take 25 characters at the least. Which time it tells
/// depends on the clock and is not claimed. The call panics if the clock
/// stands before 1970.
#[verifier::external_body]
fn current_timestamp() -> (text: String)
    ensures
        text@.len() >= 25,
{
    chrono::Utc::now().to_rfc3339()
}

/// The blob of an accepted upload lies directly under the upload
/// directory: a document identifier holds no path separator, and neither
/// does a file name that a run accepts.
pub proof fn theorem_upload_stays_in_upload_dir(
    root: Seq<char>,
    id: Seq<char>,
    filename: Seq<char>,
)
    requires
        identifier_text(id),
        path_component(filename),
    ensures
        path_component(id + "_"@ + filename),
        blob_path_of(root, id, filename) == root + "/"@ + (id + "_"@ + filename),
{
    assert forall|i: int| 0 <= i < id.len() implies id[i] != '/' && id[i] != '\\' by {
        assert(identifier_char(i, id[i]));
    }
    lemma_blob_path_is_under_root(root, id, filename);
}

/// Mathematical content of a [`ListDocumentsResponse`].
pub struct ListDocumentsResponseView {
    pub documents: Seq<RecordView>,
    pub next_page_token: Seq<char>,
}

/// The answer to a listing: every stored document, in no particular order.
#[derive(Debug)]
pub struct ListDocumentsResponse {
    pub documents: Vec<DocumentRecord>,
    /// Paging is not offered: the token is always empty.
    pub next_page_token: String,
}

/// The mathematical content of each record of a sequence.
pub open spec fn records_view(records: Seq<DocumentRecord>) -> Seq<RecordView> {
    Seq::new(records.len(), |i: int| records[i]@)
}

impl View for ListDocumentsResponse {
    type V = ListDocumentsResponseView;

    open spec fn view(&self) -> ListDocumentsResponseView {
        ListDocumentsResponseView {
            documents: records_view(self.documents@),
            next_page_token: self.next_page_token@,
        }
    }
}

/// The answer to a deletion.
#[derive(Clone, Copy, Debug, PartialEq, Eq, Structural)]
pub struct DeleteDocumentResponse {
    pub success: bool,
}

/// A failure of the service itself, reported to the caller in place of a
/// response.
#[derive(Debug)]
pub struct InternalError {
    pub message: String,
}

impl View for InternalError {
    type V = Seq<char>;

    open spec fn view(&self) -> Seq<char> {
        self.message@
    }
}

/// What a listing answers, given what the scan of the record store
/// reported.
pub open spec fn list_response(scan: Result<Seq<RecordView>, Seq<char>>) -> Result<
    ListDocumentsResponseView,
    Seq<char>,
> {
    match scan {
        Ok(documents) => Ok(
            ListDocumentsResponseView { documents, next_page_token: Seq::<char>::empty() },
        ),
        Err(message) => Err("Database error: "@ + message),
    }
}

/// What a deletion answers, given what the record store reported.
pub open spec fn delete_response(deleted: Result<(), Seq<char>>) -> Result<
    DeleteDocumentResponse,
    Seq<char>,
> {
    match deleted {
        Ok(_) => Ok(DeleteDocumentResponse { success: true }),
        Err(message) => Err("Failed to delete from DB: "@ + message),
    }
}

/// The mathematical content of what a scan of the record store reported.
pub open spec fn scan_view(scan: Result<Vec<DocumentRecord>, String>) -> Result<
    Seq<RecordView>,
    Seq<char>,
> {
    match scan {
        Ok(documents) => Ok(records_view(documents@)),
        Err(message) => Err(message@),
    }
}

/// The mathematical content of the answer to a listing.
pub open spec fn listing_view(res: Result<ListDocumentsResponse, InternalError>) -> Result<
    ListDocumentsResponseView,
    Seq<char>,
> {
    match res {
        Ok(response) => Ok(response@),
        Err(error) => Err(error@),
    }
}

/// The mathematical content of what the record store reported of a
/// deletion.
pub open spec fn report_view(deleted: Result<(), String>) -> Result<(), Seq<char>> {
    match deleted {
        Ok(_) => Ok(()),
        Err(message) => Err(message@),
    }
}

/// The mathematical content of the answer to a deletion.
pub open spec fn deletion_view(res: Result<DeleteDocumentResponse, InternalError>) -> Result<
    DeleteDocumentResponse,
    Seq<char>,
> {
    match res {
        Ok(response) => Ok(response),
        Err(error) => Err(error@),
    }
}

/// What the enrichment client answers where no credential is configured:
/// an empty result, without a call of the service, so that a run goes on
/// as with any other answer. With a credential the answer is the service's
/// own, and this function gives none.
pub fn enrichment_without_credential(api_key: &str) -> (answer: Option<Outcome>)
    ensures
        api_key@.len() == 0 ==> (answer matches Some(outcome) && outcome@ == (
        OutcomeView::Enriched { content: Seq::<char>::empty() })),
        api_key@.len() > 0 ==> answer is None,
{
    if api_key.is_empty() {
        Some(Outcome::Enriched { content: String::new() })
    } else {
        None
    }
}

/// The ingestion service: its configuration and its four operations.
#[derive(Debug)]
pub struct IngestionServiceImpl {
    /// The directory under which the blobs are kept.
    pub upload_dir: String,
    /// The credential of the enrichment service; empty where none is set.
    /// A run hands it to the enrichment client with every request and does
    /// not look at it: see `enrichment_without_credential`.
    pub gemini_api_key: String,
}

impl IngestionServiceImpl {
    /// A service that keeps its blobs under `storage/uploads`.
    pub fn new(gemini_api_key: String) -> (service: Self)
        ensures
            service.upload_dir@ == "storage/uploads"@,
            service.gemini_api_key@ == gemini_api_key@,
    {
        IngestionServiceImpl { upload_dir: String::from_str("storage/uploads"), gemini_api_key }
    }

    /// Accepts an upload: gives the document a fresh identifier and the
    /// current time as its creation time, and returns the run that will
    /// take it through the pipeline. Empty bytes and unusable file names
    /// are not refused here: the run reports them as its only event.
    pub fn upload_pdf(&self, file_data: Vec<u8>, filename: String, user_prompt: String) -> (run:
        Run)
        ensures
            identifier_text(run@.document_id),
            run@.created_at.len() >= 25,
            run@ == submit_start(
                self.upload_dir@,
                self.gemini_api_key@,
                run@.document_id,
                run@.created_at,
                file_data@,
                filename@,
                user_prompt@,
            ),
    {
        let id = random_uuid();
        let document_id = uuid_text(&id);
        let created_at = current_timestamp();
        Run::submit(
            self.upload_dir.clone(),
            self.gemini_api_key.clone(),
            document_id,
            created_at,
            file_data,
            filename,
            user_prompt,
        )
    }

    /// Returns the run that will take an existing document through the
    /// pipeline again.
    pub fn process_document(&self, document_id: String, prompt_override: String) -> (run: Run)
        ensures
            run@ == reprocess_start(
                self.upload_dir@,
                self.gemini_api_key@,
                document_id@,
                prompt_override@,
            ),
    {
        Run::reprocess(
            self.upload_dir.clone(),
            self.gemini_api_key.clone(),
            document_id,
            prompt_override,
        )
    }

    /// Answers a listing with all the records that the scan of the record
    /// store returned, in the order of the scan; a scan that finds none
    /// gives an empty list. A scan that failed gives an internal error
    /// with the store's message.
    pub fn list_documents(&self, scan: Result<Vec<DocumentRecord>, String>) -> (res: Result<
        ListDocumentsResponse,
        InternalError,
    >)
        ensures
            listing_view(res) == list_response(scan_view(scan)),
            scan matches Ok(documents) ==> res matches Ok(response) && response.documents
                == documents,
    {
        match scan {
            Ok(documents) => Ok(ListDocumentsResponse { documents, next_page_token: String::new() }),
            Err(message) => Err(
                InternalError { message: prefixed("Database error: ", message.as_str()) },
            ),
        }
    }

    /// Answers a deletion: success where the record store reported that
    /// the record is gone, an internal error with the store's message where
    /// it failed. The answer depends on the store's report alone, so a
    /// second deletion of a document is answered as the store answers it.
    /// The blob of the document is left in place.
    pub fn delete_document(&self, deleted: Result<(), String>) -> (res: Result<
        DeleteDocumentResponse,
        InternalError,
    >)
        ensures
            deletion_view(res) == delete_response(report_view(deleted)),
    {
        match deleted {
            Ok(_) => Ok(DeleteDocumentResponse { success: true }),
            Err(message) => Err(
                InternalError { message: prefixed("Failed to delete from DB: ", message.as_str()) },
            ),
        }
    }
}

} // verus!
