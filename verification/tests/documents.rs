//! Records, blob paths and the rules of the unary operations.

use ingestion::action::Outcome;
use ingestion::config::resolve_project_id;
use ingestion::document::{blob_path, is_path_component, DocumentRecord, DocumentStatus};
use ingestion::event::{ProgressEvent, State};
use ingestion::pdf::ExtractError;
use ingestion::run::{build_enrichment_request, prefixed};
use ingestion::service::{IngestionServiceImpl, PROGRESS_CHANNEL_CAPACITY};

fn record(id: &str, status: &str) -> DocumentRecord {
    DocumentRecord {
        id: id.to_string(),
        filename: format!("{}.pdf", id),
        status: status.to_string(),
        created_at: "2024-05-01T10:00:00+00:00".to_string(),
    }
}

#[test]
fn status_labels() {
    assert_eq!(DocumentStatus::Uploaded.as_string(), "Uploaded");
    assert_eq!(DocumentStatus::Processing.as_string(), "Processing");
    assert_eq!(DocumentStatus::Failed.as_string(), "Failed");
    assert_eq!(DocumentStatus::Succeeded.as_string(), "Succeeded");
}

#[test]
fn uploaded_record_holds_what_it_was_given() {
    let r = DocumentRecord::uploaded("id-1".to_string(), "a.pdf".to_string(), "t0".to_string());
    assert_eq!(r.id, "id-1");
    assert_eq!(r.filename, "a.pdf");
    assert_eq!(r.status, "Uploaded");
    assert_eq!(r.created_at, "t0");
}

#[test]
fn set_status_keeps_the_other_fields() {
    let mut r = record("id-1", "Uploaded");
    r.set_status(DocumentStatus::Processing);
    assert_eq!(r.status, "Processing");
    assert_eq!(r.id, "id-1");
    assert_eq!(r.filename, "id-1.pdf");
    assert_eq!(r.created_at, "2024-05-01T10:00:00+00:00");
    let copy = r.clone();
    assert_eq!(copy.status, "Processing");
    assert_eq!(copy.id, "id-1");
}

#[test]
fn blob_path_joins_root_identifier_and_filename() {
    assert_eq!(blob_path("storage/uploads", "abc", "exam.pdf"), "storage/uploads/abc_exam.pdf");
    assert_eq!(blob_path("", "", ""), "/_");
    assert_eq!(blob_path("r", "i", "naïve.pdf"), "r/i_naïve.pdf");
}

#[test]
fn path_component_rules() {
    assert!(is_path_component("exam.pdf"));
    assert!(is_path_component(".."));
    assert!(is_path_component("ünïcode name.pdf"));
    assert!(!is_path_component(""));
    assert!(!is_path_component("a/b"));
    assert!(!is_path_component("a\\b"));
    assert!(!is_path_component("/"));
    assert!(!is_path_component("trailing/"));
}

#[test]
fn terminal_states() {
    assert!(State::Completed.is_terminal());
    assert!(State::Failed.is_terminal());
    assert!(!State::Queued.is_terminal());
    assert!(!State::ProcessingText.is_terminal());
    assert!(!State::Saving.is_terminal());
}

#[test]
fn failed_event_is_at_zero_percent() {
    let event = ProgressEvent::failed("id".to_string(), "why".to_string());
    assert_eq!(event.state, State::Failed);
    assert_eq!(event.progress_percent, 0);
    assert_eq!(event.message, "why");
    assert_eq!(event.document_id, "id");
    assert!(event.is_terminal());
    let copy = event.clone();
    assert_eq!(copy.message, "why");
    let queued = ProgressEvent::new("id".to_string(), State::Queued, "m".to_string(), 10);
    assert!(!queued.is_terminal());
    assert_eq!(queued.progress_percent, 10);
}

#[test]
fn message_helpers() {
    assert_eq!(prefixed("File not found: ", "gone"), "File not found: gone");
    assert_eq!(prefixed("", ""), "");
    assert_eq!(
        build_enrichment_request("p", "t"),
        "You are an expert Exam Parser. Extract questions, choices, and answers into JSON.\n\nUser Instruction: p\n\nDocument Text:\nt"
    );
}

#[test]
fn list_documents_with_no_documents_is_an_empty_list() {
    let service = IngestionServiceImpl::new(String::new());
    let response = service.list_documents(Ok(Vec::new())).expect("an empty scan is no error");
    assert!(response.documents.is_empty());
    assert_eq!(response.next_page_token, "");
}

#[test]
fn list_documents_returns_every_record_of_the_scan() {
    let service = IngestionServiceImpl::new(String::new());
    let scan = vec![record("b", "Succeeded"), record("a", "Failed")];
    let response = service.list_documents(Ok(scan)).unwrap();
    assert_eq!(response.documents.len(), 2);
    assert_eq!(response.documents[0].id, "b");
    assert_eq!(response.documents[0].status, "Succeeded");
    assert_eq!(response.documents[1].id, "a");
    assert_eq!(response.documents[1].filename, "a.pdf");
    assert_eq!(response.next_page_token, "");
}

#[test]
fn list_documents_reports_a_failed_scan() {
    let service = IngestionServiceImpl::new(String::new());
    let error = service.list_documents(Err("deadline exceeded".to_string())).unwrap_err();
    assert_eq!(error.message, "Database error: deadline exceeded");
}

#[test]
fn delete_document_twice_succeeds_twice() {
    let service = IngestionServiceImpl::new(String::new());
    let first = service.delete_document(Ok(())).unwrap();
    let second = service.delete_document(Ok(())).unwrap();
    assert!(first.success);
    assert!(second.success);
    assert_eq!(first, second);
}

#[test]
fn delete_document_reports_a_storage_error() {
    let service = IngestionServiceImpl::new(String::new());
    let error = service.delete_document(Err("unavailable".to_string())).unwrap_err();
    assert_eq!(error.message, "Failed to delete from DB: unavailable");
}

#[test]
fn service_defaults() {
    let service = IngestionServiceImpl::new("k".to_string());
    assert_eq!(service.upload_dir, "storage/uploads");
    assert_eq!(service.gemini_api_key, "k");
    assert_eq!(PROGRESS_CHANNEL_CAPACITY, 4);
}

#[test]
fn project_id_falls_back_in_order() {
    assert_eq!(resolve_project_id(Some("p".to_string()), Some("g".to_string())), "p");
    assert_eq!(resolve_project_id(None, Some("g".to_string())), "g");
    assert_eq!(resolve_project_id(None, None), "superexam-dev");
    assert_eq!(resolve_project_id(Some(String::new()), Some("g".to_string())), "");
}

#[test]
fn extraction_results_become_outcomes() {
    match Outcome::from_extraction(Ok("page\n".to_string())) {
        Outcome::Text { text } => assert_eq!(text, "page\n"),
        other => panic!("{:?}", other),
    }
    let load = ExtractError::Load { message: "invalid file header".to_string() };
    assert_eq!(load.message(), "invalid file header");
    match Outcome::from_extraction(Err(load)) {
        Outcome::Failed { message } => assert_eq!(message, "invalid file header"),
        other => panic!("{:?}", other),
    }
    let page = ExtractError::Page { page: 3, message: "missing font".to_string() };
    assert_eq!(page.message(), "missing font");
    match Outcome::from_extraction(Err(page)) {
        Outcome::Failed { message } => assert_eq!(message, "missing font"),
        other => panic!("{:?}", other),
    }
}

#[test]
fn detail_of_an_outcome() {
    assert_eq!(Outcome::Failed { message: "disk full".to_string() }.detail(), "disk full");
    assert_eq!(Outcome::Done.detail(), "unexpected outcome");
    assert_eq!(Outcome::Disconnected.detail(), "unexpected outcome");
    assert_eq!(Outcome::Record { record: None }.detail(), "unexpected outcome");
}
