//! Runs driven from start to end against stores held in memory.

use ingestion::action::{Action, Outcome};
use ingestion::document::DocumentRecord;
use ingestion::event::{ProgressEvent, State};
use ingestion::machine::Phase;
use ingestion::run::Run;
use ingestion::service::{enrichment_without_credential, IngestionServiceImpl};
use ingestion::trace::MAX_STEPS;
use lopdf::content::{Content, Operation};
use lopdf::{Dictionary, Object, Stream};
use std::collections::HashMap;

/// The surroundings of a run: stores in memory, and switches that make a
/// collaborator fail.
struct World {
    dirs: Vec<String>,
    blobs: HashMap<String, Vec<u8>>,
    records: HashMap<String, DocumentRecord>,
    results: HashMap<String, String>,
    events: Vec<ProgressEvent>,
    requests: Vec<(String, String)>,
    writes: Vec<String>,
    fail_dir: bool,
    fail_blob_write: bool,
    fail_insert: bool,
    fail_update_of: Option<String>,
    fail_enrichment: bool,
    fail_save_result: bool,
    connected_for: usize,
}

impl World {
    fn new() -> World {
        World {
            dirs: Vec::new(),
            blobs: HashMap::new(),
            records: HashMap::new(),
            results: HashMap::new(),
            events: Vec::new(),
            requests: Vec::new(),
            writes: Vec::new(),
            fail_dir: false,
            fail_blob_write: false,
            fail_insert: false,
            fail_update_of: None,
            fail_enrichment: false,
            fail_save_result: false,
            connected_for: usize::MAX,
        }
    }

    fn failed(message: &str) -> Outcome {
        Outcome::Failed { message: message.to_string() }
    }

    fn perform(&mut self, action: Action) -> Outcome {
        match action {
            Action::CreateUploadDir { dir } => {
                if self.fail_dir {
                    return World::failed("permission denied");
                }
                self.dirs.push(dir);
                Outcome::Done
            }
            Action::WriteBlob { path, bytes } => {
                if self.fail_blob_write {
                    return World::failed("disk full");
                }
                self.blobs.insert(path, bytes);
                Outcome::Done
            }
            Action::InsertRecord { document_id, record } => {
                if self.fail_insert {
                    return World::failed("store unavailable");
                }
                self.writes.push(record.status.clone());
                self.records.insert(document_id, record);
                Outcome::Done
            }
            Action::FetchRecord { document_id } => {
                Outcome::Record { record: self.records.get(&document_id).cloned() }
            }
            Action::ReadBlob { path } => match self.blobs.get(&path) {
                Some(bytes) => Outcome::Blob { bytes: bytes.clone() },
                None => World::failed("No such file or directory (os error 2)"),
            },
            Action::UpdateRecord { document_id, record } => {
                if self.fail_update_of.as_deref() == Some(record.status.as_str()) {
                    return World::failed("store unavailable");
                }
                self.writes.push(record.status.clone());
                self.records.insert(document_id, record);
                Outcome::Done
            }
            Action::ExtractText => panic!("a step never asks its caller for the text"),
            Action::Enrich { api_key, request } => {
                let keyless = enrichment_without_credential(&api_key);
                self.requests.push((api_key, request));
                if self.fail_enrichment {
                    return World::failed("quota exceeded");
                }
                match keyless {
                    Some(answer) => answer,
                    None => Outcome::Enriched { content: "{\"questions\":[]}".to_string() },
                }
            }
            Action::SaveResult { document_id, content } => {
                if self.fail_save_result {
                    return World::failed("store unavailable");
                }
                self.results.insert(document_id, content);
                Outcome::Done
            }
            Action::Emit { event } => {
                if self.events.len() >= self.connected_for {
                    return Outcome::Disconnected;
                }
                self.events.push(event);
                Outcome::Done
            }
            Action::Close => panic!("Close ends the run and is not carried out"),
        }
    }

    /// Drives the run until it asks to close; returns the number of steps.
    fn drive(&mut self, run: &mut Run) -> usize {
        let mut outcome = Outcome::Done;
        let mut steps = 0;
        loop {
            let action = run.step(outcome);
            steps += 1;
            assert!(steps <= MAX_STEPS, "a run closes within MAX_STEPS steps");
            if let Action::Close = action {
                return steps;
            }
            outcome = self.perform(action);
        }
    }

    fn shape(&self) -> Vec<(State, u32)> {
        self.events.iter().map(|e| (e.state, e.progress_percent)).collect()
    }

    fn status_of(&self, id: &str) -> Option<String> {
        self.records.get(id).map(|r| r.status.clone())
    }
}

fn name(text: &str) -> Object {
    Object::Name(text.as_bytes().to_vec())
}

/// A PDF with one page for each text.
fn pdf_with_pages(texts: &[&str]) -> Vec<u8> {
    let mut doc = lopdf::Document::with_version("1.5");
    let pages_id = doc.new_object_id();
    let mut font = Dictionary::new();
    font.set("Type", name("Font"));
    font.set("Subtype", name("Type1"));
    font.set("BaseFont", name("Courier"));
    let font_id = doc.add_object(font);
    let mut fonts = Dictionary::new();
    fonts.set("F1", Object::Reference(font_id));
    let mut resources = Dictionary::new();
    resources.set("Font", Object::Dictionary(fonts));
    let resources_id = doc.add_object(resources);
    let mut kids = Vec::new();
    for text in texts {
        let content = Content {
            operations: vec![
                Operation::new("BT", vec![]),
                Operation::new("Tf", vec![name("F1"), Object::Integer(48)]),
                Operation::new("Td", vec![Object::Integer(100), Object::Integer(600)]),
                Operation::new("Tj", vec![Object::string_literal(*text)]),
                Operation::new("ET", vec![]),
            ],
        };
        let content_id = doc.add_object(Stream::new(Dictionary::new(), content.encode().unwrap()));
        let mut page = Dictionary::new();
        page.set("Type", name("Page"));
        page.set("Parent", Object::Reference(pages_id));
        page.set("Contents", Object::Reference(content_id));
        kids.push(Object::Reference(doc.add_object(page)));
    }
    let mut pages = Dictionary::new();
    pages.set("Type", name("Pages"));
    pages.set("Count", Object::Integer(kids.len() as i64));
    pages.set("Kids", Object::Array(kids));
    pages.set("Resources", Object::Reference(resources_id));
    pages.set(
        "MediaBox",
        Object::Array(vec![
            Object::Integer(0),
            Object::Integer(0),
            Object::Integer(595),
            Object::Integer(842),
        ]),
    );
    doc.objects.insert(pages_id, Object::Dictionary(pages));
    let mut catalog = Dictionary::new();
    catalog.set("Type", name("Catalog"));
    catalog.set("Pages", Object::Reference(pages_id));
    let catalog_id = doc.add_object(catalog);
    doc.trailer.set("Root", Object::Reference(catalog_id));
    let mut bytes = Vec::new();
    doc.save_to(&mut bytes).unwrap();
    bytes
}

fn submit(key: &str, bytes: Vec<u8>, filename: &str, prompt: &str) -> Run {
    Run::submit(
        "storage/uploads".to_string(),
        key.to_string(),
        "doc-1".to_string(),
        "2024-05-01T10:00:00+00:00".to_string(),
        bytes,
        filename.to_string(),
        prompt.to_string(),
    )
}

fn reprocess(key: &str, id: &str, prompt: &str) -> Run {
    Run::reprocess("storage/uploads".to_string(), key.to_string(), id.to_string(), prompt.to_string())
}

fn stored(world: &mut World, id: &str, filename: &str, status: &str, bytes: Option<Vec<u8>>) {
    world.records.insert(
        id.to_string(),
        DocumentRecord {
            id: id.to_string(),
            filename: filename.to_string(),
            status: status.to_string(),
            created_at: "2024-04-30T08:00:00+00:00".to_string(),
        },
    );
    if let Some(bytes) = bytes {
        world.blobs.insert(format!("storage/uploads/{}_{}", id, filename), bytes);
    }
}

#[test]
fn submit_minimal_pdf_completes_and_stores_succeeded() {
    let mut world = World::new();
    let mut run = submit("", pdf_with_pages(&["Hello World!"]), "exam.pdf", "extract MCQs");
    world.drive(&mut run);
    assert_eq!(
        world.shape(),
        vec![
            (State::Queued, 10),
            (State::ProcessingText, 20),
            (State::ProcessingText, 40),
            (State::Saving, 80),
            (State::Completed, 100),
        ]
    );
    assert_eq!(world.status_of("doc-1").as_deref(), Some("Succeeded"));
    assert!(run.is_closed());
    let messages: Vec<&str> = world.events.iter().map(|e| e.message.as_str()).collect();
    assert_eq!(
        messages,
        vec![
            "File uploaded successfully.",
            "Parsing PDF text...",
            "Consulting Gemini AI...",
            "Saving extraction results...",
            "Extraction complete!",
        ]
    );
    assert!(world.events.iter().all(|e| e.document_id == "doc-1"));
}

#[test]
fn submit_invalid_pdf_reports_parse_failure_and_stores_failed() {
    let mut world = World::new();
    let mut run = submit("", b"this is not a pdf".to_vec(), "notes.pdf", "");
    world.drive(&mut run);
    assert_eq!(
        world.shape(),
        vec![(State::Queued, 10), (State::ProcessingText, 20), (State::Failed, 0)]
    );
    let last = world.events.last().unwrap();
    assert!(last.message.starts_with("Failed to parse PDF: "), "{}", last.message);
    let cause = lopdf::Document::load_mem(b"this is not a pdf").unwrap_err().to_string();
    assert_eq!(last.message, format!("Failed to parse PDF: {}", cause));
    assert_eq!(world.status_of("doc-1").as_deref(), Some("Failed"));
    assert_eq!(world.writes, vec!["Uploaded", "Processing", "Failed"]);
}

#[test]
fn submit_writes_blob_then_record_at_the_derived_path() {
    let mut world = World::new();
    let bytes = pdf_with_pages(&["A"]);
    let mut run = submit("", bytes.clone(), "exam.pdf", "");
    world.drive(&mut run);
    assert_eq!(world.dirs, vec!["storage/uploads"]);
    assert_eq!(world.blobs.get("storage/uploads/doc-1_exam.pdf"), Some(&bytes));
    assert_eq!(world.blobs.len(), 1);
    let record = world.records.get("doc-1").unwrap();
    assert_eq!(record.id, "doc-1");
    assert_eq!(record.filename, "exam.pdf");
    assert_eq!(record.created_at, "2024-05-01T10:00:00+00:00");
    assert_eq!(world.records.len(), 1);
    assert_eq!(world.writes, vec!["Uploaded", "Processing", "Succeeded"]);
}

#[test]
fn progress_never_falls_before_the_one_terminal_event() {
    for bytes in [pdf_with_pages(&["A", "B"]), b"%PDF-garbage".to_vec()] {
        let mut world = World::new();
        let mut run = submit("key", bytes, "a.pdf", "p");
        world.drive(&mut run);
        let terminal: Vec<usize> = (0..world.events.len())
            .filter(|i| world.events[*i].is_terminal())
            .collect();
        assert_eq!(terminal, vec![world.events.len() - 1]);
        let before = &world.events[..world.events.len() - 1];
        assert!(before.windows(2).all(|w| w[0].progress_percent <= w[1].progress_percent));
        assert!(world.events.iter().all(|e| e.progress_percent <= 100));
    }
}

#[test]
fn submit_empty_bytes_is_a_single_failed_event() {
    let mut world = World::new();
    let mut run = submit("", Vec::new(), "exam.pdf", "");
    let steps = world.drive(&mut run);
    assert_eq!(steps, 2);
    assert_eq!(world.shape(), vec![(State::Failed, 0)]);
    assert_eq!(world.events[0].message, "No file data received");
    assert_eq!(world.events[0].document_id, "doc-1");
    assert!(world.blobs.is_empty() && world.records.is_empty() && world.dirs.is_empty());
}

#[test]
fn submit_empty_filename_is_a_single_failed_event() {
    let mut world = World::new();
    let mut run = submit("", pdf_with_pages(&["A"]), "", "");
    world.drive(&mut run);
    assert_eq!(world.shape(), vec![(State::Failed, 0)]);
    assert_eq!(world.events[0].message, "Invalid filename");
    assert!(world.blobs.is_empty() && world.records.is_empty());
}

#[test]
fn submit_filename_with_separator_is_refused() {
    for filename in ["../etc/passwd", "a/b.pdf", "a\\b.pdf", "/"] {
        let mut world = World::new();
        let mut run = submit("", pdf_with_pages(&["A"]), filename, "");
        world.drive(&mut run);
        assert_eq!(world.shape(), vec![(State::Failed, 0)], "{}", filename);
        assert_eq!(world.events[0].message, "Invalid filename");
        assert!(world.blobs.is_empty() && world.records.is_empty());
    }
}

#[test]
fn directory_failure_stops_the_run_before_any_write() {
    let mut world = World::new();
    world.fail_dir = true;
    let mut run = submit("", pdf_with_pages(&["A"]), "a.pdf", "");
    world.drive(&mut run);
    assert_eq!(world.shape(), vec![(State::Failed, 0)]);
    assert_eq!(
        world.events[0].message,
        "Failed to create storage directory: permission denied"
    );
    assert!(world.blobs.is_empty() && world.records.is_empty());
}

#[test]
fn blob_write_failure_leaves_no_record() {
    let mut world = World::new();
    world.fail_blob_write = true;
    let mut run = submit("", pdf_with_pages(&["A"]), "a.pdf", "");
    world.drive(&mut run);
    assert_eq!(world.shape(), vec![(State::Failed, 0)]);
    assert_eq!(world.events[0].message, "Failed to save file: disk full");
    assert!(world.records.is_empty());
}

#[test]
fn insert_failure_leaves_the_blob_in_place() {
    let mut world = World::new();
    world.fail_insert = true;
    let mut run = submit("", pdf_with_pages(&["A"]), "a.pdf", "");
    world.drive(&mut run);
    assert_eq!(world.shape(), vec![(State::Failed, 0)]);
    assert_eq!(world.events[0].message, "Failed to create DB record: store unavailable");
    assert!(world.records.is_empty());
    assert!(world.blobs.contains_key("storage/uploads/doc-1_a.pdf"));
}

#[test]
fn status_update_failure_is_reported_as_failed() {
    let mut world = World::new();
    world.fail_update_of = Some("Processing".to_string());
    let mut run = submit("", pdf_with_pages(&["A"]), "a.pdf", "");
    world.drive(&mut run);
    assert_eq!(
        world.shape(),
        vec![(State::Queued, 10), (State::ProcessingText, 20), (State::Failed, 0)]
    );
    assert_eq!(
        world.events.last().unwrap().message,
        "Failed to update DB record: store unavailable"
    );
    assert_eq!(world.status_of("doc-1").as_deref(), Some("Uploaded"));
}

#[test]
fn final_update_failure_is_reported_instead_of_completed() {
    let mut world = World::new();
    world.fail_update_of = Some("Succeeded".to_string());
    let mut run = submit("", pdf_with_pages(&["A"]), "a.pdf", "");
    world.drive(&mut run);
    assert_eq!(world.events.last().unwrap().state, State::Failed);
    assert_eq!(
        world.events.last().unwrap().message,
        "Failed to update DB record: store unavailable"
    );
    assert!(!world.events.iter().any(|e| e.state == State::Completed));
}

#[test]
fn result_save_failure_is_reported_as_failed() {
    let mut world = World::new();
    world.fail_save_result = true;
    let mut run = submit("", pdf_with_pages(&["A"]), "a.pdf", "");
    world.drive(&mut run);
    assert_eq!(
        world.shape(),
        vec![
            (State::Queued, 10),
            (State::ProcessingText, 20),
            (State::ProcessingText, 40),
            (State::Saving, 80),
            (State::Failed, 0),
        ]
    );
    assert_eq!(
        world.events.last().unwrap().message,
        "Failed to save extraction results: store unavailable"
    );
}

#[test]
fn enrichment_failure_is_handled_like_a_parse_failure() {
    let mut world = World::new();
    world.fail_enrichment = true;
    let mut run = submit("secret", pdf_with_pages(&["A"]), "a.pdf", "");
    world.drive(&mut run);
    assert_eq!(
        world.shape(),
        vec![
            (State::Queued, 10),
            (State::ProcessingText, 20),
            (State::ProcessingText, 40),
            (State::Failed, 0),
        ]
    );
    assert_eq!(world.events.last().unwrap().message, "Enrichment failed: quota exceeded");
    assert_eq!(world.status_of("doc-1").as_deref(), Some("Failed"));
}

#[test]
fn enrichment_request_joins_instruction_prompt_and_text() {
    let mut world = World::new();
    let bytes = pdf_with_pages(&["Hello World!"]);
    let text = ingestion::pdf::extract_text_from_pdf(&bytes).unwrap();
    let mut run = submit("secret", bytes, "a.pdf", "extract MCQs");
    world.drive(&mut run);
    assert_eq!(world.requests.len(), 1);
    assert_eq!(world.requests[0].0, "secret");
    assert_eq!(
        world.requests[0].1,
        format!(
            "You are an expert Exam Parser. Extract questions, choices, and answers into JSON.\n\nUser Instruction: extract MCQs\n\nDocument Text:\n{}",
            text
        )
    );
    assert_eq!(world.results.get("doc-1").map(String::as_str), Some("{\"questions\":[]}"));
    assert_eq!(world.status_of("doc-1").as_deref(), Some("Succeeded"));
}

#[test]
fn without_a_key_the_client_answers_with_an_empty_result() {
    let mut world = World::new();
    let mut run = submit("", pdf_with_pages(&["A"]), "a.pdf", "extract MCQs");
    world.drive(&mut run);
    assert_eq!(world.requests.len(), 1);
    assert_eq!(world.requests[0].0, "");
    assert!(world.requests[0].1.contains("\n\nUser Instruction: extract MCQs\n\n"));
    assert_eq!(world.results.get("doc-1").map(String::as_str), Some(""));
    assert_eq!(world.events.last().unwrap().state, State::Completed);
    assert_eq!(world.status_of("doc-1").as_deref(), Some("Succeeded"));
}

#[test]
fn enrichment_is_asked_for_exactly_once_in_a_successful_run() {
    for key in ["", "secret"] {
        let mut world = World::new();
        let mut run = submit(key, pdf_with_pages(&["A", "B"]), "a.pdf", "p");
        world.drive(&mut run);
        assert_eq!(world.requests.len(), 1, "key {:?}", key);
        assert_eq!(world.requests[0].0, key);
        assert_eq!(world.events.last().unwrap().state, State::Completed);
    }
}

#[test]
fn enrichment_without_credential_answers_only_without_a_key() {
    match enrichment_without_credential("") {
        Some(Outcome::Enriched { content }) => assert_eq!(content, ""),
        other => panic!("{:?}", other),
    }
    assert!(enrichment_without_credential("secret").is_none());
    assert!(enrichment_without_credential(" ").is_none());
}

#[test]
fn updates_keep_identifier_file_name_and_creation_time() {
    for bytes in [pdf_with_pages(&["A"]), b"broken".to_vec()] {
        let mut world = World::new();
        stored(&mut world, "doc-7", "exam.pdf", "Uploaded", Some(bytes));
        let mut run = reprocess("", "doc-7", "");
        let mut outcome = Outcome::Done;
        let mut updates = 0;
        loop {
            let action = run.step(outcome);
            if let Action::Close = action {
                break;
            }
            if let Action::UpdateRecord { document_id, record } = &action {
                updates += 1;
                assert_eq!(document_id, "doc-7");
                assert_eq!(record.id, "doc-7");
                assert_eq!(record.filename, "exam.pdf");
                assert_eq!(record.created_at, "2024-04-30T08:00:00+00:00");
                assert!(["Processing", "Succeeded", "Failed"].contains(&record.status.as_str()));
            }
            outcome = world.perform(action);
        }
        assert_eq!(updates, 2);
    }
}

#[test]
fn a_run_ends_completed_and_succeeded_or_failed_and_failed() {
    let cases: [(Vec<u8>, bool, State, &str); 3] = [
        (pdf_with_pages(&["A"]), false, State::Completed, "Succeeded"),
        (b"broken".to_vec(), false, State::Failed, "Failed"),
        (pdf_with_pages(&["A"]), true, State::Failed, "Failed"),
    ];
    for (bytes, fail_enrichment, state, status) in cases {
        let mut world = World::new();
        world.fail_enrichment = fail_enrichment;
        let mut run = submit("secret", bytes, "a.pdf", "");
        world.drive(&mut run);
        assert_eq!(world.events.last().unwrap().state, state);
        assert_eq!(world.status_of("doc-1").as_deref(), Some(status));
        let record = world.records.get("doc-1").unwrap();
        assert_eq!(record.filename, "a.pdf");
        assert_eq!(record.created_at, "2024-05-01T10:00:00+00:00");
    }
}

#[test]
fn reprocess_unknown_id_yields_single_failed_event_and_writes_nothing() {
    let mut world = World::new();
    stored(&mut world, "other", "o.pdf", "Uploaded", None);
    let mut run = reprocess("", "missing", "");
    let steps = world.drive(&mut run);
    assert_eq!(steps, 3);
    assert_eq!(world.shape(), vec![(State::Failed, 0)]);
    assert_eq!(world.events[0].message, "Document not found");
    assert_eq!(world.events[0].document_id, "missing");
    assert!(world.writes.is_empty());
    assert_eq!(world.records.len(), 1);
    assert_eq!(world.status_of("other").as_deref(), Some("Uploaded"));
}

#[test]
fn reprocess_with_missing_blob_fails_before_any_status_write() {
    let mut world = World::new();
    stored(&mut world, "doc-9", "gone.pdf", "Uploaded", None);
    let mut run = reprocess("", "doc-9", "");
    world.drive(&mut run);
    assert_eq!(world.shape(), vec![(State::Failed, 0)]);
    assert_eq!(
        world.events[0].message,
        "File not found: No such file or directory (os error 2)"
    );
    assert!(world.writes.is_empty());
    assert_eq!(world.status_of("doc-9").as_deref(), Some("Uploaded"));
}

#[test]
fn round_trip_ends_succeeded_with_completed_event() {
    let mut world = World::new();
    stored(&mut world, "doc-7", "exam.pdf", "Uploaded", Some(pdf_with_pages(&["Q1", "Q2"])));
    let mut run = reprocess("", "doc-7", "");
    world.drive(&mut run);
    assert_eq!(
        world.shape(),
        vec![
            (State::ProcessingText, 20),
            (State::ProcessingText, 40),
            (State::Saving, 80),
            (State::Completed, 100),
        ]
    );
    let last = world.events.last().unwrap();
    assert_eq!(last.document_id, "doc-7");
    let record = world.records.get("doc-7").unwrap();
    assert_eq!(record.status, "Succeeded");
    assert_eq!(record.id, "doc-7");
    assert_eq!(record.filename, "exam.pdf");
    assert_eq!(record.created_at, "2024-04-30T08:00:00+00:00");
    assert_eq!(world.writes, vec!["Processing", "Succeeded"]);
    assert_eq!(world.records.len(), 1);
}

#[test]
fn reprocess_uses_the_prompt_override() {
    let mut world = World::new();
    stored(&mut world, "doc-7", "exam.pdf", "Succeeded", Some(pdf_with_pages(&["Q1"])));
    let mut run = reprocess("secret", "doc-7", "only essays");
    world.drive(&mut run);
    assert!(world.requests[0].1.contains("\n\nUser Instruction: only essays\n\nDocument Text:\n"));
    let mut world = World::new();
    stored(&mut world, "doc-7", "exam.pdf", "Succeeded", Some(pdf_with_pages(&["Q1"])));
    let mut run = reprocess("secret", "doc-7", "");
    world.drive(&mut run);
    assert!(world.requests[0].1.contains("\n\nUser Instruction: \n\nDocument Text:\n"));
}

#[test]
fn reprocess_of_a_failed_document_can_succeed_later() {
    let mut world = World::new();
    let mut run = submit("", b"broken".to_vec(), "exam.pdf", "");
    world.drive(&mut run);
    assert_eq!(world.status_of("doc-1").as_deref(), Some("Failed"));
    world.blobs.insert("storage/uploads/doc-1_exam.pdf".to_string(), pdf_with_pages(&["A"]));
    world.events.clear();
    let mut again = reprocess("", "doc-1", "");
    world.drive(&mut again);
    assert_eq!(world.status_of("doc-1").as_deref(), Some("Succeeded"));
    assert_eq!(world.events.last().unwrap().state, State::Completed);
}

#[test]
fn a_consumer_that_leaves_stops_the_run() {
    let mut world = World::new();
    world.connected_for = 1;
    let mut run = submit("secret", pdf_with_pages(&["A"]), "a.pdf", "");
    world.drive(&mut run);
    assert_eq!(world.shape(), vec![(State::Queued, 10)]);
    assert!(run.is_closed());
    assert_eq!(world.writes, vec!["Uploaded"]);
    assert!(world.requests.is_empty());
}

#[test]
fn a_parse_failure_is_recorded_even_if_the_consumer_has_left() {
    let mut world = World::new();
    world.connected_for = 2;
    let mut run = submit("", b"broken".to_vec(), "a.pdf", "");
    world.drive(&mut run);
    assert_eq!(world.shape(), vec![(State::Queued, 10), (State::ProcessingText, 20)]);
    assert_eq!(world.status_of("doc-1").as_deref(), Some("Failed"));
}

#[test]
fn a_closed_run_stays_closed() {
    let mut world = World::new();
    let mut run = reprocess("", "missing", "");
    world.drive(&mut run);
    assert_eq!(run.phase(), Phase::Closed);
    for outcome in [
        Outcome::Done,
        Outcome::Disconnected,
        Outcome::Record { record: None },
        Outcome::Text { text: "t".to_string() },
    ] {
        assert!(matches!(run.step(outcome), Action::Close));
        assert!(run.is_closed());
    }
}

#[test]
fn an_unexpected_outcome_is_reported_as_a_failure() {
    let mut run = submit("", pdf_with_pages(&["A"]), "a.pdf", "");
    assert!(matches!(run.step(Outcome::Done), Action::CreateUploadDir { .. }));
    match run.step(Outcome::Blob { bytes: vec![1] }) {
        Action::Emit { event } => {
            assert_eq!(event.state, State::Failed);
            assert_eq!(event.message, "Failed to create storage directory: unexpected outcome");
            assert_eq!(event.progress_percent, 0);
        }
        other => panic!("{:?}", other),
    }
}

#[test]
fn transition_asks_for_the_text_and_takes_it_as_an_outcome() {
    let mut world = World::new();
    let mut run = submit("", b"whatever".to_vec(), "a.pdf", "");
    let mut outcome = Outcome::Done;
    loop {
        let action = run.transition(outcome);
        if let Action::ExtractText = action {
            break;
        }
        outcome = world.perform(action);
    }
    assert_eq!(run.phase(), Phase::AwaitText);
    assert_eq!(run.file_data(), &b"whatever".to_vec());
    match run.transition(Outcome::Text { text: "page one\n".to_string() }) {
        Action::Emit { event } => {
            assert_eq!((event.state, event.progress_percent), (State::ProcessingText, 40));
        }
        other => panic!("{:?}", other),
    }
    assert_eq!(run.phase(), Phase::AwaitEnrichingSent);
}

#[test]
fn upload_pdf_gives_each_document_a_fresh_identifier() {
    let service = IngestionServiceImpl::new(String::new());
    let first = service.upload_pdf(vec![1], "a.pdf".to_string(), String::new());
    let second = service.upload_pdf(vec![1], "a.pdf".to_string(), String::new());
    let id = first.document_id();
    assert_ne!(id, second.document_id());
    assert_eq!(id.len(), 36);
    for (i, c) in id.chars().enumerate() {
        if [8, 13, 18, 23].contains(&i) {
            assert_eq!(c, '-');
        } else {
            assert!(c.is_ascii_digit() || ('a'..='f').contains(&c), "{}", id);
        }
    }
    assert_eq!(first.phase(), Phase::SubmitStart);
}

#[test]
fn upload_pdf_stamps_the_record_with_the_current_time() {
    let service = IngestionServiceImpl::new(String::new());
    let before = chrono::Utc::now();
    let mut run = service.upload_pdf(pdf_with_pages(&["A"]), "a.pdf".to_string(), String::new());
    let mut world = World::new();
    world.drive(&mut run);
    let id = run.document_id();
    let record = world.records.get(&id).unwrap();
    assert!(record.created_at.chars().count() >= 25);
    let stamp = chrono::DateTime::parse_from_rfc3339(&record.created_at).unwrap();
    assert!(stamp >= before - chrono::Duration::seconds(1));
    assert!(stamp <= chrono::Utc::now() + chrono::Duration::seconds(1));
    assert!(world.blobs.contains_key(&format!("storage/uploads/{}_a.pdf", id)));
    assert_eq!(record.status, "Succeeded");
}

#[test]
fn process_document_starts_a_reprocessing_of_the_given_document() {
    let service = IngestionServiceImpl::new("secret".to_string());
    let mut run = service.process_document("doc-3".to_string(), "again".to_string());
    assert_eq!(run.phase(), Phase::ReprocessStart);
    assert_eq!(run.document_id(), "doc-3");
    match run.step(Outcome::Done) {
        Action::FetchRecord { document_id } => assert_eq!(document_id, "doc-3"),
        other => panic!("{:?}", other),
    }
}
