//! Text extraction against the PDF parser itself.

use ingestion::pdf::{
    append_page, extract_text_from_pdf, text_of_document, text_of_loaded, ExtractError,
};
use lopdf::content::{Content, Operation};
use lopdf::{Dictionary, Object, Stream};

fn name(text: &str) -> Object {
    Object::Name(text.as_bytes().to_vec())
}

/// A PDF with one page for each entry; `None` makes a page whose font
/// resources cannot be resolved.
fn pdf_with_pages(texts: &[Option<&str>]) -> Vec<u8> {
    let mut doc = lopdf::Document::with_version("1.5");
    let pages_id = doc.new_object_id();
    let mut font = Dictionary::new();
    font.set("Type", name("Font"));
    font.set("Subtype", name("Type1"));
    font.set("BaseFont", name("Courier"));
    let font_id = doc.add_object(font);
    let mut fonts = Dictionary::new();
    fonts.set("F1", Object::Reference(font_id));
    let mut resources = Dictionary::new();
    resources.set("Font", Object::Dictionary(fonts));
    let resources_id = doc.add_object(resources);
    let mut kids = Vec::new();
    for text in texts {
        let mut page = Dictionary::new();
        page.set("Type", name("Page"));
        page.set("Parent", Object::Reference(pages_id));
        match text {
            Some(text) => {
                let content = Content {
                    operations: vec![
                        Operation::new("BT", vec![]),
                        Operation::new("Tf", vec![name("F1"), Object::Integer(48)]),
                        Operation::new("Td", vec![Object::Integer(100), Object::Integer(600)]),
                        Operation::new("Tj", vec![Object::string_literal(*text)]),
                        Operation::new("ET", vec![]),
                    ],
                };
                let content_id =
                    doc.add_object(Stream::new(Dictionary::new(), content.encode().unwrap()));
                page.set("Contents", Object::Reference(content_id));
            }
            None => {
                page.set("Contents", Object::Reference((9999, 0)));
                page.set("Resources", Object::Reference((9998, 0)));
            }
        }
        kids.push(Object::Reference(doc.add_object(page)));
    }
    let mut pages = Dictionary::new();
    pages.set("Type", name("Pages"));
    pages.set("Count", Object::Integer(kids.len() as i64));
    pages.set("Kids", Object::Array(kids));
    pages.set("Resources", Object::Reference(resources_id));
    doc.objects.insert(pages_id, Object::Dictionary(pages));
    let mut catalog = Dictionary::new();
    catalog.set("Type", name("Catalog"));
    catalog.set("Pages", Object::Reference(pages_id));
    let catalog_id = doc.add_object(catalog);
    doc.trailer.set("Root", Object::Reference(catalog_id));
    let mut bytes = Vec::new();
    doc.save_to(&mut bytes).unwrap();
    bytes
}

#[test]
fn append_page_adds_the_text_and_a_line_feed() {
    let mut text = String::from("one\n");
    append_page(&mut text, "two");
    assert_eq!(text, "one\ntwo\n");
    append_page(&mut text, "");
    assert_eq!(text, "one\ntwo\n\n");
}

#[test]
fn text_of_a_single_page() {
    let bytes = pdf_with_pages(&[Some("Hello World!")]);
    let text = extract_text_from_pdf(&bytes).unwrap();
    let doc = lopdf::Document::load_mem(&bytes).unwrap();
    assert_eq!(text, format!("{}\n", doc.extract_text(&[1]).unwrap()));
    assert!(text.contains("Hello World!"), "{:?}", text);
    assert!(text.ends_with('\n'));
}

#[test]
fn text_of_all_pages_in_page_order() {
    let bytes = pdf_with_pages(&[Some("first page"), Some("second page"), Some("third page")]);
    let text = extract_text_from_pdf(&bytes).unwrap();
    let doc = lopdf::Document::load_mem(&bytes).unwrap();
    let mut expected = String::new();
    for page in [1, 2, 3] {
        expected.push_str(&doc.extract_text(&[page]).unwrap());
        expected.push('\n');
    }
    assert_eq!(text, expected);
    let first = text.find("first page").unwrap();
    let second = text.find("second page").unwrap();
    let third = text.find("third page").unwrap();
    assert!(first < second && second < third);
}

#[test]
fn a_document_without_pages_has_empty_text() {
    let bytes = pdf_with_pages(&[]);
    assert_eq!(extract_text_from_pdf(&bytes).unwrap(), "");
}

#[test]
fn bytes_that_are_no_pdf_fail_to_load() {
    for bytes in [&b"this is not a pdf"[..], &b""[..], &b"%PDF-1.5\n"[..]] {
        let cause = lopdf::Document::load_mem(bytes).unwrap_err().to_string();
        match extract_text_from_pdf(bytes) {
            Err(ExtractError::Load { message }) => assert_eq!(message, cause),
            other => panic!("{:?}", other),
        }
    }
}

#[test]
fn the_message_of_an_error_is_the_parser_text() {
    let error = extract_text_from_pdf(b"nonsense").unwrap_err();
    let cause = lopdf::Document::load_mem(b"nonsense").unwrap_err().to_string();
    assert_eq!(error.message(), cause);
    assert!(!error.message().is_empty());
}

#[test]
fn the_first_unreadable_page_is_reported() {
    let bytes = pdf_with_pages(&[Some("fine"), None, Some("never reached")]);
    let doc = lopdf::Document::load_mem(&bytes).unwrap();
    assert!(doc.extract_text(&[1]).is_ok());
    match doc.extract_text(&[2]) {
        Err(cause) => match extract_text_from_pdf(&bytes) {
            Err(ExtractError::Page { page, message }) => {
                assert_eq!(page, 2);
                assert_eq!(message, cause.to_string());
            }
            other => panic!("{:?}", other),
        },
        Ok(second) => {
            let text = extract_text_from_pdf(&bytes).unwrap();
            assert!(text.starts_with(&format!("{}\n{}\n", doc.extract_text(&[1]).unwrap(), second)));
        }
    }
}

#[test]
fn text_of_a_parsed_document() {
    let bytes = pdf_with_pages(&[Some("alpha"), Some("beta")]);
    let doc = lopdf::Document::load_mem(&bytes).unwrap();
    let expected = format!(
        "{}\n{}\n",
        doc.extract_text(&[1]).unwrap(),
        doc.extract_text(&[2]).unwrap()
    );
    assert_eq!(text_of_document(&doc).unwrap(), expected);
    assert_eq!(text_of_document(&lopdf::Document::with_version("1.5")).unwrap(), "");
}

#[test]
fn text_of_what_parsing_came_to() {
    let bytes = pdf_with_pages(&[Some("alpha")]);
    let text = text_of_loaded(lopdf::Document::load_mem(&bytes)).unwrap();
    assert!(text.contains("alpha"));
    assert_eq!(text, extract_text_from_pdf(&bytes).unwrap());
    let failed = lopdf::Document::load_mem(b"nothing");
    let cause = lopdf::Document::load_mem(b"nothing").unwrap_err().to_string();
    match text_of_loaded(failed) {
        Err(ExtractError::Load { message }) => assert_eq!(message, cause),
        other => panic!("{:?}", other),
    }
}

#[test]
fn pages_are_numbered_from_one() {
    let bytes = pdf_with_pages(&[Some("a"), Some("b"), Some("c")]);
    let doc = lopdf::Document::load_mem(&bytes).unwrap();
    let numbers: Vec<u32> = doc.get_pages().into_keys().collect();
    assert_eq!(numbers, vec![1, 2, 3]);
}
