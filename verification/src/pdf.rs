//! Text extraction: raw PDF bytes to the text of all pages.
//!
//! Parsing and decoding are the work of the `lopdf` crate. What it reads
//! out of a parsed document is named by the uninterpreted functions below;
//! the sequencing over the pages, the joining of their text and the
//! reporting of the first failure are verified here. Of the parsing itself
//! nothing is claimed: the parser may work on several threads, and for a
//! damaged file the document that it builds can depend on their schedule.

use vstd::prelude::*;
use vstd::string::*;

verus! {

/// The parsed document of `lopdf`, carried through as an opaque value.
#[verifier::external_type_specification]
#[verifier::external_body]
pub struct ExPdfDocument(lopdf::Document);

/// The error type of `lopdf`, carried through as an opaque value.
#[verifier::external_type_specification]
#[verifier::external_body]
pub struct ExPdfError(lopdf::Error);

/// The page numbers of a parsed document, in ascending order: the keys of
/// `lopdf::Document::get_pages`.
pub uninterp spec fn pdf_page_numbers(doc: lopdf::Document) -> Seq<u32>;

/// How the pages of a document are numbered: in strictly ascending order,
/// and from 1 on without a gap as long as their count fits the number type.
pub open spec fn page_numbering(pages: Seq<u32>) -> bool {
    &&& forall|i: int, j: int| 0 <= i < j < pages.len() ==> pages[i] < pages[j]
    &&& pages.len() <= u32::MAX ==> forall|i: int| 0 <= i < pages.len() ==> pages[i] == i + 1
}

/// What `lopdf::Document::extract_text` makes of one page of a document.
pub uninterp spec fn pdf_page_text(doc: lopdf::Document, page: u32) -> Result<
    Seq<char>,
    lopdf::Error,
>;

/// The `Display` text of an error of `lopdf`.
pub uninterp spec fn pdf_error_text(err: lopdf::Error) -> Seq<char>;

/// Calls `lopdf::Document::load_mem`. Nothing is claimed of the outcome:
/// two loads of the same bytes need not agree.
#[verifier::external_body]
fn load_document(data: &[u8]) -> Result<lopdf::Document, lopdf::Error> {
    lopdf::Document::load_mem(data)
}

/// Calls `lopdf::Document::get_pages` and hands out the keys of the map it
/// returns, in the map's own order. Trusted: these are the page numbers
/// that `pdf_page_numbers` names; the map is ordered by its keys, and
/// `get_pages` numbers the pages 1, 2, 3 and so on in 32 bits.
#[verifier::external_body]
fn page_numbers(doc: &lopdf::Document) -> (pages: Vec<u32>)
    ensures
        pages@ == pdf_page_numbers(*doc),
        page_numbering(pages@),
{
    doc.get_pages().into_keys().collect()
}

/// Calls `lopdf::Document::extract_text` for a single page. Trusted: the
/// outcome depends on the document and the page number alone, so it is the
/// one that `pdf_page_text` names.
#[verifier::external_body]
fn page_text(doc: &lopdf::Document, page: u32) -> (res: Result<String, lopdf::Error>)
    ensures
        match res {
            Ok(text) => pdf_page_text(*doc, page) == Ok::<Seq<char>, lopdf::Error>(text@),
            Err(err) => pdf_page_text(*doc, page) == Err::<Seq<char>, lopdf::Error>(err),
        },
{
    doc.extract_text(&[page])
}

/// Formats an error of `lopdf` through its `Display` impl. Trusted: the text
/// is the one that `pdf_error_text` names.
#[verifier::external_body]
fn error_text(err: &lopdf::Error) -> (text: String)
    ensures
        text@ == pdf_error_text(*err),
{
    err.to_string()
}

/// Mathematical content of an [`ExtractError`].
pub enum ExtractErrorView {
    Load { message: Seq<char> },
    Page { page: u32, message: Seq<char> },
}

impl ExtractErrorView {
    pub open spec fn message(self) -> Seq<char> {
        match self {
            ExtractErrorView::Load { message } => message,
            ExtractErrorView::Page { message, .. } => message,
        }
    }
}

/// Why no text could be extracted from a PDF.
#[derive(Debug)]
pub enum ExtractError {
    /// The bytes are not a PDF document that can be parsed.
    Load { message: String },
    /// The document was parsed, but the text of one page could not be read.
    Page { page: u32, message: String },
}

impl View for ExtractError {
    type V = ExtractErrorView;

    open spec fn view(&self) -> ExtractErrorView {
        match self {
            ExtractError::Load { message } => ExtractErrorView::Load { message: message@ },
            ExtractError::Page { page, message } => ExtractErrorView::Page {
                page: *page,
                message: message@,
            },
        }
    }
}

impl ExtractError {
    /// The parser's own description of the failure.
    pub fn message(&self) -> (text: String)
        ensures
            text@ == self@.message(),
    {
        match self {
            ExtractError::Load { message } => message.clone(),
            ExtractError::Page { message, .. } => message.clone(),
        }
    }
}

/// The text of the given pages of a document, each page followed by a line
/// feed; or the failure of the first page whose text cannot be read.
pub open spec fn pages_text(doc: lopdf::Document, pages: Seq<u32>) -> Result<
    Seq<char>,
    ExtractErrorView,
>
    decreases pages.len(),
{
    if pages.len() == 0 {
        Ok(Seq::<char>::empty())
    } else {
        match pages_text(doc, pages.drop_last()) {
            Err(e) => Err(e),
            Ok(prefix) => match pdf_page_text(doc, pages.last()) {
                Err(e) => Err(
                    ExtractErrorView::Page { page: pages.last(), message: pdf_error_text(e) },
                ),
                Ok(text) => Ok(prefix + text + seq!['\n']),
            },
        }
    }
}

/// What text extraction yields once the bytes have been parsed: the text
/// of all pages of the document in ascending page order, or the first
/// failure; where the bytes could not be parsed, the parser's message.
pub open spec fn extraction_of(loaded: Result<lopdf::Document, lopdf::Error>) -> Result<
    Seq<char>,
    ExtractErrorView,
> {
    match loaded {
        Err(e) => Err(ExtractErrorView::Load { message: pdf_error_text(e) }),
        Ok(doc) => pages_text(doc, pdf_page_numbers(doc)),
    }
}

/// The result is what text extraction yields for some outcome of parsing.
pub open spec fn possible_extraction(res: Result<Seq<char>, ExtractErrorView>) -> bool {
    exists|loaded: Result<lopdf::Document, lopdf::Error>| res == #[trigger] extraction_of(loaded)
}

/// Mathematical content of an extraction result.
pub open spec fn extraction_view(res: Result<String, ExtractError>) -> Result<
    Seq<char>,
    ExtractErrorView,
> {
    match res {
        Ok(text) => Ok(text@),
        Err(e) => Err(e@),
    }
}

/// Appends the text of one page, followed by a line feed.
pub fn append_page(text: &mut String, content: &str)
    ensures
        final(text)@ == old(text)@ + content@ + seq!['\n'],
{
    text.append(content);
    proof {
        reveal_strlit("\n");
    }
    text.append("\n");
    assert("\n"@ =~= seq!['\n']);
}

/// Extracts the text of every page of a parsed document.
///
/// Succeeds exactly when the text of every page can be read; the result is
/// then the pages' text in page order, a line feed after each page.
/// Otherwise the error tells which page was the first to fail, with the
/// parser's message.
pub fn text_of_document(doc: &lopdf::Document) -> (res: Result<String, ExtractError>)
    ensures
        extraction_view(res) == pages_text(*doc, pdf_page_numbers(*doc)),
{
    let pages = page_numbers(doc);
    let mut text = String::new();
    let mut i: usize = 0;
    while i < pages.len()
        invariant
            i <= pages.len(),
            pages@ == pdf_page_numbers(*doc),
            pages_text(*doc, pages@.take(i as int)) == Ok::<Seq<char>, ExtractErrorView>(text@),
        decreases pages.len() - i,
    {
        let page = pages[i];
        proof {
            assert(pages@.take(i + 1).drop_last() =~= pages@.take(i as int));
            assert(pages@.take(i + 1).last() == page);
        }
        match page_text(doc, page) {
            Ok(content) => {
                append_page(&mut text, content.as_str());
            },
            Err(e) => {
                let message = error_text(&e);
                proof {
                    lemma_pages_text_failure(*doc, pages@, i + 1);
                }
                return Err(ExtractError::Page { page, message });
            },
        }
        i += 1;
    }
    proof {
        assert(pages@.take(i as int) =~= pages@);
    }
    Ok(text)
}

/// Turns the outcome of parsing into the result of text extraction: the
/// text of the document, or the failure to parse with the parser's
/// message.
pub fn text_of_loaded(loaded: Result<lopdf::Document, lopdf::Error>) -> (res: Result<
    String,
    ExtractError,
>)
    ensures
        extraction_view(res) == extraction_of(loaded),
{
    match loaded {
        Ok(doc) => text_of_document(&doc),
        Err(e) => Err(ExtractError::Load { message: error_text(&e) }),
    }
}

/// Extracts the text of every page of a PDF held in memory.
///
/// The bytes are parsed, and the outcome of parsing is turned into the
/// result as `text_of_loaded` says. What the parser makes of the bytes is
/// not stated.
pub fn extract_text_from_pdf(data: &[u8]) -> (res: Result<String, ExtractError>)
    ensures
        possible_extraction(extraction_view(res)),
{
    let loaded = load_document(data);
    let ghost parsed = loaded;
    let res = text_of_loaded(loaded);
    assert(extraction_view(res) == extraction_of(parsed));
    res
}

/// Once a prefix of the pages has failed, every longer prefix fails alike.
proof fn lemma_pages_text_failure(doc: lopdf::Document, pages: Seq<u32>, n: int)
    requires
        0 <= n <= pages.len(),
        pages_text(doc, pages.take(n)) is Err,
    ensures
        pages_text(doc, pages) == pages_text(doc, pages.take(n)),
    decreases pages.len() - n,
{
    if n == pages.len() {
        assert(pages.take(n) =~= pages);
    } else {
        assert(pages.take(n + 1).drop_last() =~= pages.take(n));
        lemma_pages_text_failure(doc, pages, n + 1);
    }
}

} // verus!
