//! The persistent record of an ingested file, and where its bytes are kept.

use vstd::prelude::*;
use vstd::string::*;

verus! {

/// The status values that the pipeline writes into a document record.
#[derive(Clone, Copy, Debug, PartialEq, Eq, Structural)]
pub enum DocumentStatus {
    Uploaded,
    Processing,
    Failed,
    Succeeded,
}

impl DocumentStatus {
    /// The text under which the status is stored.
    pub open spec fn label(self) -> Seq<char> {
        match self {
            DocumentStatus::Uploaded => "Uploaded"@,
            DocumentStatus::Processing => "Processing"@,
            DocumentStatus::Failed => "Failed"@,
            DocumentStatus::Succeeded => "Succeeded"@,
        }
    }

    pub fn as_string(&self) -> (text: String)
        ensures
            text@ == self.label(),
    {
        match self {
            DocumentStatus::Uploaded => String::from_str("Uploaded"),
            DocumentStatus::Processing => String::from_str("Processing"),
            DocumentStatus::Failed => String::from_str("Failed"),
            DocumentStatus::Succeeded => String::from_str("Succeeded"),
        }
    }
}

/// Mathematical content of a [`DocumentRecord`].
pub struct RecordView {
    pub id: Seq<char>,
    pub filename: Seq<char>,
    pub status: Seq<char>,
    pub created_at: Seq<char>,
}

impl RecordView {
    /// The same record with another status; every other field is kept.
    pub open spec fn with_status(self, status: DocumentStatus) -> RecordView {
        RecordView { status: status.label(), ..self }
    }
}

/// The record of an ingested file, always written as a whole.
#[derive(Debug)]
pub struct DocumentRecord {
    pub id: String,
    pub filename: String,
    pub status: String,
    pub created_at: String,
}

impl View for DocumentRecord {
    type V = RecordView;

    open spec fn view(&self) -> RecordView {
        RecordView {
            id: self.id@,
            filename: self.filename@,
            status: self.status@,
            created_at: self.created_at@,
        }
    }
}

impl Clone for DocumentRecord {
    fn clone(&self) -> (r: Self)
        ensures
            r@ == self@,
    {
        DocumentRecord {
            id: self.id.clone(),
            filename: self.filename.clone(),
            status: self.status.clone(),
            created_at: self.created_at.clone(),
        }
    }
}

impl DocumentRecord {
    /// The record of a file that has just been accepted.
    pub fn uploaded(id: String, filename: String, created_at: String) -> (record: DocumentRecord)
        ensures
            record@ == (RecordView {
                id: id@,
                filename: filename@,
                status: DocumentStatus::Uploaded.label(),
                created_at: created_at@,
            }),
    {
        DocumentRecord { id, filename, status: DocumentStatus::Uploaded.as_string(), created_at }
    }

    /// Replaces the status and keeps the rest of the record.
    pub fn set_status(&mut self, status: DocumentStatus)
        ensures
            final(self)@ == old(self)@.with_status(status),
    {
        self.status = status.as_string();
    }
}

/// A name can stand as one component of a blob path: it is not empty and
/// holds no path separator.
pub open spec fn path_component(name: Seq<char>) -> bool {
    &&& name.len() > 0
    &&& forall|i: int| 0 <= i < name.len() ==> name[i] != '/' && name[i] != '\\'
}

/// Tells whether a client-supplied file name can be used in a blob path.
pub fn is_path_component(name: &str) -> (ok: bool)
    ensures
        ok == path_component(name@),
{
    let mut empty = true;
    for c in it: name.chars()
        invariant
            it.seq() == name@,
            empty == (it.index() == 0),
            forall|j: int| 0 <= j < it.index() ==> name@[j] != '/' && name@[j] != '\\',
    {
        if c == '/' || c == '\\' {
            return false;
        }
        empty = false;
    }
    !empty
}

/// Where the bytes of a document are kept: `<root>/<id>_<filename>`.
pub open spec fn blob_path_of(root: Seq<char>, id: Seq<char>, filename: Seq<char>) -> Seq<char> {
    root + "/"@ + id + "_"@ + filename
}

/// The blob of a document lies directly under the root: where neither the
/// identifier nor the file name holds a path separator, what follows the
/// root and its separator in the blob path is a single path component.
pub proof fn lemma_blob_path_is_under_root(root: Seq<char>, id: Seq<char>, filename: Seq<char>)
    requires
        path_component(id),
        path_component(filename),
    ensures
        path_component(id + "_"@ + filename),
        blob_path_of(root, id, filename) == root + "/"@ + (id + "_"@ + filename),
{
    reveal_strlit("_");
    let name = id + "_"@ + filename;
    assert forall|i: int| 0 <= i < name.len() implies name[i] != '/' && name[i] != '\\' by {
        if i < id.len() {
            assert(name[i] == id[i]);
        } else if i == id.len() {
            assert(name[i] == '_');
        } else {
            assert(name[i] == filename[i - id.len() - 1]);
        }
    }
    assert(blob_path_of(root, id, filename) =~= root + "/"@ + name);
}

/// Derives the blob path of a document from its identifier and file name.
pub fn blob_path(root: &str, id: &str, filename: &str) -> (path: String)
    ensures
        path@ == blob_path_of(root@, id@, filename@),
{
    let mut path = String::from_str(root);
    path.append("/");
    path.append(id);
    path.append("_");
    path.append(filename);
    path
}

} // verus!
