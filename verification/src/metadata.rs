//! The normalized metadata record, the per-file error taxonomy, format
//! dispatch by extension, and the extraction decision over what a document
//! container yielded.

use vstd::prelude::*;

use crate::paths::spec_extension;
use crate::text::{eq_ignore_ascii_case, lower_seq};

verus! {

/// Everything that can go wrong with one input file.
#[derive(Clone, Copy, Debug, PartialEq, Eq, Structural)]
pub enum FileError {
    /// The path has no extension, so neither the format nor the name to keep
    /// on a rename can be determined.
    NoExtension,
    /// The extension is not one of the supported formats.
    UnknownExtension,
    /// The document container could not be opened or parsed as its format.
    OpenFailed,
    /// The document opened, but carries no info dictionary at all.
    MissingMetadata,
    /// The filesystem rejected the rename itself.
    RenameFailed,
}

impl FileError {
    /// A short description of the error, for reporting.
    pub fn describe(&self) -> (r: String)
        ensures
            *self is NoExtension ==> r@ == "no extension"@,
            *self is UnknownExtension ==> r@ == "unknown extension"@,
            *self is OpenFailed ==> r@ == "could not open the document"@,
            *self is MissingMetadata ==> r@ == "missing metadata"@,
            *self is RenameFailed ==> r@ == "rename failed"@,
    {
        match self {
            FileError::NoExtension => "no extension".to_owned(),
            FileError::UnknownExtension => "unknown extension".to_owned(),
            FileError::OpenFailed => "could not open the document".to_owned(),
            FileError::MissingMetadata => "missing metadata".to_owned(),
            FileError::RenameFailed => "rename failed".to_owned(),
        }
    }
}

/// The two supported document formats.
#[derive(Clone, Copy, Debug, PartialEq, Eq, Structural)]
pub enum DocFormat {
    Epub,
    Pdf,
}

/// The normalized metadata record: either field may independently be absent.
pub struct FileMetadata {
    pub author: Option<String>,
    pub title: Option<String>,
}

impl FileMetadata {
    /// The author field as a character sequence, when present.
    pub open spec fn author_seq(&self) -> Option<Seq<char>> {
        match self.author {
            Some(ref a) => Some(a@),
            None => None,
        }
    }

    /// The title field as a character sequence, when present.
    pub open spec fn title_seq(&self) -> Option<Seq<char>> {
        match self.title {
            Some(ref t) => Some(t@),
            None => None,
        }
    }
}

/// A metadata text field as a document container yields it: absent, present
/// but not decodable as text, or decoded.
pub enum RawText {
    Absent,
    Undecodable,
    Text(String),
}

impl RawText {
    /// Absent and undecodable fields both normalize to `None`.
    pub open spec fn decoded(&self) -> Option<Seq<char>> {
        match self {
            RawText::Text(s) => Some(s@),
            _ => None,
        }
    }
}

/// A PDF info dictionary, reduced to the two fields this library reads.
pub struct PdfInfo {
    pub author: RawText,
    pub title: RawText,
}

/// What opening a document container yielded, reduced to plain values.
pub enum DocContents {
    /// The container could not be opened or parsed.
    OpenError,
    /// An EPUB package: its `creator` and `title` metadata fields, either of
    /// which may be missing.
    Epub { author: Option<String>, title: Option<String> },
    /// A PDF object graph: its trailer's info dictionary, when there is one.
    Pdf { info: Option<PdfInfo> },
}

/// The format a path's extension selects, or the error when it selects none.
pub open spec fn spec_classify(p: Seq<char>) -> Result<DocFormat, FileError> {
    match spec_extension(p) {
        None => Err(FileError::NoExtension),
        Some(e) => if lower_seq(e) == seq!['e', 'p', 'u', 'b'] {
            Ok(DocFormat::Epub)
        } else if lower_seq(e) == seq!['p', 'd', 'f'] {
            Ok(DocFormat::Pdf)
        } else {
            Err(FileError::UnknownExtension)
        },
    }
}

/// Dispatch on the path's extension, case-insensitively: no extension and
/// unrecognized extensions are errors, `epub` and `pdf` select their formats.
pub fn classify(path: &str) -> (r: Result<DocFormat, FileError>)
    ensures
        r == spec_classify(path@),
{
    let ext = crate::paths::extension_of(path);
    match ext {
        None => Err(FileError::NoExtension),
        Some(e) => {
            proof {
                reveal_strlit("epub");
                reveal_strlit("pdf");
                assert("epub"@ =~= seq!['e', 'p', 'u', 'b']);
                assert("pdf"@ =~= seq!['p', 'd', 'f']);
                assert(lower_seq(seq!['e', 'p', 'u', 'b']) =~= seq!['e', 'p', 'u', 'b']);
                assert(lower_seq(seq!['p', 'd', 'f']) =~= seq!['p', 'd', 'f']);
            }
            if eq_ignore_ascii_case(e.as_str(), "epub") {
                Ok(DocFormat::Epub)
            } else if eq_ignore_ascii_case(e.as_str(), "pdf") {
                Ok(DocFormat::Pdf)
            } else {
                Err(FileError::UnknownExtension)
            }
        },
    }
}

/// A path without an extension never classifies: it always fails with
/// `NoExtension`, so no document is opened and nothing is renamed for it.
pub proof fn lemma_no_extension_fails(p: Seq<char>)
    requires
        spec_extension(p) is None,
    ensures
        spec_classify(p) == Err::<DocFormat, FileError>(FileError::NoExtension),
{
}

/// A path whose extension is neither `epub` nor `pdf` (ignoring ASCII case)
/// always fails with `UnknownExtension`, so nothing is renamed for it.
pub proof fn lemma_unknown_extension_fails(p: Seq<char>)
    requires
        spec_extension(p) matches Some(e) && lower_seq(e) != seq!['e', 'p', 'u', 'b']
            && lower_seq(e) != seq!['p', 'd', 'f'],
    ensures
        spec_classify(p) == Err::<DocFormat, FileError>(FileError::UnknownExtension),
{
}

/// Normalize what a document container yielded into the metadata record.
///
/// A container that failed to open is `OpenFailed`. An EPUB always yields a
/// record; missing fields stay absent. A PDF without an info dictionary is
/// `MissingMetadata`; with one, each field decodes independently and an
/// undecodable field is treated as absent.
pub fn extract_contents(doc: DocContents) -> (r: Result<FileMetadata, FileError>)
    ensures
        doc is OpenError ==> r == Err::<FileMetadata, FileError>(FileError::OpenFailed),
        (doc matches DocContents::Epub { author, title } ==> (r matches Ok(m)
            && m.author_seq() == (match author {
                Some(a) => Some(a@),
                None => None::<Seq<char>>,
            })
            && m.title_seq() == (match title {
                Some(t) => Some(t@),
                None => None::<Seq<char>>,
            }))),
        (doc matches DocContents::Pdf { info: None } ==> r == Err::<FileMetadata, FileError>(
            FileError::MissingMetadata,
        )),
        (doc matches DocContents::Pdf { info: Some(i) } ==> (r matches Ok(m)
            && m.author_seq() == i.author.decoded() && m.title_seq() == i.title.decoded())),
{
    match doc {
        DocContents::OpenError => Err(FileError::OpenFailed),
        DocContents::Epub { author, title } => Ok(FileMetadata { author, title }),
        DocContents::Pdf { info: None } => Err(FileError::MissingMetadata),
        DocContents::Pdf { info: Some(i) } => Ok(
            FileMetadata { author: decode_field(i.author), title: decode_field(i.title) },
        ),
    }
}

/// A present, decodable field keeps its text; anything else is absent.
fn decode_field(f: RawText) -> (r: Option<String>)
    ensures
        (match r {
            Some(ref s) => Some(s@),
            None => None::<Seq<char>>,
        }) == f.decoded(),
{
    match f {
        RawText::Text(s) => Some(s),
        _ => None,
    }
}

} // verus!
