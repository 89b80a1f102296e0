//! Reading a book's title and author out of a PDF document.
//!
//! The bytes of the document are parsed by the `pdf` crate, and what the
//! parser found is handed to this module as a `ParsedPdf`; the library decides
//! from it what the record holds, decoding the entries' text with the same
//! crate.

use crate::book::{BookInfo, BookInfoView};
use pdf::primitive::PdfString;
use vstd::prelude::*;

verus! {

/// The stem (file name without its extension) that `Path::file_stem` gives
/// for a path, if any.
pub uninterp spec fn file_stem_of(path: Seq<char>) -> Option<Seq<char>>;

/// The text that a PDF text string decodes to.
pub uninterp spec fn pdf_text_of(raw: Seq<u8>) -> Seq<char>;

/// The raw Title and Author entries of a document's info dictionary.
pub struct RawInfo {
    pub title: Option<Vec<u8>>,
    pub author: Option<Vec<u8>>,
}

/// What the parser found in the bytes of a document.
pub enum ParsedPdf {
    /// The bytes are not a PDF document that the parser can read.
    Unreadable,
    /// A readable document whose trailer has no info dictionary.
    NoInfo,
    /// A readable document with an info dictionary.
    Info(RawInfo),
}

/// Title and author of a document, decoded to text.
pub struct DocumentInfo {
    pub title: Option<String>,
    pub author: Option<String>,
}

/// Why the metadata of a document could not be read.
#[derive(Clone, Copy, Debug, PartialEq, Eq)]
pub enum ExtractError {
    /// The bytes are not a PDF document that the parser can read.
    NotAPdf,
}

impl ExtractError {
    /// A message for the user.
    pub fn message(&self) -> (r: String)
        ensures
            r@ == "Failed to open PDF file"@,
    {
        match self {
            ExtractError::NotAPdf => "Failed to open PDF file".to_owned(),
        }
    }
}

pub open spec fn raw_info_view(info: Option<RawInfo>) -> Option<(Option<Seq<u8>>, Option<Seq<u8>>)> {
    match info {
        Some(d) => Some((bytes_view(d.title), bytes_view(d.author))),
        None => None,
    }
}

/// A parse outcome as plain values: `None` when unreadable; else whether the
/// trailer has an info dictionary, and its raw Title and Author entries.
pub open spec fn parsed_view(p: ParsedPdf) -> Option<Option<(Option<Seq<u8>>, Option<Seq<u8>>)>> {
    match p {
        ParsedPdf::Unreadable => None,
        ParsedPdf::NoInfo => Some(None),
        ParsedPdf::Info(d) => Some(raw_info_view(Some(d))),
    }
}

pub open spec fn bytes_view(o: Option<Vec<u8>>) -> Option<Seq<u8>> {
    match o {
        Some(v) => Some(v@),
        None => None,
    }
}

pub open spec fn document_view(info: Option<DocumentInfo>) -> Option<(Option<Seq<char>>, Option<Seq<char>>)> {
    match info {
        Some(d) => Some((d.title.deep_view(), d.author.deep_view())),
        None => None,
    }
}

pub open spec fn decode_entry(raw: Option<Seq<u8>>) -> Option<Seq<char>> {
    match raw {
        Some(b) => Some(pdf_text_of(b)),
        None => None,
    }
}

/// An info dictionary with its entries decoded to text.
pub open spec fn decoded_info(info: Option<(Option<Seq<u8>>, Option<Seq<u8>>)>) -> Option<(Option<Seq<char>>, Option<Seq<char>>)> {
    match info {
        Some((t, a)) => Some((decode_entry(t), decode_entry(a))),
        None => None,
    }
}

/// The raw Title entry of what the parser found, if there is one.
pub open spec fn info_title(found: Option<Option<(Option<Seq<u8>>, Option<Seq<u8>>)>>) -> Option<Seq<u8>> {
    match found {
        Some(Some((t, _))) => t,
        _ => None,
    }
}

/// The file name a record carries: the path's stem, or "Untitled" without one.
pub open spec fn default_file_name(stem: Option<Seq<char>>) -> Seq<char> {
    match stem {
        Some(s) => s,
        None => "Untitled"@,
    }
}

/// The record for a document whose file name is `file_name` and whose info
/// dictionary, if it has one, holds the decoded title and author in `info`.
pub open spec fn book_from_document(
    file_name: Seq<char>,
    info: Option<(Option<Seq<char>>, Option<Seq<char>>)>,
) -> BookInfoView {
    BookInfoView {
        file_name: file_name,
        title: match info {
            Some((Some(t), _)) => t,
            _ => file_name,
        },
        author: match info {
            Some((_, a)) => a,
            None => None,
        },
        genre: None,
        publish_year: None,
    }
}

/// Relies on `std::path::Path::file_stem`: the final component of the path
/// without its extension. A stem cut from a `&str` is valid text, so the
/// conversion back to a `String` keeps it whole.
#[verifier::external_body]
fn file_stem(path: &str) -> (r: Option<String>)
    ensures
        r.deep_view() == file_stem_of(path@),
{
    std::path::Path::new(path).file_stem().and_then(|s| s.to_str()).map(|s| s.to_owned())
}

/// Relies on `pdf::primitive::PdfString::to_string_lossy`: decodes a PDF text
/// string (UTF-16BE after a byte order mark, else UTF-8), replacing what
/// cannot be decoded.
#[verifier::external_body]
fn decode_text(raw: &Vec<u8>) -> (r: String)
    ensures
        r@ == pdf_text_of(raw@),
{
    PdfString::new(raw.as_slice().into()).to_string_lossy()
}

/// The file name a record carries, from the stem of its path.
pub fn file_name_from_stem(stem: Option<String>) -> (r: String)
    ensures
        r@ == default_file_name(stem.deep_view()),
{
    match stem {
        Some(s) => s,
        None => "Untitled".to_owned(),
    }
}

fn decode_entry_text(raw: &Option<Vec<u8>>) -> (r: Option<String>)
    ensures
        r.deep_view() == decode_entry(bytes_view(*raw)),
{
    match raw {
        Some(b) => Some(decode_text(b)),
        None => None,
    }
}

/// Decodes the raw entries of an info dictionary to text.
pub fn decode_info(raw: &RawInfo) -> (r: DocumentInfo)
    ensures
        document_view(Some(r)) == decoded_info(raw_info_view(Some(*raw))),
{
    DocumentInfo { title: decode_entry_text(&raw.title), author: decode_entry_text(&raw.author) }
}

/// The record for a document named `file_name` whose info dictionary, if it
/// has one, is `info`: its title when it gives one, else the file name; its
/// author, if any; never a genre or a year.
pub fn book_info_from_document(file_name: String, info: Option<DocumentInfo>) -> (r: BookInfo)
    ensures
        r@ == book_from_document(file_name@, document_view(info)),
        info is None ==> r@.title == file_name@ && r@.author is None,
        r@.genre is None && r@.publish_year is None,
{
    let (title, author) = match info {
        Some(d) => {
            let title = match d.title {
                Some(t) => t,
                None => file_name.clone(),
            };
            (title, d.author)
        },
        None => (file_name.clone(), None),
    };
    BookInfo { file_name, title, author, genre: None, publish_year: None }
}

/// Reads the title and author of the document at `file_path`, given what
/// the parser found in its bytes. The record's file name is the path's stem
/// ("Untitled" if it has none); its title is the info dictionary's Title,
/// else that file name; its author is the dictionary's Author, if any. A
/// document that the parser could not read gives `NotAPdf`.
pub fn extract_pdf_metadata(file_path: &str, parsed: ParsedPdf) -> (r: Result<BookInfo, ExtractError>)
    ensures
        r is Err <==> parsed is Unreadable,
        r is Err ==> r->Err_0 == ExtractError::NotAPdf,
        r is Ok ==> r->Ok_0@ == book_from_document(
            default_file_name(file_stem_of(file_path@)),
            decoded_info(parsed_view(parsed)->0),
        ),
        parsed is NoInfo ==> r is Ok && r->Ok_0@ == (BookInfoView {
            file_name: default_file_name(file_stem_of(file_path@)),
            title: default_file_name(file_stem_of(file_path@)),
            author: None,
            genre: None,
            publish_year: None,
        }),
        info_title(parsed_view(parsed)) is Some ==> r is Ok && r->Ok_0@.title == pdf_text_of(
            info_title(parsed_view(parsed))->0,
        ),
{
    let file_name = file_name_from_stem(file_stem(file_path));
    match parsed {
        ParsedPdf::Unreadable => Err(ExtractError::NotAPdf),
        ParsedPdf::NoInfo => Ok(book_info_from_document(file_name, None)),
        ParsedPdf::Info(d) => Ok(book_info_from_document(file_name, Some(decode_info(&d)))),
    }
}

} // verus!
