//! Back end of a small desktop book shelf: choosing a PDF, reading its
//! title and author, and a placeholder book lookup.

pub mod book;
pub mod metadata;
pub mod picker;

pub use book::{search_book_info, BookInfo, BookInfoView};
pub use metadata::{
    book_info_from_document, decode_info, extract_pdf_metadata, file_name_from_stem, DocumentInfo,
    ExtractError, ParsedPdf, RawInfo,
};
pub use picker::pick_pdf_result;
