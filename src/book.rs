//! The record handed back to the front end, and the placeholder lookup.

use vstd::prelude::*;

verus! {

/// What the front end is told about one book.
#[derive(Clone, Debug)]
pub struct BookInfo {
    pub file_name: String,
    pub title: String,
    pub author: Option<String>,
    pub genre: Option<String>,
    pub publish_year: Option<String>,
}

/// The mathematical value of a `BookInfo`: its text fields as character sequences.
pub ghost struct BookInfoView {
    pub file_name: Seq<char>,
    pub title: Seq<char>,
    pub author: Option<Seq<char>>,
    pub genre: Option<Seq<char>>,
    pub publish_year: Option<Seq<char>>,
}

impl View for BookInfo {
    type V = BookInfoView;

    open spec fn view(&self) -> BookInfoView {
        BookInfoView {
            file_name: self.file_name@,
            title: self.title@,
            author: self.author.deep_view(),
            genre: self.genre.deep_view(),
            publish_year: self.publish_year.deep_view(),
        }
    }
}

/// The record that the placeholder lookup gives for `title`.
pub open spec fn placeholder_book(title: Seq<char>) -> BookInfoView {
    BookInfoView {
        file_name: Seq::empty(),
        title: title,
        author: Some("Unknown Author"@),
        genre: Some("Fiction"@),
        publish_year: Some("2020"@),
    }
}

/// Looks a title up. For now this is a placeholder: whatever the title, the
/// record holds it with the same fixed author, genre and year, and no file.
pub fn search_book_info(title: String) -> (r: Result<BookInfo, String>)
    ensures
        r is Ok,
        r->Ok_0@ == placeholder_book(title@),
{
    proof {
        reveal_strlit("");
    }
    let book_info = BookInfo {
        file_name: "".to_owned(),
        title,
        author: Some("Unknown Author".to_owned()),
        genre: Some("Fiction".to_owned()),
        publish_year: Some("2020".to_owned()),
    };
    assert(book_info.file_name@ =~= Seq::<char>::empty());
    Ok(book_info)
}

} // verus!
