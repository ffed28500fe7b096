//! The book endpoints: a table of books each owned by a username, the JSON
//! array the read endpoints send back (with the owner omitted from each
//! entry), and the laws that relate them.
//!
//! Book identity is the whole record: inserting a record that is already
//! present, field for field, fails and changes nothing, as the database's
//! uniqueness constraint would make it fail.

use vstd::prelude::*;
use vstd::string::StringExecFns;
use crate::json::json_str;
use crate::json::append_json_str;
use crate::outcome::WriteOutcome;
use crate::text::str_eq;
use crate::users::not_found_body;

verus! {

/// One row of the book table: a book and the username that owns it.
pub struct UserBooks {
    pub bookname: String,
    pub isbn: String,
    pub authorname: String,
    pub username: String,
}

/// A book as the read endpoints echo it: the owner is left out.
pub struct Book {
    pub bookname: String,
    pub isbn: String,
    pub authorname: String,
}

/// The mathematical value of a book row.
pub ghost struct BookView {
    pub bookname: Seq<char>,
    pub isbn: Seq<char>,
    pub authorname: Seq<char>,
    pub username: Seq<char>,
}

/// The mathematical value of an echoed book.
pub ghost struct BookOut {
    pub bookname: Seq<char>,
    pub isbn: Seq<char>,
    pub authorname: Seq<char>,
}

impl View for UserBooks {
    type V = BookView;

    open spec fn view(&self) -> BookView {
        BookView {
            bookname: self.bookname@,
            isbn: self.isbn@,
            authorname: self.authorname@,
            username: self.username@,
        }
    }
}

impl View for Book {
    type V = BookOut;

    open spec fn view(&self) -> BookOut {
        BookOut { bookname: self.bookname@, isbn: self.isbn@, authorname: self.authorname@ }
    }
}

/// A row without its owner, as the read endpoints render it.
pub open spec fn strip_owner(b: BookView) -> BookOut {
    BookOut { bookname: b.bookname, isbn: b.isbn, authorname: b.authorname }
}

/// Every row of `rows` without its owner, in order.
pub open spec fn stripped(rows: Seq<BookView>) -> Seq<BookOut> {
    rows.map_values(|b: BookView| strip_owner(b))
}

/// The values of a list of echoed books.
pub open spec fn book_views(rows: Seq<Book>) -> Seq<BookOut> {
    rows.map_values(|b: Book| b@)
}

/// The JSON object one book is echoed as.
pub open spec fn book_json(b: BookOut) -> Seq<char> {
    "{\"bookname\":"@ + json_str(b.bookname) + ",\"isbn\":"@ + json_str(b.isbn)
        + ",\"authorname\":"@ + json_str(b.authorname) + "}"@
}

/// The comma-separated entries of a JSON array of books.
pub open spec fn books_items(items: Seq<BookOut>) -> Seq<char>
    decreases items.len(),
{
    if items.len() == 0 {
        Seq::empty()
    } else if items.len() == 1 {
        book_json(items[0])
    } else {
        books_items(items.drop_last()) + ","@ + book_json(items.last())
    }
}

/// The JSON array a list of books is echoed as.
pub open spec fn books_json(items: Seq<BookOut>) -> Seq<char> {
    "["@ + books_items(items) + "]"@
}

/// The body sent when a book was inserted.
pub open spec fn add_book_ok_body() -> Seq<char> {
    "{\"status\":\"ok\",\"message\":\"Book added Successfully!\"}"@
}

/// The body sent when the insert statement failed.
pub open spec fn add_book_error_body() -> Seq<char> {
    "{\"status\":\"error\",\"message\":\"Book already exists!\"}"@
}

/// The body sent when the insert succeeded but did not affect exactly one row.
pub open spec fn add_book_retry_body() -> Seq<char> {
    "{\"status\":\"error\",\"message\":\"Could not add the book! Please try again!\"}"@
}

/// The body the add-book endpoint sends for a given write outcome.
pub open spec fn add_book_body(o: WriteOutcome) -> Seq<char> {
    match o {
        WriteOutcome::Failed => add_book_error_body(),
        WriteOutcome::Rows(n) => if n == 1 {
            add_book_ok_body()
        } else {
            add_book_retry_body()
        },
    }
}

/// Maps the outcome of the book INSERT to the response body.
pub fn add_book_response(o: &WriteOutcome) -> (r: String)
    ensures
        r@ == add_book_body(*o),
{
    match o {
        WriteOutcome::Failed => "{\"status\":\"error\",\"message\":\"Book already exists!\"}".to_owned(),
        WriteOutcome::Rows(n) => {
            if *n == 1 {
                "{\"status\":\"ok\",\"message\":\"Book added Successfully!\"}".to_owned()
            } else {
                "{\"status\":\"error\",\"message\":\"Could not add the book! Please try again!\"}".to_owned()
            }
        },
    }
}

/// Appends the JSON object for one book to `out`.
fn append_book_json(out: &mut String, b: &Book)
    ensures
        final(out)@ == old(out)@ + book_json(b@),
{
    out.append("{\"bookname\":");
    append_json_str(out, b.bookname.as_str());
    out.append(",\"isbn\":");
    append_json_str(out, b.isbn.as_str());
    out.append(",\"authorname\":");
    append_json_str(out, b.authorname.as_str());
    out.append("}");
    proof {
        assert(out@ =~= old(out)@ + book_json(b@));
    }
}

/// Renders a list of books as the JSON array the read endpoints send.
pub fn books_response(rows: &Vec<Book>) -> (r: String)
    ensures
        r@ == books_json(book_views(rows@)),
{
    let ghost items = book_views(rows@);
    let mut out = String::new();
    out.append("[");
    let mut i: usize = 0;
    while i < rows.len()
        invariant
            i <= rows@.len(),
            items == book_views(rows@),
            items.len() == rows@.len(),
            out@ == "["@ + books_items(items.take(i as int)),
        decreases rows@.len() - i,
    {
        if i > 0 {
            out.append(",");
        }
        append_book_json(&mut out, &rows[i]);
        proof {
            assert(items.take(i + 1 as int).drop_last() =~= items.take(i as int));
            assert(items.take(i + 1 as int).last() == items[i as int]);
            assert(out@ =~= "["@ + books_items(items.take(i + 1 as int)));
        }
        i = i + 1;
    }
    out.append("]");
    proof {
        assert(items.take(items.len() as int) =~= items);
        assert(out@ =~= books_json(items));
    }
    out
}

/// The rows owned by this username, in order, each without its owner.
pub open spec fn selected_books(rows: Seq<BookView>, name: Seq<char>) -> Seq<BookOut>
    decreases rows.len(),
{
    if rows.len() == 0 {
        Seq::empty()
    } else if rows.last().username == name {
        selected_books(rows.drop_last(), name).push(strip_owner(rows.last()))
    } else {
        selected_books(rows.drop_last(), name)
    }
}

/// What adding a book does: the rows afterwards, and the body sent back.
pub open spec fn spec_add_book(rows: Seq<BookView>, b: BookView) -> (Seq<BookView>, Seq<char>) {
    if rows.contains(b) {
        (rows, add_book_error_body())
    } else {
        (rows.push(b), add_book_ok_body())
    }
}

/// What listing every book sends back.
pub open spec fn spec_get_all_books(rows: Seq<BookView>) -> Seq<char> {
    books_json(stripped(rows))
}

/// What listing one username's books sends back.
pub open spec fn spec_get_user_books(rows: Seq<BookView>, name: Seq<char>) -> Seq<char> {
    books_json(selected_books(rows, name))
}

/// The book table: rows in the order they were inserted.
pub struct BookTable {
    books: Vec<UserBooks>,
}

impl View for BookTable {
    type V = Seq<BookView>;

    closed spec fn view(&self) -> Seq<BookView> {
        self.books@.map_values(|b: UserBooks| b@)
    }
}

impl BookTable {
    /// An empty table.
    pub fn new() -> (t: BookTable)
        ensures
            t@ == Seq::<BookView>::empty(),
    {
        let t = BookTable { books: Vec::new() };
        proof {
            assert(t@ =~= Seq::<BookView>::empty());
        }
        t
    }

    /// Whether some row equals `b`, field for field.
    fn holds_book(&self, b: &UserBooks) -> (r: bool)
        ensures
            r == self@.contains(b@),
    {
        let mut i: usize = 0;
        while i < self.books.len()
            invariant
                i <= self.books@.len(),
                self@.len() == self.books@.len(),
                forall|j: int| 0 <= j < i ==> self@[j] != b@,
            decreases self.books@.len() - i,
        {
            if str_eq(self.books[i].bookname.as_str(), b.bookname.as_str())
                && str_eq(self.books[i].isbn.as_str(), b.isbn.as_str())
                && str_eq(self.books[i].authorname.as_str(), b.authorname.as_str())
                && str_eq(self.books[i].username.as_str(), b.username.as_str()) {
                proof {
                    assert(self@[i as int] == b@);
                }
                return true;
            }
            i = i + 1;
        }
        proof {
            assert(!self@.contains(b@));
        }
        false
    }

    /// Inserts a book, unless an identical row is already present; sends back
    /// the same body the endpoint would.
    pub fn add_book(&mut self, b: UserBooks) -> (resp: String)
        ensures
            final(self)@ == spec_add_book(old(self)@, b@).0,
            resp@ == spec_add_book(old(self)@, b@).1,
    {
        if self.holds_book(&b) {
            "{\"status\":\"error\",\"message\":\"Book already exists!\"}".to_owned()
        } else {
            let ghost rows = self@;
            let ghost bv = b@;
            self.books.push(b);
            proof {
                assert(self@ =~= rows.push(bv));
            }
            "{\"status\":\"ok\",\"message\":\"Book added Successfully!\"}".to_owned()
        }
    }

    /// Lists every book, in insertion order, whoever owns it.
    pub fn get_all_books(&self) -> (resp: String)
        ensures
            resp@ == spec_get_all_books(self@),
    {
        let mut found: Vec<Book> = Vec::new();
        let mut i: usize = 0;
        while i < self.books.len()
            invariant
                i <= self.books@.len(),
                self@.len() == self.books@.len(),
                book_views(found@) == stripped(self@.take(i as int)),
            decreases self.books@.len() - i,
        {
            let row = &self.books[i];
            let ghost pre = found@;
            found.push(Book {
                bookname: row.bookname.clone(),
                isbn: row.isbn.clone(),
                authorname: row.authorname.clone(),
            });
            proof {
                assert(book_views(pre).len() == pre.len());
                assert(stripped(self@.take(i as int)).len() == i as int);
                assert(pre.len() == i as int);
                assert(found@[i as int]@ == strip_owner(self@[i as int]));
                assert forall|k: int| 0 <= k < i + 1 implies book_views(found@)[k] == stripped(
                    self@.take((i + 1) as int),
                )[k] by {
                    assert(stripped(self@.take((i + 1) as int))[k] == strip_owner(
                        self@.take((i + 1) as int)[k],
                    ));
                    assert(book_views(found@)[k] == found@[k]@);
                    if k < i {
                        assert(found@[k] == pre[k]);
                        assert(book_views(pre)[k] == pre[k]@);
                        assert(book_views(pre)[k] == stripped(self@.take(i as int))[k]);
                        assert(stripped(self@.take(i as int))[k] == strip_owner(
                            self@.take(i as int)[k],
                        ));
                    }
                }
                assert(book_views(found@) =~= stripped(self@.take((i + 1) as int)));
            }
            i = i + 1;
        }
        proof {
            assert(self@.take(self@.len() as int) =~= self@);
        }
        books_response(&found)
    }

    /// Lists the books owned by this username, in insertion order.
    pub fn get_user_books(&self, name: &str) -> (resp: String)
        ensures
            resp@ == spec_get_user_books(self@, name@),
    {
        let mut found: Vec<Book> = Vec::new();
        let mut i: usize = 0;
        while i < self.books.len()
            invariant
                i <= self.books@.len(),
                self@.len() == self.books@.len(),
                book_views(found@) == selected_books(self@.take(i as int), name@),
            decreases self.books@.len() - i,
        {
            proof {
                assert(self@.take(i + 1 as int).drop_last() =~= self@.take(i as int));
                assert(self@.take(i + 1 as int).last() == self@[i as int]);
            }
            let row = &self.books[i];
            if str_eq(row.username.as_str(), name) {
                found.push(Book {
                    bookname: row.bookname.clone(),
                    isbn: row.isbn.clone(),
                    authorname: row.authorname.clone(),
                });
                proof {
                    assert(book_views(found@) =~= selected_books(
                        self@.take(i + 1 as int),
                        name@,
                    ));
                }
            }
            i = i + 1;
        }
        proof {
            assert(self@.take(self@.len() as int) =~= self@);
        }
        books_response(&found)
    }
}

/// A row that is in `rows` makes the selection for its username non-empty.
proof fn lemma_selected_of_contains(rows: Seq<BookView>, b: BookView)
    requires
        rows.contains(b),
    ensures
        selected_books(rows, b.username).len() > 0,
    decreases rows.len(),
{
    if rows.len() > 0 && rows.last() != b {
        let i = choose|i: int| 0 <= i < rows.len() && rows[i] == b;
        assert(rows.drop_last()[i] == b);
        assert(rows.drop_last().contains(b));
        lemma_selected_of_contains(rows.drop_last(), b);
    }
}

/// Adding a book for a username that owns none yet succeeds, and listing that
/// username's books afterwards echoes an array of exactly that book, with the
/// owner left out of the entry.
pub proof fn lemma_add_book_then_get_books(rows: Seq<BookView>, b: BookView)
    requires
        selected_books(rows, b.username).len() == 0,
    ensures
        spec_add_book(rows, b).1 == add_book_ok_body(),
        spec_get_user_books(spec_add_book(rows, b).0, b.username) == books_json(
            seq![strip_owner(b)],
        ),
{
    if rows.contains(b) {
        lemma_selected_of_contains(rows, b);
    }
    let rows2 = rows.push(b);
    assert(rows2.drop_last() =~= rows);
    assert(rows2.last() == b);
    assert(selected_books(rows2, b.username) =~= seq![strip_owner(b)]);
}

/// Listing every book of an empty table echoes the empty JSON array.
pub proof fn lemma_get_all_books_empty()
    ensures
        spec_get_all_books(Seq::<BookView>::empty()) == "[]"@,
{
    reveal_strlit("[");
    reveal_strlit("]");
    reveal_strlit("[]");
    assert(stripped(Seq::<BookView>::empty()) =~= Seq::<BookOut>::empty());
    assert("["@ + books_items(Seq::<BookOut>::empty()) + "]"@ =~= "[]"@);
}

/// Each inserted book appends exactly its own entry to the list of every
/// book, whoever owns it: after the insert the array holds every earlier
/// entry, in order, and the new book's entry last.
pub proof fn lemma_get_all_books_push(rows: Seq<BookView>, b: BookView)
    ensures
        spec_get_all_books(rows.push(b)) == if rows.len() == 0 {
            "["@ + book_json(strip_owner(b)) + "]"@
        } else {
            "["@ + books_items(stripped(rows)) + ","@ + book_json(strip_owner(b)) + "]"@
        },
{
    assert(stripped(rows.push(b)) =~= stripped(rows).push(strip_owner(b)));
    assert(stripped(rows).push(strip_owner(b)).drop_last() =~= stripped(rows));
    if rows.len() == 0 {
        assert(spec_get_all_books(rows.push(b)) =~= "["@ + book_json(strip_owner(b)) + "]"@);
    } else {
        assert(spec_get_all_books(rows.push(b)) =~= "["@ + books_items(stripped(rows)) + ","@
            + book_json(strip_owner(b)) + "]"@);
    }
}

/// A username that owns no row is listed as the empty JSON array — the same
/// shape, not the not-found body, which only a failed read statement sends.
pub proof fn lemma_get_user_books_none(rows: Seq<BookView>, name: Seq<char>)
    requires
        selected_books(rows, name).len() == 0,
    ensures
        spec_get_user_books(rows, name) == "[]"@,
        spec_get_user_books(rows, name) != not_found_body(),
{
    reveal_strlit("[");
    reveal_strlit("]");
    reveal_strlit("[]");
    reveal_strlit("{\"error\":\"User not found!\"}");
    assert(selected_books(rows, name) =~= Seq::<BookOut>::empty());
    assert("["@ + books_items(Seq::<BookOut>::empty()) + "]"@ =~= "[]"@);
    assert("[]"@.len() == 2);
    assert(not_found_body().len() != 2);
}

} // verus!
