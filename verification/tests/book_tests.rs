use user_books::books::add_book_response;
use user_books::books::books_response;
use user_books::books::Book;
use user_books::books::BookTable;
use user_books::books::UserBooks;
use user_books::outcome::WriteOutcome;

fn book(bookname: &str, isbn: &str, authorname: &str, username: &str) -> UserBooks {
    UserBooks {
        bookname: bookname.to_owned(),
        isbn: isbn.to_owned(),
        authorname: authorname.to_owned(),
        username: username.to_owned(),
    }
}

#[test]
fn add_book_then_get_books_for_its_owner() {
    let mut t = BookTable::new();
    let resp = t.add_book(book("Dune", "9780441172719", "Frank Herbert", "alice"));
    assert_eq!(resp, "{\"status\":\"ok\",\"message\":\"Book added Successfully!\"}");
    assert_eq!(
        t.get_user_books("alice"),
        "[{\"bookname\":\"Dune\",\"isbn\":\"9780441172719\",\"authorname\":\"Frank Herbert\"}]",
    );
}

#[test]
fn get_user_books_filters_by_owner() {
    let mut t = BookTable::new();
    t.add_book(book("Dune", "9780441172719", "Frank Herbert", "alice"));
    t.add_book(book("Emma", "9780141439587", "Jane Austen", "bob"));
    t.add_book(book("Hamlet", "9780743477123", "William Shakespeare", "alice"));
    assert_eq!(
        t.get_user_books("alice"),
        "[{\"bookname\":\"Dune\",\"isbn\":\"9780441172719\",\"authorname\":\"Frank Herbert\"},{\"bookname\":\"Hamlet\",\"isbn\":\"9780743477123\",\"authorname\":\"William Shakespeare\"}]",
    );
    assert_eq!(
        t.get_user_books("bob"),
        "[{\"bookname\":\"Emma\",\"isbn\":\"9780141439587\",\"authorname\":\"Jane Austen\"}]",
    );
    assert_eq!(t.get_user_books("carol"), "[]");
}

#[test]
fn get_all_books_on_empty_table_is_empty_array() {
    let t = BookTable::new();
    assert_eq!(t.get_all_books(), "[]");
}

#[test]
fn get_all_books_lists_every_entry_whoever_owns_it() {
    let mut t = BookTable::new();
    t.add_book(book("Dune", "9780441172719", "Frank Herbert", "alice"));
    t.add_book(book("Emma", "9780141439587", "Jane Austen", "bob"));
    t.add_book(book("Hamlet", "9780743477123", "William Shakespeare", "carol"));
    assert_eq!(
        t.get_all_books(),
        "[{\"bookname\":\"Dune\",\"isbn\":\"9780441172719\",\"authorname\":\"Frank Herbert\"},{\"bookname\":\"Emma\",\"isbn\":\"9780141439587\",\"authorname\":\"Jane Austen\"},{\"bookname\":\"Hamlet\",\"isbn\":\"9780743477123\",\"authorname\":\"William Shakespeare\"}]",
    );
}

#[test]
fn add_identical_book_twice_fails_and_changes_nothing() {
    let mut t = BookTable::new();
    t.add_book(book("Dune", "9780441172719", "Frank Herbert", "alice"));
    let resp = t.add_book(book("Dune", "9780441172719", "Frank Herbert", "alice"));
    assert_eq!(resp, "{\"status\":\"error\",\"message\":\"Book already exists!\"}");
    assert_eq!(
        t.get_all_books(),
        "[{\"bookname\":\"Dune\",\"isbn\":\"9780441172719\",\"authorname\":\"Frank Herbert\"}]",
    );
}

#[test]
fn add_book_response_covers_every_outcome() {
    assert_eq!(
        add_book_response(&WriteOutcome::Failed),
        "{\"status\":\"error\",\"message\":\"Book already exists!\"}",
    );
    assert_eq!(
        add_book_response(&WriteOutcome::Rows(1)),
        "{\"status\":\"ok\",\"message\":\"Book added Successfully!\"}",
    );
    assert_eq!(
        add_book_response(&WriteOutcome::Rows(0)),
        "{\"status\":\"error\",\"message\":\"Could not add the book! Please try again!\"}",
    );
}

#[test]
fn books_response_renders_rows_in_order_with_escapes() {
    let rows = vec![
        Book {
            bookname: "a\"b".to_owned(),
            isbn: "1".to_owned(),
            authorname: "x\\y".to_owned(),
        },
        Book {
            bookname: "c".to_owned(),
            isbn: "2".to_owned(),
            authorname: "line\none".to_owned(),
        },
    ];
    assert_eq!(
        books_response(&rows),
        "[{\"bookname\":\"a\\\"b\",\"isbn\":\"1\",\"authorname\":\"x\\\\y\"},{\"bookname\":\"c\",\"isbn\":\"2\",\"authorname\":\"line\\none\"}]",
    );
    let empty: Vec<Book> = Vec::new();
    assert_eq!(books_response(&empty), "[]");
}
