use user_books::outcome::WriteOutcome;
use user_books::users::add_user_response;
use user_books::users::get_user_response;
use user_books::users::not_found_response;
use user_books::users::update_user_response;
use user_books::users::User;
use user_books::users::UserTable;

fn user(username: &str, fullname: &str) -> User {
    User { username: username.to_owned(), fullname: fullname.to_owned() }
}

#[test]
fn add_fresh_user_then_get_it() {
    let mut t = UserTable::new();
    let resp = t.add_user(user("alice", "Alice Anderson"));
    assert_eq!(resp, "{\"status\":\"ok\",\"message\":\"User created Successfully!\"}");
    assert_eq!(t.get_user("alice"), "{\"username\":\"alice\",\"fullname\":\"Alice Anderson\"}");
}

#[test]
fn add_existing_user_fails_and_changes_nothing() {
    let mut t = UserTable::new();
    t.add_user(user("alice", "Alice Anderson"));
    let resp = t.add_user(user("alice", "Someone Else"));
    assert_eq!(resp, "{\"status\":\"error\",\"message\":\"User already exists!\"}");
    assert_eq!(t.get_user("alice"), "{\"username\":\"alice\",\"fullname\":\"Alice Anderson\"}");
}

#[test]
fn get_missing_user_is_not_found() {
    let t = UserTable::new();
    assert_eq!(t.get_user("nobody"), "{\"error\":\"User not found!\"}");
}

#[test]
fn update_existing_user_then_get_new_fullname() {
    let mut t = UserTable::new();
    t.add_user(user("alice", "Alice Anderson"));
    t.add_user(user("bob", "Bob Brown"));
    let resp = t.update_user(&user("alice", "Alice Allison"));
    assert_eq!(resp, "{\"status\":\"ok\",\"message\":\"User details updated Successfully!\"}");
    assert_eq!(t.get_user("alice"), "{\"username\":\"alice\",\"fullname\":\"Alice Allison\"}");
    assert_eq!(t.get_user("bob"), "{\"username\":\"bob\",\"fullname\":\"Bob Brown\"}");
}

#[test]
fn update_missing_user_fails_and_creates_no_row() {
    let mut t = UserTable::new();
    let resp = t.update_user(&user("alice", "Alice Anderson"));
    assert_eq!(
        resp,
        "{\"status\":\"error\",\"message\":\"Could not update the user details. Please try again later.\"}",
    );
    assert_eq!(t.get_user("alice"), "{\"error\":\"User not found!\"}");
}

#[test]
fn user_fields_are_escaped_in_responses() {
    let mut t = UserTable::new();
    t.add_user(user("a\"b", "line\nbreak\\"));
    assert_eq!(t.get_user("a\"b"), "{\"username\":\"a\\\"b\",\"fullname\":\"line\\nbreak\\\\\"}");
}

#[test]
fn add_user_response_covers_every_outcome() {
    assert_eq!(
        add_user_response(&WriteOutcome::Failed),
        "{\"status\":\"error\",\"message\":\"User already exists!\"}",
    );
    assert_eq!(
        add_user_response(&WriteOutcome::Rows(1)),
        "{\"status\":\"ok\",\"message\":\"User created Successfully!\"}",
    );
    assert_eq!(
        add_user_response(&WriteOutcome::Rows(0)),
        "{\"status\":\"error\",\"message\":\"Could not create the user! Please try again!\"}",
    );
    assert_eq!(
        add_user_response(&WriteOutcome::Rows(2)),
        "{\"status\":\"error\",\"message\":\"Could not create the user! Please try again!\"}",
    );
}

#[test]
fn update_user_response_covers_every_outcome() {
    assert_eq!(
        update_user_response(&WriteOutcome::Failed),
        "{\"status\":\"error\",\"message\":\"Could not update the user details. Please try again later.\"}",
    );
    assert_eq!(
        update_user_response(&WriteOutcome::Rows(1)),
        "{\"status\":\"ok\",\"message\":\"User details updated Successfully!\"}",
    );
    assert_eq!(
        update_user_response(&WriteOutcome::Rows(0)),
        "{\"status\":\"error\",\"message\":\"Could not update the user details. Please try again later.\"}",
    );
}

#[test]
fn get_user_response_renders_row_or_not_found() {
    let u = user("alice", "Alice Anderson");
    assert_eq!(
        get_user_response(Some(&u)),
        "{\"username\":\"alice\",\"fullname\":\"Alice Anderson\"}",
    );
    assert_eq!(get_user_response(None), "{\"error\":\"User not found!\"}");
    assert_eq!(not_found_response(), "{\"error\":\"User not found!\"}");
}
