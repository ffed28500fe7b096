//! The user endpoints: one table of users keyed by username, the exact JSON
//! body each request comes back with, and the laws that relate them.
//!
//! The table models what the service's user store does: `username` is a
//! natural key, so an insert with a username that is already present fails
//! and changes nothing, as the database's uniqueness constraint would make
//! it fail. Every response body is pinned down character for character.

use vstd::prelude::*;
use vstd::string::StringExecFns;
use crate::json::json_str;
use crate::json::append_json_str;
use crate::outcome::WriteOutcome;
use crate::text::str_eq;

verus! {

/// One row of the user table.
pub struct User {
    pub username: String,
    pub fullname: String,
}

/// The mathematical value of a user row.
pub ghost struct UserView {
    pub username: Seq<char>,
    pub fullname: Seq<char>,
}

impl View for User {
    type V = UserView;

    open spec fn view(&self) -> UserView {
        UserView { username: self.username@, fullname: self.fullname@ }
    }
}

/// The body sent when a user was inserted.
pub open spec fn add_user_ok_body() -> Seq<char> {
    "{\"status\":\"ok\",\"message\":\"User created Successfully!\"}"@
}

/// The body sent when the insert statement failed.
pub open spec fn add_user_error_body() -> Seq<char> {
    "{\"status\":\"error\",\"message\":\"User already exists!\"}"@
}

/// The body sent when the insert succeeded but did not affect exactly one row.
pub open spec fn add_user_retry_body() -> Seq<char> {
    "{\"status\":\"error\",\"message\":\"Could not create the user! Please try again!\"}"@
}

/// The body sent when a user's full name was updated.
pub open spec fn update_user_ok_body() -> Seq<char> {
    "{\"status\":\"ok\",\"message\":\"User details updated Successfully!\"}"@
}

/// The body sent when the update failed or did not affect exactly one row.
pub open spec fn update_user_error_body() -> Seq<char> {
    "{\"status\":\"error\",\"message\":\"Could not update the user details. Please try again later.\"}"@
}

/// The body sent when a lookup found nothing (or a read statement failed).
pub open spec fn not_found_body() -> Seq<char> {
    "{\"error\":\"User not found!\"}"@
}

/// The JSON object a found user is echoed as.
pub open spec fn user_json(u: UserView) -> Seq<char> {
    "{\"username\":"@ + json_str(u.username) + ",\"fullname\":"@ + json_str(u.fullname) + "}"@
}

/// The body the add-user endpoint sends for a given write outcome.
pub open spec fn add_user_body(o: WriteOutcome) -> Seq<char> {
    match o {
        WriteOutcome::Failed => add_user_error_body(),
        WriteOutcome::Rows(n) => if n == 1 {
            add_user_ok_body()
        } else {
            add_user_retry_body()
        },
    }
}

/// The body the update-user endpoint sends for a given write outcome.
pub open spec fn update_user_body(o: WriteOutcome) -> Seq<char> {
    match o {
        WriteOutcome::Failed => update_user_error_body(),
        WriteOutcome::Rows(n) => if n == 1 {
            update_user_ok_body()
        } else {
            update_user_error_body()
        },
    }
}

/// Maps the outcome of the user INSERT to the response body.
pub fn add_user_response(o: &WriteOutcome) -> (r: String)
    ensures
        r@ == add_user_body(*o),
{
    match o {
        WriteOutcome::Failed => "{\"status\":\"error\",\"message\":\"User already exists!\"}".to_owned(),
        WriteOutcome::Rows(n) => {
            if *n == 1 {
                "{\"status\":\"ok\",\"message\":\"User created Successfully!\"}".to_owned()
            } else {
                "{\"status\":\"error\",\"message\":\"Could not create the user! Please try again!\"}".to_owned()
            }
        },
    }
}

/// Maps the outcome of the user UPDATE to the response body.
pub fn update_user_response(o: &WriteOutcome) -> (r: String)
    ensures
        r@ == update_user_body(*o),
{
    match o {
        WriteOutcome::Failed => "{\"status\":\"error\",\"message\":\"Could not update the user details. Please try again later.\"}".to_owned(),
        WriteOutcome::Rows(n) => {
            if *n == 1 {
                "{\"status\":\"ok\",\"message\":\"User details updated Successfully!\"}".to_owned()
            } else {
                "{\"status\":\"error\",\"message\":\"Could not update the user details. Please try again later.\"}".to_owned()
            }
        },
    }
}

/// The body sent when a lookup found nothing, or a read statement failed.
pub fn not_found_response() -> (r: String)
    ensures
        r@ == not_found_body(),
{
    "{\"error\":\"User not found!\"}".to_owned()
}

/// Renders a looked-up row: the user echoed as JSON, or the not-found body.
pub fn get_user_response(row: Option<&User>) -> (r: String)
    ensures
        r@ == match row {
            Some(u) => user_json(u@),
            None => not_found_body(),
        },
{
    match row {
        None => not_found_response(),
        Some(u) => {
            let mut out = String::new();
            out.append("{\"username\":");
            append_json_str(&mut out, u.username.as_str());
            out.append(",\"fullname\":");
            append_json_str(&mut out, u.fullname.as_str());
            out.append("}");
            proof {
                assert(out@ =~= user_json(u@));
            }
            out
        },
    }
}

/// Whether some row of `rows` has this username.
pub open spec fn has_user(rows: Seq<UserView>, name: Seq<char>) -> bool {
    exists|i: int| 0 <= i < rows.len() && rows[i].username == name
}

/// The index of the row with this username, where one exists.
pub open spec fn user_index(rows: Seq<UserView>, name: Seq<char>) -> int {
    choose|i: int| 0 <= i < rows.len() && rows[i].username == name
}

/// Usernames are a key: no two rows share one.
pub open spec fn users_wf(rows: Seq<UserView>) -> bool {
    forall|i: int, j: int| 0 <= i < j < rows.len() ==> rows[i].username != rows[j].username
}

/// What adding a user does: the rows afterwards, and the body sent back.
pub open spec fn spec_add_user(rows: Seq<UserView>, u: UserView) -> (Seq<UserView>, Seq<char>) {
    if has_user(rows, u.username) {
        (rows, add_user_error_body())
    } else {
        (rows.push(u), add_user_ok_body())
    }
}

/// What looking a user up sends back.
pub open spec fn spec_get_user(rows: Seq<UserView>, name: Seq<char>) -> Seq<char> {
    if has_user(rows, name) {
        user_json(rows[user_index(rows, name)])
    } else {
        not_found_body()
    }
}

/// What updating a user's full name does: the rows afterwards, and the body.
pub open spec fn spec_update_user(rows: Seq<UserView>, u: UserView) -> (Seq<UserView>, Seq<char>) {
    if has_user(rows, u.username) {
        (rows.update(user_index(rows, u.username), u), update_user_ok_body())
    } else {
        (rows, update_user_error_body())
    }
}

/// The user table: rows with pairwise distinct usernames.
pub struct UserTable {
    users: Vec<User>,
}

impl View for UserTable {
    type V = Seq<UserView>;

    closed spec fn view(&self) -> Seq<UserView> {
        self.users@.map_values(|u: User| u@)
    }
}

impl UserTable {
    /// Usernames are pairwise distinct.
    pub open spec fn wf(&self) -> bool {
        users_wf(self@)
    }

    /// An empty table.
    pub fn new() -> (t: UserTable)
        ensures
            t@ == Seq::<UserView>::empty(),
            t.wf(),
    {
        let t = UserTable { users: Vec::new() };
        proof {
            assert(t@ =~= Seq::<UserView>::empty());
        }
        t
    }

    /// The index of the row with this username, if any row has it.
    fn find_username(&self, name: &str) -> (r: Option<usize>)
        ensures
            match r {
                Some(i) => i < self.users@.len() && self@[i as int].username == name@,
                None => !has_user(self@, name@),
            },
    {
        let mut i: usize = 0;
        while i < self.users.len()
            invariant
                i <= self.users@.len(),
                self@.len() == self.users@.len(),
                forall|j: int| 0 <= j < i ==> self@[j].username != name@,
            decreases self.users@.len() - i,
        {
            if str_eq(self.users[i].username.as_str(), name) {
                return Some(i);
            }
            i = i + 1;
        }
        None
    }

    /// Inserts a user, unless the username is already taken; sends back the
    /// same body the endpoint would.
    pub fn add_user(&mut self, u: User) -> (resp: String)
        requires
            old(self).wf(),
        ensures
            final(self).wf(),
            final(self)@ == spec_add_user(old(self)@, u@).0,
            resp@ == spec_add_user(old(self)@, u@).1,
    {
        match self.find_username(u.username.as_str()) {
            Some(_) => "{\"status\":\"error\",\"message\":\"User already exists!\"}".to_owned(),
            None => {
                let ghost rows = self@;
                let ghost uv = u@;
                self.users.push(u);
                proof {
                    assert(self@ =~= rows.push(uv));
                    assert forall|a: int, b: int|
                        0 <= a < b < self@.len() implies self@[a].username
                        != self@[b].username by {
                        if b == rows.len() {
                            assert(!(0 <= a < rows.len() && rows[a].username == uv.username));
                        }
                    }
                }
                "{\"status\":\"ok\",\"message\":\"User created Successfully!\"}".to_owned()
            },
        }
    }

    /// Looks a user up by exact username and renders the response body.
    pub fn get_user(&self, name: &str) -> (resp: String)
        requires
            self.wf(),
        ensures
            resp@ == spec_get_user(self@, name@),
    {
        match self.find_username(name) {
            None => not_found_response(),
            Some(i) => {
                proof {
                    let k = user_index(self@, name@);
                    assert(0 <= k < self@.len() && self@[k].username == name@);
                    if k != i {
                        if k < i {
                            assert(self@[k].username != self@[i as int].username);
                        } else {
                            assert(self@[i as int].username != self@[k].username);
                        }
                    }
                }
                get_user_response(Some(&self.users[i]))
            },
        }
    }

    /// Replaces the full name of the row with this username, if there is one;
    /// sends back the same body the endpoint would.
    pub fn update_user(&mut self, u: &User) -> (resp: String)
        requires
            old(self).wf(),
        ensures
            final(self).wf(),
            final(self)@ == spec_update_user(old(self)@, u@).0,
            resp@ == spec_update_user(old(self)@, u@).1,
    {
        match self.find_username(u.username.as_str()) {
            None => "{\"status\":\"error\",\"message\":\"Could not update the user details. Please try again later.\"}".to_owned(),
            Some(i) => {
                let ghost rows = self@;
                self.users[i] = User { username: u.username.clone(), fullname: u.fullname.clone() };
                proof {
                    let k = user_index(rows, u@.username);
                    assert(0 <= k < rows.len() && rows[k].username == u@.username);
                    if k != i {
                        if k < i {
                            assert(rows[k].username != rows[i as int].username);
                        } else {
                            assert(rows[i as int].username != rows[k].username);
                        }
                    }
                    assert(self@ =~= rows.update(k, u@));
                    assert forall|a: int, b: int|
                        0 <= a < b < self@.len() implies self@[a].username
                        != self@[b].username by {
                        assert(self@[a].username == rows[a].username);
                        assert(self@[b].username == rows[b].username);
                    }
                }
                "{\"status\":\"ok\",\"message\":\"User details updated Successfully!\"}".to_owned()
            },
        }
    }
}

/// Adding a user under a fresh username succeeds, and a get-user for that
/// username afterwards echoes exactly the user that was added.
pub proof fn lemma_add_then_get_user(rows: Seq<UserView>, u: UserView)
    requires
        users_wf(rows),
        !has_user(rows, u.username),
    ensures
        spec_add_user(rows, u).1 == add_user_ok_body(),
        users_wf(spec_add_user(rows, u).0),
        spec_get_user(spec_add_user(rows, u).0, u.username) == user_json(u),
{
    let rows2 = rows.push(u);
    assert(0 <= rows.len() < rows2.len() && rows2[rows.len() as int].username == u.username);
    assert(has_user(rows2, u.username));
    assert forall|a: int, b: int|
        0 <= a < b < rows2.len() implies rows2[a].username != rows2[b].username by {
        if b == rows.len() {
            assert(!(0 <= a < rows.len() && rows[a].username == u.username));
        }
    }
    let k = user_index(rows2, u.username);
    assert(0 <= k < rows2.len() && rows2[k].username == u.username);
    if k != rows.len() {
        assert(rows2[k].username != rows2[rows.len() as int].username);
    }
    assert(rows2[k] == u);
}

/// Adding a user under a username that is already present fails with the
/// already-exists body and leaves every row as it was.
pub proof fn lemma_add_existing_user(rows: Seq<UserView>, u: UserView)
    requires
        has_user(rows, u.username),
    ensures
        spec_add_user(rows, u).0 == rows,
        spec_add_user(rows, u).1 == add_user_error_body(),
{
}

/// Looking up a username no row has sends the not-found body.
pub proof fn lemma_get_user_missing(rows: Seq<UserView>, name: Seq<char>)
    requires
        !has_user(rows, name),
    ensures
        spec_get_user(rows, name) == not_found_body(),
{
}

/// Updating an existing user succeeds, and a get-user for that username
/// afterwards echoes the new full name.
pub proof fn lemma_update_then_get_user(rows: Seq<UserView>, u: UserView)
    requires
        users_wf(rows),
        has_user(rows, u.username),
    ensures
        spec_update_user(rows, u).1 == update_user_ok_body(),
        users_wf(spec_update_user(rows, u).0),
        spec_get_user(spec_update_user(rows, u).0, u.username) == user_json(u),
{
    let k = user_index(rows, u.username);
    assert(0 <= k < rows.len() && rows[k].username == u.username);
    let rows2 = rows.update(k, u);
    assert forall|a: int, b: int|
        0 <= a < b < rows2.len() implies rows2[a].username != rows2[b].username by {
        assert(rows2[a].username == rows[a].username);
        assert(rows2[b].username == rows[b].username);
    }
    assert(rows2[k].username == u.username);
    assert(has_user(rows2, u.username));
    let k2 = user_index(rows2, u.username);
    assert(0 <= k2 < rows2.len() && rows2[k2].username == u.username);
    if k2 != k {
        if k2 < k {
            assert(rows2[k2].username != rows2[k].username);
        } else {
            assert(rows2[k].username != rows2[k2].username);
        }
    }
    assert(rows2[k2] == u);
}

/// Updating a username no row has fails with the generic update-error body
/// and creates no row.
pub proof fn lemma_update_missing_user(rows: Seq<UserView>, u: UserView)
    requires
        !has_user(rows, u.username),
    ensures
        spec_update_user(rows, u).0 == rows,
        spec_update_user(rows, u).1 == update_user_error_body(),
{
}

} // verus!
