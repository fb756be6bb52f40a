//! The address of the service, the mock sign-in and the rules for what a user
//! types.
use vstd::prelude::*;
use vstd::string::*;
use crate::client::models::User;
use crate::clock::now;
use crate::ident::{format_id, random_id, uuid_text, Id};
use crate::text::{is_blank, str_contains, str_is_blank};

verus! {

pub const API_URL: &'static str = "http://localhost:3000/api";

/// The longest title that is accepted, in characters.
pub const MAX_TITLE_LEN: usize = 100;

/// A title is valid when something is left of it after trimming and it has
/// at most 100 characters.
pub open spec fn valid_title(title: Seq<char>) -> bool {
    !is_blank(title) && title.len() <= MAX_TITLE_LEN
}

/// What is wrong with a title, if anything.
pub open spec fn title_error(title: Seq<char>) -> Option<Seq<char>> {
    if is_blank(title) {
        Some("Title cannot be empty"@)
    } else if title.len() > MAX_TITLE_LEN {
        Some("Title cannot be longer than 100 characters"@)
    } else {
        None
    }
}

/// Checks a title against the rule, and says what is wrong with it.
pub fn validate_todo_title(title: &str) -> (r: Result<(), String>)
    ensures
        r is Ok <==> valid_title(title@),
        match r {
            Ok(_) => title_error(title@) is None,
            Err(m) => title_error(title@) == Some(m@),
        },
{
    if str_is_blank(title) {
        Err(String::from_str("Title cannot be empty"))
    } else if title.unicode_len() > MAX_TITLE_LEN {
        Err(String::from_str("Title cannot be longer than 100 characters"))
    } else {
        Ok(())
    }
}

/// An address passes when it holds an `@` and a dot.
pub fn validate_email(email: &str) -> (ok: bool)
    ensures
        ok == (email@.contains('@') && email@.contains('.')),
{
    str_contains(email, '@') && str_contains(email, '.')
}

/// The sign-in that stands in for the service: a name of at least 3 bytes and
/// a password of at least 6 are accepted.
pub open spec fn accepted(username: &str, password: &str) -> bool {
    username.len() >= 3 && password.len() >= 6
}

/// The address that the mock sign-in gives a user.
pub open spec fn mock_email(username: Seq<char>) -> Seq<char> {
    username + "@example.com"@
}

/// Signs a user in without asking the service. An accepted pair gives a user
/// of that name under a fresh random identifier, stamped with the current
/// time; any other pair gives the text that explains the rule.
pub fn authenticate_user(username: &str, password: &str) -> (r: Result<User, String>)
    ensures
        r is Ok <==> accepted(username, password),
        match r {
            Ok(user) => user@.username == username@ && user@.email == mock_email(username@),
            Err(m) => m@
                == "Invalid credentials. Username must be at least 3 characters and password at least 6 characters."@,
        },
{
    if username.len() >= 3 && password.len() >= 6 {
        Ok(
            User {
                id: random_id(),
                username: String::from_str(username),
                email: String::from_str(username).concat("@example.com"),
                created_at: now(),
            },
        )
    } else {
        Err(
            String::from_str(
                "Invalid credentials. Username must be at least 3 characters and password at least 6 characters.",
            ),
        )
    }
}

/// The address of the list of todos.
pub fn todos_url() -> (url: String)
    ensures
        url@ == API_URL@ + "/todos"@,
{
    String::from_str(API_URL).concat("/todos")
}

/// The address of one todo.
pub fn todo_url(id: Id) -> (url: String)
    ensures
        url@ == API_URL@ + "/todos/"@ + uuid_text(id),
{
    let text = format_id(id);
    String::from_str(API_URL).concat("/todos/").concat(text.as_str())
}

/// The address that a login is posted to.
pub fn login_url() -> (url: String)
    ensures
        url@ == API_URL@ + "/auth/login"@,
{
    String::from_str(API_URL).concat("/auth/login")
}

} // verus!
