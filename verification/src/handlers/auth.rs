//! The handlers of the authentication endpoints. The token they hand out is a
//! fixed placeholder, and a credential is compared as it is stored.
use vstd::prelude::*;
use vstd::string::*;
use crate::clock::{now, Timestamp};
use crate::db::{
    first_named, has_user, lemma_first_named_is, lemma_first_named_none, Database, DatabaseView,
};
use crate::errors::{AppError, AppErrorView, CREATED, OK};
use crate::handlers::todos::conflict;
use crate::ident::{random_id, Id};
use crate::models::{AuthResponse, CredentialsView, LoginUser, RegisterUser, User, UserView};
use crate::text::same_text;

verus! {

/// The token that every successful registration and login answers with.
pub open spec fn token() -> Seq<char> {
    "dummy-token"@
}

/// The row that a registration makes.
pub open spec fn new_user(creds: CredentialsView, id: Id, at: Timestamp) -> UserView {
    UserView { id, username: creds.username, password_hash: creds.password, created_at: at }
}

/// The tables after `register_at`, and what it answers.
pub open spec fn register_spec(db: DatabaseView, creds: CredentialsView, id: Id, at: Timestamp) -> (
    DatabaseView,
    Result<(u16, Seq<char>), AppErrorView>,
) {
    if has_user(db.users, id, creds.username) {
        (db, Err(conflict()))
    } else {
        (
            DatabaseView { users: db.users.push(new_user(creds, id, at)), todos: db.todos },
            Ok((CREATED, token())),
        )
    }
}

/// What `login` answers.
pub open spec fn login_spec(db: DatabaseView, creds: CredentialsView) -> Result<
    Seq<char>,
    AppErrorView,
> {
    match first_named(db.users, creds.username) {
        None => Err(AppErrorView::UserNotFound),
        Some(user) => if user.password_hash == creds.password {
            Ok(token())
        } else {
            Err(AppErrorView::InvalidCredentials)
        },
    }
}

/// Stores a user with the submitted name and credential under the identifier
/// `id`, stamped with `at`. The handler itself does not look for the name: the
/// store refuses a row whose identifier or name is taken.
pub fn register_at(db: &mut Database, payload: RegisterUser, id: Id, at: Timestamp) -> (r: Result<
    (u16, AuthResponse),
    AppError,
>)
    requires
        old(db).wf(),
    ensures
        final(db).wf(),
        final(db)@ == register_spec(old(db)@, payload@, id, at).0,
        match r {
            Ok((code, a)) => register_spec(old(db)@, payload@, id, at).1 == Ok::<
                (u16, Seq<char>),
                AppErrorView,
            >((code, a@)),
            Err(e) => register_spec(old(db)@, payload@, id, at).1 == Err::<
                (u16, Seq<char>),
                AppErrorView,
            >(e@),
        },
{
    let user = User {
        id,
        username: payload.username,
        password_hash: payload.password,
        created_at: at,
    };
    if db.insert_user(user) {
        Ok((CREATED, AuthResponse { token: String::from_str("dummy-token") }))
    } else {
        Err(AppError::DatabaseError(String::from_str("UNIQUE constraint failed")))
    }
}

/// Registers a user under a random identifier, stamped with the current
/// time. The registration fails only if a stored user has the submitted name
/// or the identifier that was drawn, so it never fails on tables that hold no
/// user.
pub fn register(db: &mut Database, payload: RegisterUser) -> (r: Result<
    (u16, AuthResponse),
    AppError,
>)
    requires
        old(db).wf(),
    ensures
        final(db).wf(),
        final(db)@.todos == old(db)@.todos,
        match r {
            Ok((code, a)) => {
                &&& code == CREATED
                &&& a@ == token()
                &&& final(db)@.users.len() == old(db)@.users.len() + 1
                &&& final(db)@.users.drop_last() == old(db)@.users
                &&& final(db)@.users.last().username == payload@.username
                &&& final(db)@.users.last().password_hash == payload@.password
            },
            Err(e) => {
                &&& e@ == conflict()
                &&& final(db)@ == old(db)@
                &&& exists|id: Id| has_user(old(db)@.users, id, payload@.username)
            },
        },
{
    let id = random_id();
    let at = now();
    let r = register_at(db, payload, id, at);
    proof {
        if r is Ok {
            assert(final(db)@.users.drop_last() =~= old(db)@.users);
        } else {
            assert(has_user(old(db)@.users, id, payload@.username));
        }
    }
    r
}

/// Looks the user up by name and compares the submitted credential with the
/// stored one.
pub fn login(db: &Database, payload: LoginUser) -> (r: Result<AuthResponse, AppError>)
    ensures
        match r {
            Ok(a) => login_spec(db@, payload@) == Ok::<Seq<char>, AppErrorView>(a@),
            Err(e) => login_spec(db@, payload@) == Err::<Seq<char>, AppErrorView>(e@),
        },
{
    match db.user_by_name(payload.username.as_str()) {
        Some(user) => {
            if same_text(user.password_hash.as_str(), payload.password.as_str()) {
                Ok(AuthResponse { token: String::from_str("dummy-token") })
            } else {
                Err(AppError::InvalidCredentials)
            }
        },
        None => Err(AppError::UserNotFound),
    }
}

/// There is no session to end: always answers 200.
pub fn logout() -> (r: Result<u16, AppError>)
    ensures
        r == Ok::<u16, AppError>(OK),
{
    Ok(OK)
}

/// A login under a name that no stored user has fails with `UserNotFound`.
pub proof fn lemma_login_unknown_user(db: DatabaseView, creds: CredentialsView)
    requires
        forall|i: int| 0 <= i < db.users.len() ==> (#[trigger] db.users[i]).username
            != creds.username,
    ensures
        login_spec(db, creds) == Err::<Seq<char>, AppErrorView>(AppErrorView::UserNotFound),
{
    lemma_first_named_none(db.users, creds.username);
}

/// A login under the name of a stored user succeeds with the token if the
/// submitted credential is the stored one, and fails with
/// `InvalidCredentials` if it is not.
pub proof fn lemma_login_known_user(db: DatabaseView, creds: CredentialsView, i: int)
    requires
        db.wf(),
        0 <= i < db.users.len(),
        db.users[i].username == creds.username,
    ensures
        db.users[i].password_hash == creds.password ==> login_spec(db, creds) == Ok::<
            Seq<char>,
            AppErrorView,
        >(token()),
        db.users[i].password_hash != creds.password ==> login_spec(db, creds) == Err::<
            Seq<char>,
            AppErrorView,
        >(AppErrorView::InvalidCredentials),
{
    lemma_first_named_is(db.users, i);
}

/// A user who registered under a free name and identifier can log in with the
/// credential that was submitted.
pub proof fn lemma_register_then_login(
    db: DatabaseView,
    creds: CredentialsView,
    id: Id,
    at: Timestamp,
)
    requires
        db.wf(),
        !has_user(db.users, id, creds.username),
    ensures
        register_spec(db, creds, id, at).0.wf(),
        login_spec(register_spec(db, creds, id, at).0, creds) == Ok::<Seq<char>, AppErrorView>(
            token(),
        ),
{
    let after = register_spec(db, creds, id, at).0;
    let n = db.users.len() as int;
    assert(after.users[n] == new_user(creds, id, at));
    assert forall|a: int, b: int| 0 <= a < b < after.users.len() implies (
    #[trigger] after.users[a]).id != (#[trigger] after.users[b]).id && after.users[a].username
        != after.users[b].username by {
        if b < n {
            assert(db.users[a].id != db.users[b].id);
            assert(db.users[a].username != db.users[b].username);
        } else {
            assert(after.users[a] == db.users[a]);
        }
    }
    lemma_first_named_is(after.users, n);
}

} // verus!
