//! The records that the client holds.
use vstd::prelude::*;
use crate::clock::Timestamp;
use crate::ident::Id;
pub use crate::models::{Priority, Todo};

verus! {

/// A signed-in user as a mathematical value.
pub struct UserView {
    pub id: Id,
    pub username: Seq<char>,
    pub email: Seq<char>,
    pub created_at: Timestamp,
}

/// The user as the client knows them.
#[derive(Debug, PartialEq, Eq)]
pub struct User {
    pub id: Id,
    pub username: String,
    pub email: String,
    pub created_at: Timestamp,
}

impl View for User {
    type V = UserView;

    open spec fn view(&self) -> UserView {
        UserView {
            id: self.id,
            username: self.username@,
            email: self.email@,
            created_at: self.created_at,
        }
    }
}

impl Clone for User {
    fn clone(&self) -> (r: User)
        ensures
            r@ == self@,
    {
        User {
            id: self.id,
            username: self.username.clone(),
            email: self.email.clone(),
            created_at: self.created_at,
        }
    }
}

pub enum AuthStateView {
    Unknown,
    Authenticated(UserView),
    Guest,
    Unauthenticated,
    Failed,
}

/// What the client believes about who is using it. Nothing here is checked by
/// the service.
#[derive(Debug, PartialEq, Eq)]
pub enum AuthState {
    /// Nothing is known yet.
    Unknown,
    Authenticated(User),
    Guest,
    /// No user is stored, or the user has logged out.
    Unauthenticated,
    /// The last login was refused.
    Failed,
}

impl View for AuthState {
    type V = AuthStateView;

    open spec fn view(&self) -> AuthStateView {
        match self {
            AuthState::Unknown => AuthStateView::Unknown,
            AuthState::Authenticated(u) => AuthStateView::Authenticated(u@),
            AuthState::Guest => AuthStateView::Guest,
            AuthState::Unauthenticated => AuthStateView::Unauthenticated,
            AuthState::Failed => AuthStateView::Failed,
        }
    }
}

impl Clone for AuthState {
    fn clone(&self) -> (r: AuthState)
        ensures
            r@ == self@,
    {
        match self {
            AuthState::Unknown => AuthState::Unknown,
            AuthState::Authenticated(u) => AuthState::Authenticated(u.clone()),
            AuthState::Guest => AuthState::Guest,
            AuthState::Unauthenticated => AuthState::Unauthenticated,
            AuthState::Failed => AuthState::Failed,
        }
    }
}

impl Default for AuthState {
    fn default() -> (s: AuthState)
        ensures
            s@ == AuthStateView::Unknown,
    {
        AuthState::Unknown
    }
}

pub struct CredentialsView {
    pub username: Seq<char>,
    pub password: Seq<char>,
}

/// The draft of the login form.
#[derive(Debug)]
pub struct LoginForm {
    pub username: String,
    pub password: String,
}

impl View for LoginForm {
    type V = CredentialsView;

    open spec fn view(&self) -> CredentialsView {
        CredentialsView { username: self.username@, password: self.password@ }
    }
}

impl Default for LoginForm {
    fn default() -> (f: LoginForm)
        ensures
            f@.username == Seq::<char>::empty(),
            f@.password == Seq::<char>::empty(),
    {
        LoginForm { username: String::new(), password: String::new() }
    }
}

impl Clone for LoginForm {
    fn clone(&self) -> (r: LoginForm)
        ensures
            r@ == self@,
    {
        LoginForm { username: self.username.clone(), password: self.password.clone() }
    }
}

/// What a login submits.
#[derive(Debug, PartialEq, Eq)]
pub struct Credentials {
    pub username: String,
    pub password: String,
}

impl View for Credentials {
    type V = CredentialsView;

    open spec fn view(&self) -> CredentialsView {
        CredentialsView { username: self.username@, password: self.password@ }
    }
}

impl Default for Credentials {
    fn default() -> (c: Credentials)
        ensures
            c@.username == Seq::<char>::empty(),
            c@.password == Seq::<char>::empty(),
    {
        Credentials { username: String::new(), password: String::new() }
    }
}

impl Clone for Credentials {
    fn clone(&self) -> (r: Credentials)
        ensures
            r@ == self@,
    {
        Credentials { username: self.username.clone(), password: self.password.clone() }
    }
}

pub struct TodoFormView {
    pub id: Option<Id>,
    pub title: Seq<char>,
    pub description: Seq<char>,
    pub priority: Priority,
}

/// The draft of a todo in the form: the identifier is there when an existing
/// todo is edited.
#[derive(Debug, PartialEq, Eq)]
pub struct TodoForm {
    pub id: Option<Id>,
    pub title: String,
    pub description: String,
    pub priority: Priority,
}

impl View for TodoForm {
    type V = TodoFormView;

    open spec fn view(&self) -> TodoFormView {
        TodoFormView {
            id: self.id,
            title: self.title@,
            description: self.description@,
            priority: self.priority,
        }
    }
}

impl TodoFormView {
    /// The empty draft.
    pub open spec fn empty() -> TodoFormView {
        TodoFormView {
            id: None,
            title: Seq::empty(),
            description: Seq::empty(),
            priority: Priority::Medium,
        }
    }
}

impl Default for TodoForm {
    fn default() -> (f: TodoForm)
        ensures
            f@ == TodoFormView::empty(),
    {
        TodoForm {
            id: None,
            title: String::new(),
            description: String::new(),
            priority: Priority::Medium,
        }
    }
}

impl Clone for TodoForm {
    fn clone(&self) -> (r: TodoForm)
        ensures
            r@ == self@,
    {
        TodoForm {
            id: self.id,
            title: self.title.clone(),
            description: self.description.clone(),
            priority: self.priority,
        }
    }
}

} // verus!
