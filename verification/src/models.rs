//! The records that the service stores and the bodies of its requests.
use vstd::prelude::*;
use vstd::string::*;
use crate::clock::{now, Timestamp};
use crate::ident::{random_id, Id};
use crate::text::same_text;

verus! {

/// How urgent a todo is.
#[derive(Clone, Copy, Debug, PartialEq, Eq, Structural)]
pub enum Priority {
    Low,
    Medium,
    High,
}

impl Priority {
    /// The capitalised name, as the interface and the JSON bodies write it.
    pub open spec fn label(self) -> Seq<char> {
        match self {
            Priority::Low => "Low"@,
            Priority::Medium => "Medium"@,
            Priority::High => "High"@,
        }
    }

    /// The lower-case name, as the tables store it.
    pub open spec fn stored(self) -> Seq<char> {
        match self {
            Priority::Low => "low"@,
            Priority::Medium => "medium"@,
            Priority::High => "high"@,
        }
    }

    /// The priority that a stored name stands for, if it is one of the three.
    pub open spec fn of_stored(s: Seq<char>) -> Option<Priority> {
        if s == "low"@ {
            Some(Priority::Low)
        } else if s == "medium"@ {
            Some(Priority::Medium)
        } else if s == "high"@ {
            Some(Priority::High)
        } else {
            None
        }
    }

    /// The priority that a capitalised name stands for, if it is one of the
    /// three.
    pub open spec fn of_label(s: Seq<char>) -> Option<Priority> {
        if s == "Low"@ {
            Some(Priority::Low)
        } else if s == "Medium"@ {
            Some(Priority::Medium)
        } else if s == "High"@ {
            Some(Priority::High)
        } else {
            None
        }
    }

    pub fn as_str(&self) -> (s: &'static str)
        ensures
            s@ == self.label(),
    {
        match self {
            Priority::Low => "Low",
            Priority::Medium => "Medium",
            Priority::High => "High",
        }
    }

    /// The capitalised name as an owned string.
    pub fn to_string(&self) -> (s: String)
        ensures
            s@ == self.label(),
    {
        String::from_str(self.as_str())
    }

    pub fn as_db_str(&self) -> (s: &'static str)
        ensures
            s@ == self.stored(),
    {
        match self {
            Priority::Low => "low",
            Priority::Medium => "medium",
            Priority::High => "high",
        }
    }

    pub fn from_db_str(s: &str) -> (p: Option<Priority>)
        ensures
            p == Priority::of_stored(s@),
    {
        if same_text(s, "low") {
            Some(Priority::Low)
        } else if same_text(s, "medium") {
            Some(Priority::Medium)
        } else if same_text(s, "high") {
            Some(Priority::High)
        } else {
            None
        }
    }

    pub fn from_label(s: &str) -> (p: Option<Priority>)
        ensures
            p == Priority::of_label(s@),
    {
        if same_text(s, "Low") {
            Some(Priority::Low)
        } else if same_text(s, "Medium") {
            Some(Priority::Medium)
        } else if same_text(s, "High") {
            Some(Priority::High)
        } else {
            None
        }
    }

    /// Every priority is read back from its stored name and from its label.
    pub proof fn lemma_names_round_trip(p: Priority)
        ensures
            Priority::of_stored(p.stored()) == Some(p),
            Priority::of_label(p.label()) == Some(p),
    {
        reveal_strlit("low");
        reveal_strlit("medium");
        reveal_strlit("high");
        reveal_strlit("Low");
        reveal_strlit("Medium");
        reveal_strlit("High");
        assert("low"@.len() == 3 && "medium"@.len() == 6 && "high"@.len() == 4);
        assert("Low"@.len() == 3 && "Medium"@.len() == 6 && "High"@.len() == 4);
    }
}

impl Default for Priority {
    fn default() -> (p: Priority)
        ensures
            p == Priority::Medium,
    {
        Priority::Medium
    }
}

/// What an optional text holds.
pub open spec fn opt_text(o: Option<String>) -> Option<Seq<char>> {
    match o {
        Some(s) => Some(s@),
        None => None,
    }
}

pub fn clone_opt_text(o: &Option<String>) -> (r: Option<String>)
    ensures
        opt_text(r) == opt_text(*o),
{
    match o {
        Some(s) => Some(s.clone()),
        None => None,
    }
}

/// A todo as a mathematical value.
pub struct TodoView {
    pub id: Id,
    pub user_id: Id,
    pub title: Seq<char>,
    pub description: Option<Seq<char>>,
    pub completed: bool,
    pub priority: Priority,
    pub created_at: Timestamp,
    pub updated_at: Timestamp,
}

/// One item of a user's list.
#[derive(Debug, PartialEq, Eq)]
pub struct Todo {
    pub id: Id,
    pub user_id: Id,
    pub title: String,
    pub description: Option<String>,
    pub completed: bool,
    pub priority: Priority,
    pub created_at: Timestamp,
    pub updated_at: Timestamp,
}

impl View for Todo {
    type V = TodoView;

    open spec fn view(&self) -> TodoView {
        TodoView {
            id: self.id,
            user_id: self.user_id,
            title: self.title@,
            description: opt_text(self.description),
            completed: self.completed,
            priority: self.priority,
            created_at: self.created_at,
            updated_at: self.updated_at,
        }
    }
}

/// The todos of a list as mathematical values, in the order of the list.
pub open spec fn todo_views(todos: Seq<Todo>) -> Seq<TodoView> {
    todos.map_values(|t: Todo| t@)
}

impl Todo {
    /// A todo of `user_id` that is not completed, under a fresh random
    /// identifier and stamped once with the current time.
    pub fn new(user_id: Id, title: String, description: Option<String>, priority: Priority) -> (t:
        Todo)
        ensures
            t@.user_id == user_id,
            t@.title == title@,
            t@.description == opt_text(description),
            !t@.completed,
            t@.priority == priority,
            t@.created_at == t@.updated_at,
    {
        let at = now();
        Todo {
            id: random_id(),
            user_id,
            title,
            description,
            completed: false,
            created_at: at,
            updated_at: at,
            priority,
        }
    }

    /// Turns the completion flag over and stamps the todo with the current
    /// time. Nothing else changes.
    pub fn toggle_completed(&mut self)
        ensures
            final(self)@.completed == !old(self)@.completed,
            final(self)@.id == old(self)@.id,
            final(self)@.user_id == old(self)@.user_id,
            final(self)@.title == old(self)@.title,
            final(self)@.description == old(self)@.description,
            final(self)@.priority == old(self)@.priority,
            final(self)@.created_at == old(self)@.created_at,
    {
        self.completed = !self.completed;
        self.updated_at = now();
    }
}

impl Clone for Todo {
    fn clone(&self) -> (r: Todo)
        ensures
            r@ == self@,
    {
        Todo {
            id: self.id,
            user_id: self.user_id,
            title: self.title.clone(),
            description: clone_opt_text(&self.description),
            completed: self.completed,
            priority: self.priority,
            created_at: self.created_at,
            updated_at: self.updated_at,
        }
    }
}

/// A registered user as a mathematical value.
pub struct UserView {
    pub id: Id,
    pub username: Seq<char>,
    pub password_hash: Seq<char>,
    pub created_at: Timestamp,
}

/// A registered user. The credential is kept as it was submitted.
#[derive(Debug)]
pub struct User {
    pub id: Id,
    pub username: String,
    pub password_hash: String,
    pub created_at: Timestamp,
}

impl View for User {
    type V = UserView;

    open spec fn view(&self) -> UserView {
        UserView {
            id: self.id,
            username: self.username@,
            password_hash: self.password_hash@,
            created_at: self.created_at,
        }
    }
}

impl Clone for User {
    fn clone(&self) -> (r: User)
        ensures
            r@ == self@,
    {
        User {
            id: self.id,
            username: self.username.clone(),
            password_hash: self.password_hash.clone(),
            created_at: self.created_at,
        }
    }
}

pub struct CreateTodoView {
    pub title: Seq<char>,
    pub description: Option<Seq<char>>,
    pub priority: Priority,
}

/// The body of a request that creates a todo.
#[derive(Debug)]
pub struct CreateTodo {
    pub title: String,
    pub description: Option<String>,
    pub priority: Priority,
}

impl View for CreateTodo {
    type V = CreateTodoView;

    open spec fn view(&self) -> CreateTodoView {
        CreateTodoView {
            title: self.title@,
            description: opt_text(self.description),
            priority: self.priority,
        }
    }
}

pub struct UpdateTodoView {
    pub title: Option<Seq<char>>,
    pub description: Option<Seq<char>>,
    pub completed: Option<bool>,
    pub priority: Option<Priority>,
}

/// The body of a request that changes a todo: each field is optional, and a
/// field that is absent leaves the stored one as it is.
#[derive(Debug)]
pub struct UpdateTodo {
    pub title: Option<String>,
    pub description: Option<String>,
    pub completed: Option<bool>,
    pub priority: Option<Priority>,
}

impl View for UpdateTodo {
    type V = UpdateTodoView;

    open spec fn view(&self) -> UpdateTodoView {
        UpdateTodoView {
            title: opt_text(self.title),
            description: opt_text(self.description),
            completed: self.completed,
            priority: self.priority,
        }
    }
}

pub struct CredentialsView {
    pub username: Seq<char>,
    pub password: Seq<char>,
}

/// The body of a registration request.
#[derive(Debug)]
pub struct RegisterUser {
    pub username: String,
    pub password: String,
}

impl View for RegisterUser {
    type V = CredentialsView;

    open spec fn view(&self) -> CredentialsView {
        CredentialsView { username: self.username@, password: self.password@ }
    }
}

/// The body of a login request.
#[derive(Debug)]
pub struct LoginUser {
    pub username: String,
    pub password: String,
}

impl View for LoginUser {
    type V = CredentialsView;

    open spec fn view(&self) -> CredentialsView {
        CredentialsView { username: self.username@, password: self.password@ }
    }
}

/// What a successful registration or login answers with.
#[derive(Debug)]
pub struct AuthResponse {
    pub token: String,
}

impl View for AuthResponse {
    type V = Seq<char>;

    open spec fn view(&self) -> Seq<char> {
        self.token@
    }
}

} // verus!
