//! The frame around every page: what its header offers, and what logging out
//! does.
use vstd::prelude::*;
use vstd::string::*;
use crate::client::models::{AuthState, AuthStateView, User};
use crate::client::route::Route;

verus! {

pub enum NavigationView {
    Member(Seq<char>),
    Visitor,
    Loading,
}

/// What the header offers.
#[derive(Debug, PartialEq, Eq)]
pub enum Navigation {
    /// A link to the todos, the greeting that is carried here, and the button
    /// that logs out.
    Member(String),
    /// A link to the login page.
    Visitor,
    /// Nothing yet but a note that the page is loading.
    Loading,
}

impl View for Navigation {
    type V = NavigationView;

    open spec fn view(&self) -> NavigationView {
        match self {
            Navigation::Member(greeting) => NavigationView::Member(greeting@),
            Navigation::Visitor => NavigationView::Visitor,
            Navigation::Loading => NavigationView::Loading,
        }
    }
}

/// The header for each state: a user who is signed in is greeted by name,
/// while nothing is known the header waits, and anyone else is offered the
/// login.
pub open spec fn navigation_of(auth: AuthStateView) -> NavigationView {
    match auth {
        AuthStateView::Authenticated(user) => NavigationView::Member(
            "Welcome, "@ + user.username + "!"@,
        ),
        AuthStateView::Unknown => NavigationView::Loading,
        _ => NavigationView::Visitor,
    }
}

/// The state with which a page starts, given the user that was kept from the
/// last visit.
pub fn initial_auth(stored: Option<User>) -> (auth: AuthState)
    ensures
        auth@ == match stored {
            Some(user) => AuthStateView::Authenticated(user@),
            None => AuthStateView::Unauthenticated,
        },
{
    match stored {
        Some(user) => AuthState::Authenticated(user),
        None => AuthState::Unauthenticated,
    }
}

pub fn navigation(auth: &AuthState) -> (nav: Navigation)
    ensures
        nav@ == navigation_of(auth@),
{
    match auth {
        AuthState::Authenticated(user) => Navigation::Member(
            String::from_str("Welcome, ").concat(user.username.as_str()).concat("!"),
        ),
        AuthState::Unknown => Navigation::Loading,
        _ => Navigation::Visitor,
    }
}

/// Logs the user out, and says where to go next: to the home page.
pub fn logout(auth: &mut AuthState) -> (target: Route)
    ensures
        final(auth)@ == AuthStateView::Unauthenticated,
        target == Route::Home,
{
    *auth = AuthState::Unauthenticated;
    Route::Home
}

} // verus!
