//! The home page: where its button leads.
use vstd::prelude::*;
use crate::client::models::{AuthState, AuthStateView};
use crate::client::route::Route;

verus! {

/// Where the button leads: a user who is signed in goes to the todos, anyone
/// else to the login.
pub open spec fn target_of(auth: AuthStateView) -> Route {
    if auth is Authenticated {
        Route::TodoList
    } else {
        Route::Login
    }
}

pub fn get_started_target(auth: &AuthState) -> (target: Route)
    ensures
        target == target_of(auth@),
{
    match auth {
        AuthState::Authenticated(_) => Route::TodoList,
        _ => Route::Login,
    }
}

/// The text on the button.
pub fn call_to_action(auth: &AuthState) -> (s: &'static str)
    ensures
        s@ == if auth@ is Authenticated {
            "Go to My Todos"@
        } else {
            "Get Started"@
        },
{
    match auth {
        AuthState::Authenticated(_) => "Go to My Todos",
        _ => "Get Started",
    }
}

} // verus!
