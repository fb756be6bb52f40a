//! The one place that knows who is signed in. A page is handed the context
//! and changes it only by logging in or out.
use vstd::prelude::*;
use crate::client::models::{AuthState, AuthStateView, User};

verus! {

#[derive(Debug)]
pub struct AuthContext {
    pub auth_state: AuthState,
}

impl View for AuthContext {
    type V = AuthStateView;

    open spec fn view(&self) -> AuthStateView {
        self.auth_state@
    }
}

impl AuthContext {
    /// The context at load: signed in as the user that was kept from the last
    /// visit, if there is one.
    pub fn new(stored: Option<User>) -> (ctx: AuthContext)
        ensures
            ctx@ == match stored {
                Some(user) => AuthStateView::Authenticated(user@),
                None => AuthStateView::Unknown,
            },
    {
        AuthContext {
            auth_state: match stored {
                Some(user) => AuthState::Authenticated(user),
                None => AuthState::Unknown,
            },
        }
    }

    /// Signs `user` in, given how keeping the user for the next visit went.
    /// If that failed, the failure is handed on and nobody is signed in.
    pub fn login(&mut self, user: User, saved: Result<(), String>) -> (r: Result<(), String>)
        ensures
            match saved {
                Ok(_) => r is Ok && final(self)@ == AuthStateView::Authenticated(user@),
                Err(e) => r == Err::<(), String>(e) && final(self)@ == old(self)@,
            },
    {
        match saved {
            Ok(_) => {
                self.auth_state = AuthState::Authenticated(user);
                Ok(())
            },
            Err(e) => Err(e),
        }
    }

    pub fn logout(&mut self)
        ensures
            final(self)@ == AuthStateView::Unknown,
    {
        self.auth_state = AuthState::Unknown;
    }

    pub fn is_authenticated(&self) -> (r: bool)
        ensures
            r == (self@ is Authenticated),
    {
        match &self.auth_state {
            AuthState::Authenticated(_) => true,
            _ => false,
        }
    }

    pub fn current_user(&self) -> (r: Option<User>)
        ensures
            match r {
                Some(user) => self@ == AuthStateView::Authenticated(user@),
                None => !(self@ is Authenticated),
            },
    {
        match &self.auth_state {
            AuthState::Authenticated(user) => Some(user.clone()),
            _ => None,
        }
    }
}

} // verus!
