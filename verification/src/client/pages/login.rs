//! The login page: the draft of the credentials, and what the answer of the
//! service does to the client.
use vstd::prelude::*;
use vstd::string::*;
use crate::client::models::{
    AuthState, AuthStateView, Credentials, CredentialsView, LoginForm, User,
};
use crate::client::route::Route;
use crate::models::opt_text;

verus! {

pub struct LoginPageView {
    pub form: CredentialsView,
    pub creds: CredentialsView,
    pub error_message: Option<Seq<char>>,
    pub is_submitting: bool,
}

/// All that the login page keeps between two events.
#[derive(Debug)]
pub struct LoginPageState {
    pub form: LoginForm,
    /// What was last submitted.
    pub creds: Credentials,
    /// Why the last login failed, shown above the button.
    pub error_message: Option<String>,
    pub is_submitting: bool,
}

impl View for LoginPageState {
    type V = LoginPageView;

    open spec fn view(&self) -> LoginPageView {
        LoginPageView {
            form: self.form@,
            creds: self.creds@,
            error_message: opt_text(self.error_message),
            is_submitting: self.is_submitting,
        }
    }
}

impl LoginPageState {
    /// The page as it opens: empty fields, no error, nothing under way.
    pub fn new() -> (s: LoginPageState)
        ensures
            s@.form.username.len() == 0,
            s@.form.password.len() == 0,
            s@.creds.username.len() == 0,
            s@.creds.password.len() == 0,
            s@.error_message is None,
            !s@.is_submitting,
    {
        LoginPageState {
            form: LoginForm::default(),
            creds: Credentials::default(),
            error_message: None,
            is_submitting: false,
        }
    }

    pub fn set_username(&mut self, value: String)
        ensures
            final(self)@ == (LoginPageView {
                form: CredentialsView { username: value@, ..old(self)@.form },
                ..old(self)@
            }),
    {
        self.form.username = value;
    }

    pub fn set_password(&mut self, value: String)
        ensures
            final(self)@ == (LoginPageView {
                form: CredentialsView { password: value@, ..old(self)@.form },
                ..old(self)@
            }),
    {
        self.form.password = value;
    }

    /// Starts a login: what the form holds becomes the credentials, which are
    /// handed out to be sent.
    pub fn submit(&mut self) -> (creds: Credentials)
        ensures
            creds@ == old(self)@.form,
            final(self)@ == (LoginPageView {
                creds: old(self)@.form,
                is_submitting: true,
                ..old(self)@
            }),
    {
        self.creds.username = self.form.username.clone();
        self.creds.password = self.form.password.clone();
        self.is_submitting = true;
        self.creds.clone()
    }

    /// Takes the answer to a login. A user signs the client in and leads to
    /// the todos. A refusal, whatever its reason, leaves the client in the
    /// failed state, on this page, with the reason shown.
    pub fn finish(&mut self, auth: &mut AuthState, result: Result<User, String>) -> (target: Option<
        Route,
    >)
        ensures
            final(self)@.form == old(self)@.form,
            final(self)@.creds == old(self)@.creds,
            !final(self)@.is_submitting,
            match result {
                Ok(user) => {
                    &&& final(auth)@ == AuthStateView::Authenticated(user@)
                    &&& target == Some(Route::TodoList)
                    &&& final(self)@.error_message is None
                },
                Err(e) => {
                    &&& final(auth)@ == AuthStateView::Failed
                    &&& target is None
                    &&& final(self)@.error_message == Some(e@)
                },
            },
    {
        self.is_submitting = false;
        match result {
            Ok(user) => {
                *auth = AuthState::Authenticated(user);
                self.error_message = None;
                Some(Route::TodoList)
            },
            Err(e) => {
                *auth = AuthState::Failed;
                self.error_message = Some(e);
                None
            },
        }
    }

    /// The text on the button that submits.
    pub fn submit_label(&self) -> (s: &'static str)
        ensures
            s@ == if self@.is_submitting {
                "Signing in..."@
            } else {
                "Sign In"@
            },
    {
        if self.is_submitting {
            "Signing in..."
        } else {
            "Sign In"
        }
    }
}

} // verus!
