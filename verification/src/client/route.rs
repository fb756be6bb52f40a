//! The pages of the client.
use vstd::prelude::*;

verus! {

/// A page of the client.
#[derive(Clone, Copy, Debug, PartialEq, Eq, Structural)]
pub enum Route {
    Home,
    Login,
    TodoList,
}

impl Route {
    /// The path under which the page is reached.
    pub open spec fn path_of(self) -> Seq<char> {
        match self {
            Route::Home => "/"@,
            Route::Login => "/login"@,
            Route::TodoList => "/todos"@,
        }
    }

    pub fn path(&self) -> (p: &'static str)
        ensures
            p@ == self.path_of(),
    {
        match self {
            Route::Home => "/",
            Route::Login => "/login",
            Route::TodoList => "/todos",
        }
    }
}

} // verus!
