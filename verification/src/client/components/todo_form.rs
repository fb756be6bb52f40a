//! The form that drafts a todo: it checks the title as it is typed, and lets
//! a draft go only when the title passes.
use vstd::prelude::*;
use vstd::string::*;
use crate::client::models::{TodoForm, TodoFormView};
use crate::client::utils::{title_error, valid_title, validate_todo_title};
use crate::models::{opt_text, Priority};
use crate::text::is_blank;

verus! {

pub struct TodoFormStateView {
    pub form: TodoFormView,
    pub title_error: Option<Seq<char>>,
    pub is_submitting: bool,
}

/// All that the form keeps between two events.
#[derive(Debug)]
pub struct TodoFormState {
    pub form: TodoForm,
    /// What is wrong with the title, shown under the field.
    pub title_error: Option<String>,
    /// Whether a submission is under way.
    pub is_submitting: bool,
}

impl View for TodoFormState {
    type V = TodoFormStateView;

    open spec fn view(&self) -> TodoFormStateView {
        TodoFormStateView {
            form: self.form@,
            title_error: opt_text(self.title_error),
            is_submitting: self.is_submitting,
        }
    }
}

/// The priority that the chosen option of the form stands for: one of the
/// three names, and `Medium` for anything else.
pub open spec fn chosen_priority(value: Seq<char>) -> Priority {
    match Priority::of_label(value) {
        Some(p) => p,
        None => Priority::Medium,
    }
}

/// What keeps a title from being submitted, if anything.
pub open spec fn submit_error(title: Seq<char>) -> Option<Seq<char>> {
    if title.len() == 0 {
        Some("Title is required"@)
    } else {
        title_error(title)
    }
}

/// The heading of the form.
pub fn heading(editing: bool) -> (s: &'static str)
    ensures
        s@ == if editing {
            "Edit Todo"@
        } else {
            "Add New Todo"@
        },
{
    if editing {
        "Edit Todo"
    } else {
        "Add New Todo"
    }
}

impl TodoFormState {
    /// The form as it opens: with the given draft, or with the empty one.
    pub fn new(initial_form: Option<TodoForm>) -> (s: TodoFormState)
        ensures
            s@.form == match initial_form {
                Some(form) => form@,
                None => TodoFormView::empty(),
            },
            s@.title_error is None,
            !s@.is_submitting,
    {
        TodoFormState {
            form: match initial_form {
                Some(form) => form,
                None => TodoForm::default(),
            },
            title_error: None,
            is_submitting: false,
        }
    }

    /// Takes what was typed as the title and checks it at once.
    pub fn set_title(&mut self, value: String)
        ensures
            final(self)@.form == (TodoFormView { title: value@, ..old(self)@.form }),
            final(self)@.title_error == title_error(value@),
            final(self)@.is_submitting == old(self)@.is_submitting,
    {
        self.title_error = match validate_todo_title(value.as_str()) {
            Ok(_) => None,
            Err(e) => Some(e),
        };
        self.form.title = value;
    }

    pub fn set_description(&mut self, value: String)
        ensures
            final(self)@ == (TodoFormStateView {
                form: TodoFormView { description: value@, ..old(self)@.form },
                ..old(self)@
            }),
    {
        self.form.description = value;
    }

    /// Takes the chosen option as the priority.
    pub fn set_priority(&mut self, value: &str)
        ensures
            final(self)@ == (TodoFormStateView {
                form: TodoFormView { priority: chosen_priority(value@), ..old(self)@.form },
                ..old(self)@
            }),
    {
        self.form.priority = match Priority::from_label(value) {
            Some(p) => p,
            None => Priority::Medium,
        };
    }

    /// Checks the draft before it is submitted, and notes what is wrong with
    /// the title. Says whether the draft may go.
    pub fn validate_form(&mut self) -> (valid: bool)
        ensures
            valid == valid_title(old(self)@.form.title),
            final(self)@.title_error == submit_error(old(self)@.form.title),
            valid == (final(self)@.title_error is None),
            final(self)@.form == old(self)@.form,
            final(self)@.is_submitting == old(self)@.is_submitting,
    {
        proof {
            if self@.form.title.len() == 0 {
                assert(is_blank(self@.form.title));
            }
        }
        if self.form.title.as_str().is_empty() {
            self.title_error = Some(String::from_str("Title is required"));
            false
        } else {
            match validate_todo_title(self.form.title.as_str()) {
                Ok(_) => {
                    self.title_error = None;
                    true
                },
                Err(e) => {
                    self.title_error = Some(e);
                    false
                },
            }
        }
    }

    /// Starts a submission. The draft is handed out only if its title passes
    /// and no submission is under way; otherwise nothing is submitted, and a
    /// title that does not pass leaves its error on the form.
    pub fn begin_submit(&mut self) -> (r: Option<TodoForm>)
        ensures
            r is Some <==> valid_title(old(self)@.form.title) && !old(self)@.is_submitting,
            r matches Some(draft) ==> draft@ == old(self)@.form,
            final(self)@.form == old(self)@.form,
            final(self)@.title_error == submit_error(old(self)@.form.title),
            !valid_title(old(self)@.form.title) ==> final(self)@.title_error is Some,
            final(self)@.is_submitting == (old(self)@.is_submitting || r is Some),
    {
        let valid = self.validate_form();
        if !valid || self.is_submitting {
            return None;
        }
        self.is_submitting = true;
        Some(self.form.clone())
    }

    /// Ends the submission that is under way and clears the draft.
    pub fn finish_submit(&mut self)
        ensures
            final(self)@.form == TodoFormView::empty(),
            !final(self)@.is_submitting,
            final(self)@.title_error == old(self)@.title_error,
    {
        self.is_submitting = false;
        self.form = TodoForm::default();
    }

    /// The text on the button that submits.
    pub fn submit_label(&self, submit_text: &str) -> (s: String)
        ensures
            s@ == if self@.is_submitting {
                "Saving..."@
            } else {
                submit_text@
            },
    {
        if self.is_submitting {
            String::from_str("Saving...")
        } else {
            String::from_str(submit_text)
        }
    }
}

} // verus!
