//! One todo of the list: how its state shows.
use vstd::prelude::*;
use vstd::string::*;
use crate::clock::{display_time, format_time};
use crate::models::{Priority, Todo};

verus! {

/// The colours of the priority badge.
pub fn priority_color(priority: Priority) -> (class: &'static str)
    ensures
        class@ == match priority {
            Priority::High => "bg-red-100 text-red-800 border-red-200"@,
            Priority::Medium => "bg-yellow-100 text-yellow-800 border-yellow-200"@,
            Priority::Low => "bg-green-100 text-green-800 border-green-200"@,
        },
{
    match priority {
        Priority::High => "bg-red-100 text-red-800 border-red-200",
        Priority::Medium => "bg-yellow-100 text-yellow-800 border-yellow-200",
        Priority::Low => "bg-green-100 text-green-800 border-green-200",
    }
}

/// The background of the item: greyed once the todo is completed.
pub fn completed_styles(completed: bool) -> (class: &'static str)
    ensures
        class@ == if completed {
            "bg-gray-100 opacity-75"@
        } else {
            "bg-white"@
        },
{
    if completed {
        "bg-gray-100 opacity-75"
    } else {
        "bg-white"
    }
}

/// The style of the title: struck through once the todo is completed.
pub fn title_class(completed: bool) -> (class: &'static str)
    ensures
        class@ == if completed {
            "text-lg font-medium text-gray-500 line-through"@
        } else {
            "text-lg font-medium text-gray-900"@
        },
{
    if completed {
        "text-lg font-medium text-gray-500 line-through"
    } else {
        "text-lg font-medium text-gray-900"
    }
}

/// The style of the description: struck through once the todo is completed.
pub fn description_class(completed: bool) -> (class: &'static str)
    ensures
        class@ == if completed {
            "mt-1 text-sm text-gray-400 line-through"@
        } else {
            "mt-1 text-sm text-gray-600"@
        },
{
    if completed {
        "mt-1 text-sm text-gray-400 line-through"
    } else {
        "mt-1 text-sm text-gray-600"
    }
}

/// The instant of creation, as the item shows it.
pub fn created_text(todo: &Todo) -> (r: Option<String>)
    ensures
        match r {
            Some(text) => display_time(todo.created_at.secs, todo.created_at.nanos) == Some(
                text@,
            ),
            None => display_time(todo.created_at.secs, todo.created_at.nanos) is None,
        },
{
    format_time(todo.created_at)
}

/// Whether the item shows when the todo was last changed: only if it was
/// changed after it was created.
pub fn shows_update(todo: &Todo) -> (r: bool)
    ensures
        r == (todo.updated_at != todo.created_at),
{
    todo.updated_at != todo.created_at
}

/// The instant of the last change, as the item shows it; none where the item
/// does not show it.
pub fn updated_text(todo: &Todo) -> (r: Option<String>)
    ensures
        todo.updated_at == todo.created_at ==> r is None,
        todo.updated_at != todo.created_at ==> match r {
            Some(text) => display_time(todo.updated_at.secs, todo.updated_at.nanos) == Some(
                text@,
            ),
            None => display_time(todo.updated_at.secs, todo.updated_at.nanos) is None,
        },
{
    if shows_update(todo) {
        format_time(todo.updated_at)
    } else {
        None
    }
}

} // verus!
