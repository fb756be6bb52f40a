//! The list screen: which todos it shows, which of its three views is up, and
//! what it asks of the service.
use vstd::prelude::*;
use vstd::string::*;
use crate::client::models::{TodoForm, TodoFormView};
use crate::ident::Id;
use crate::models::{
    opt_text, todo_views, CreateTodo, CreateTodoView, Todo, TodoView, UpdateTodo, UpdateTodoView,
};

verus! {

/// Which todos of the fetched list are shown.
#[derive(Clone, Copy, Debug, PartialEq, Eq, Structural)]
pub enum FilterState {
    All,
    Active,
    Completed,
}

impl FilterState {
    /// Whether the filter lets a todo through.
    pub open spec fn admits(self, todo: TodoView) -> bool {
        match self {
            FilterState::All => true,
            FilterState::Active => !todo.completed,
            FilterState::Completed => todo.completed,
        }
    }

    pub fn matches(&self, todo: &Todo) -> (r: bool)
        ensures
            r == self.admits(todo@),
    {
        match self {
            FilterState::All => true,
            FilterState::Active => !todo.completed,
            FilterState::Completed => todo.completed,
        }
    }

    /// The text on the filter's button.
    pub fn label(&self) -> (s: &'static str)
        ensures
            s@ == match self {
                FilterState::All => "All"@,
                FilterState::Active => "Active"@,
                FilterState::Completed => "Completed"@,
            },
    {
        match self {
            FilterState::All => "All",
            FilterState::Active => "Active",
            FilterState::Completed => "Completed",
        }
    }
}

/// The todos of `todos` that the filter lets through, in their order.
pub open spec fn shown(todos: Seq<TodoView>, filter: FilterState) -> Seq<TodoView> {
    todos.filter(|t: TodoView| filter.admits(t))
}

/// Picks from a fetched list the todos that the filter lets through. The list
/// itself is all that is read.
pub fn filter_todos(todos: &Vec<Todo>, filter: FilterState) -> (r: Vec<Todo>)
    ensures
        todo_views(r@) == shown(todo_views(todos@), filter),
{
    let ghost all = todo_views(todos@);
    let ghost pred = |t: TodoView| filter.admits(t);
    let mut out: Vec<Todo> = Vec::new();
    let n: usize = todos.len();
    let mut i: usize = 0;
    proof {
        assert(all.take(0) =~= Seq::<TodoView>::empty());
        reveal(Seq::filter);
        assert(todo_views(out@) =~= all.take(0).filter(pred));
    }
    while i < n
        invariant
            n == todos@.len(),
            i <= n,
            all == todo_views(todos@),
            pred == (|t: TodoView| filter.admits(t)),
            todo_views(out@) == all.take(i as int).filter(pred),
        decreases n - i,
    {
        let ghost before = out@;
        proof {
            all.lemma_take_succ_push(i as int);
            all.take(i as int).lemma_filter_push(all[i as int], pred);
        }
        if filter.matches(&todos[i]) {
            out.push(todos[i].clone());
            proof {
                assert(todo_views(out@) =~= todo_views(before).push(all[i as int]));
            }
        }
        i += 1;
    }
    proof {
        all.lemma_take_len();
    }
    out
}

/// Under `All` the whole fetched list is shown, as it was fetched.
pub proof fn lemma_all_shows_everything(todos: Seq<TodoView>)
    ensures
        shown(todos, FilterState::All) == todos,
    decreases todos.len(),
{
    reveal(Seq::filter);
    if todos.len() > 0 {
        lemma_all_shows_everything(todos.drop_last());
        assert(todos.drop_last().push(todos.last()) =~= todos);
    }
}

/// What is shown under a filter is exactly what the filter lets through:
/// every shown todo comes from the list and passes, and every todo of the
/// list that passes is shown. Under `Active` these are the todos that are not
/// completed.
pub proof fn lemma_shown_exactly(todos: Seq<TodoView>, filter: FilterState)
    ensures
        forall|k: int|
            0 <= k < shown(todos, filter).len() ==> filter.admits(
                #[trigger] shown(todos, filter)[k],
            ) && todos.contains(shown(todos, filter)[k]),
        forall|i: int|
            0 <= i < todos.len() && filter.admits(#[trigger] todos[i]) ==> shown(
                todos,
                filter,
            ).contains(todos[i]),
        shown(todos, filter).len() <= todos.len(),
{
    let pred = |t: TodoView| filter.admits(t);
    broadcast use Seq::lemma_filter_len, Seq::lemma_filter_pred, Seq::lemma_filter_contains;
    assert forall|k: int| 0 <= k < shown(todos, filter).len() implies filter.admits(
        #[trigger] shown(todos, filter)[k],
    ) && todos.contains(shown(todos, filter)[k]) by {
        todos.lemma_filter_pred(pred, k);
        let x = todos.filter(pred)[k];
        assert(todos.filter(pred).contains(x));
        todos.lemma_filter_contains_rev(pred, x);
    }
    assert forall|i: int| 0 <= i < todos.len() && filter.admits(#[trigger] todos[i]) implies shown(
        todos,
        filter,
    ).contains(todos[i]) by {
        todos.lemma_filter_contains(pred, i);
    }
    todos.lemma_filter_len(pred);
}

/// Which of the three views of the screen is up.
#[derive(Clone, Copy, Debug, PartialEq, Eq, Structural)]
pub enum ViewState {
    List,
    AddForm,
    /// The form that edits the todo with this identifier.
    EditForm(Id),
}

/// What can move the screen from one view to another.
#[derive(Clone, Copy, Debug, PartialEq, Eq, Structural)]
pub enum ViewEvent {
    /// The user asks for the form that adds a todo.
    Add,
    /// The user asks for the form that edits this todo.
    Edit(Id),
    /// The user leaves the form.
    Cancel,
    /// The service has taken what the form submitted.
    Submitted,
}

impl ViewState {
    /// The view after an event. The list opens a form, and a form goes back
    /// to the list when it is left or when its submission went through;
    /// nothing else moves the screen.
    pub open spec fn after(self, event: ViewEvent) -> ViewState {
        match (self, event) {
            (ViewState::List, ViewEvent::Add) => ViewState::AddForm,
            (ViewState::List, ViewEvent::Edit(id)) => ViewState::EditForm(id),
            (ViewState::AddForm, ViewEvent::Cancel) => ViewState::List,
            (ViewState::AddForm, ViewEvent::Submitted) => ViewState::List,
            (ViewState::EditForm(_), ViewEvent::Cancel) => ViewState::List,
            (ViewState::EditForm(_), ViewEvent::Submitted) => ViewState::List,
            (state, _) => state,
        }
    }

    pub fn next(self, event: ViewEvent) -> (state: ViewState)
        ensures
            state == self.after(event),
    {
        match self {
            ViewState::List => match event {
                ViewEvent::Add => ViewState::AddForm,
                ViewEvent::Edit(id) => ViewState::EditForm(id),
                _ => self,
            },
            _ => match event {
                ViewEvent::Cancel => ViewState::List,
                ViewEvent::Submitted => ViewState::List,
                _ => self,
            },
        }
    }
}

/// The first todo of the list that has the identifier.
pub open spec fn first_with_id(todos: Seq<TodoView>, id: Id) -> Option<TodoView>
    decreases todos.len(),
{
    if todos.len() == 0 {
        None
    } else if todos[0].id == id {
        Some(todos[0])
    } else {
        first_with_id(todos.drop_first(), id)
    }
}

proof fn lemma_first_with_id_skip(todos: Seq<TodoView>, id: Id, n: int)
    requires
        0 <= n <= todos.len(),
        forall|j: int| 0 <= j < n ==> (#[trigger] todos[j]).id != id,
    ensures
        first_with_id(todos, id) == first_with_id(todos.subrange(n, todos.len() as int), id),
    decreases n,
{
    if n == 0 {
        assert(todos.subrange(0, todos.len() as int) =~= todos);
    } else {
        let rest = todos.drop_first();
        assert forall|j: int| 0 <= j < n - 1 implies (#[trigger] rest[j]).id != id by {
            assert(rest[j] == todos[j + 1]);
        }
        lemma_first_with_id_skip(rest, id, n - 1);
        assert(rest.subrange(n - 1, rest.len() as int) =~= todos.subrange(
            n,
            todos.len() as int,
        ));
    }
}

/// Looks a todo up in a fetched list.
pub fn find_todo(todos: &Vec<Todo>, id: Id) -> (r: Option<Todo>)
    ensures
        match r {
            Some(t) => first_with_id(todo_views(todos@), id) == Some(t@),
            None => first_with_id(todo_views(todos@), id) is None,
        },
{
    let ghost all = todo_views(todos@);
    let n: usize = todos.len();
    let mut i: usize = 0;
    while i < n
        invariant
            n == todos@.len(),
            i <= n,
            all == todo_views(todos@),
            forall|j: int| 0 <= j < i ==> (#[trigger] all[j]).id != id,
        decreases n - i,
    {
        if todos[i].id == id {
            proof {
                lemma_first_with_id_skip(all, id, i as int);
                assert(all.subrange(i as int, n as int)[0] == all[i as int]);
            }
            return Some(todos[i].clone());
        }
        i += 1;
    }
    proof {
        lemma_first_with_id_skip(all, id, n as int);
    }
    None
}

/// The description that a request carries for a draft: none when the draft's
/// description is empty.
pub open spec fn sent_description(description: Seq<char>) -> Option<Seq<char>> {
    if description.len() == 0 {
        None
    } else {
        Some(description)
    }
}

/// The body of the request that creates the drafted todo.
pub open spec fn add_body(form: TodoFormView) -> CreateTodoView {
    CreateTodoView {
        title: form.title,
        description: sent_description(form.description),
        priority: form.priority,
    }
}

/// The body of the request that brings a todo to what was drafted: the
/// completion flag is not part of it.
pub open spec fn update_body(form: TodoFormView) -> UpdateTodoView {
    UpdateTodoView {
        title: Some(form.title),
        description: sent_description(form.description),
        completed: None,
        priority: Some(form.priority),
    }
}

/// The body of the request that turns the completion flag of `todo` over:
/// nothing but the flag is part of it.
pub open spec fn toggle_body(todo: TodoView) -> UpdateTodoView {
    UpdateTodoView {
        title: None,
        description: None,
        completed: Some(!todo.completed),
        priority: None,
    }
}

/// The draft with which the form that edits `todo` opens.
pub open spec fn draft_of(todo: TodoView) -> TodoFormView {
    TodoFormView {
        id: Some(todo.id),
        title: todo.title,
        description: match todo.description {
            Some(d) => d,
            None => Seq::empty(),
        },
        priority: todo.priority,
    }
}

fn description_to_send(description: String) -> (r: Option<String>)
    ensures
        opt_text(r) == sent_description(description@),
{
    if description.as_str().is_empty() {
        None
    } else {
        Some(description)
    }
}

pub fn add_request(form: TodoForm) -> (body: CreateTodo)
    ensures
        body@ == add_body(form@),
{
    CreateTodo {
        title: form.title,
        description: description_to_send(form.description),
        priority: form.priority,
    }
}

pub fn update_request(form: TodoForm) -> (body: UpdateTodo)
    ensures
        body@ == update_body(form@),
{
    UpdateTodo {
        title: Some(form.title),
        description: description_to_send(form.description),
        completed: None,
        priority: Some(form.priority),
    }
}

pub fn edit_draft(todo: &Todo) -> (form: TodoForm)
    ensures
        form@ == draft_of(todo@),
{
    TodoForm {
        id: Some(todo.id),
        title: todo.title.clone(),
        description: match &todo.description {
            Some(d) => d.clone(),
            None => String::new(),
        },
        priority: todo.priority,
    }
}

pub enum FetchedView {
    Loading,
    Loaded(Seq<TodoView>),
    Failed(Seq<char>),
}

/// The snapshot of the service's list that the screen holds: not there yet,
/// there, or the reason why it could not be had.
#[derive(Debug, PartialEq, Eq)]
pub enum Fetched {
    Loading,
    Loaded(Vec<Todo>),
    Failed(String),
}

impl View for Fetched {
    type V = FetchedView;

    open spec fn view(&self) -> FetchedView {
        match self {
            Fetched::Loading => FetchedView::Loading,
            Fetched::Loaded(todos) => FetchedView::Loaded(todo_views(todos@)),
            Fetched::Failed(e) => FetchedView::Failed(e@),
        }
    }
}

pub struct TodoListView {
    pub todos: FetchedView,
    pub filter: FilterState,
    pub view: ViewState,
}

/// All that the list screen keeps between two events.
#[derive(Debug)]
pub struct TodoListState {
    pub todos: Fetched,
    pub filter: FilterState,
    pub view: ViewState,
}

impl View for TodoListState {
    type V = TodoListView;

    open spec fn view(&self) -> TodoListView {
        TodoListView { todos: self.todos@, filter: self.filter, view: self.view }
    }
}

pub enum ScreenView {
    Loading,
    LoadError(Seq<char>),
    Empty,
    Items(Seq<TodoView>),
    AddForm,
    EditForm(TodoFormView),
    EditMissing,
}

/// What the screen puts up.
#[derive(Debug, PartialEq, Eq)]
pub enum Screen {
    /// The list is on its way.
    Loading,
    /// The list could not be had; the text says why.
    LoadError(String),
    /// The filter lets no todo through.
    Empty,
    /// The todos that the filter lets through.
    Items(Vec<Todo>),
    /// The form for a new todo.
    AddForm,
    /// The form for an existing todo, opened with its draft.
    EditForm(TodoForm),
    /// The todo that was to be edited is not in the list.
    EditMissing,
}

impl View for Screen {
    type V = ScreenView;

    open spec fn view(&self) -> ScreenView {
        match self {
            Screen::Loading => ScreenView::Loading,
            Screen::LoadError(e) => ScreenView::LoadError(e@),
            Screen::Empty => ScreenView::Empty,
            Screen::Items(todos) => ScreenView::Items(todo_views(todos@)),
            Screen::AddForm => ScreenView::AddForm,
            Screen::EditForm(form) => ScreenView::EditForm(form@),
            Screen::EditMissing => ScreenView::EditMissing,
        }
    }
}

impl TodoListView {
    /// The todos that the screen lists: those of the snapshot that the filter
    /// lets through, and none while there is no snapshot.
    pub open spec fn listed(self) -> Seq<TodoView> {
        match self.todos {
            FetchedView::Loaded(todos) => shown(todos, self.filter),
            _ => Seq::empty(),
        }
    }

    /// What the screen puts up in this state.
    pub open spec fn screen(self) -> ScreenView {
        match self.view {
            ViewState::List => match self.todos {
                FetchedView::Loading => ScreenView::Loading,
                FetchedView::Failed(e) => ScreenView::LoadError("Error loading todos: "@ + e),
                FetchedView::Loaded(_) => if self.listed().len() == 0 {
                    ScreenView::Empty
                } else {
                    ScreenView::Items(self.listed())
                },
            },
            ViewState::AddForm => ScreenView::AddForm,
            ViewState::EditForm(id) => match self.todos {
                FetchedView::Loaded(todos) => match first_with_id(todos, id) {
                    Some(todo) => ScreenView::EditForm(draft_of(todo)),
                    None => ScreenView::EditMissing,
                },
                _ => ScreenView::Loading,
            },
        }
    }

    /// The request that turns the completion flag of the todo over, if the
    /// snapshot holds the todo.
    pub open spec fn toggle(self, id: Id) -> Option<UpdateTodoView> {
        match self.todos {
            FetchedView::Loaded(todos) => match first_with_id(todos, id) {
                Some(todo) => Some(toggle_body(todo)),
                None => None,
            },
            _ => None,
        }
    }
}

impl TodoListState {
    /// The screen as it opens: no snapshot yet, every todo to be shown, the
    /// list up.
    pub fn new() -> (s: TodoListState)
        ensures
            s@ == (TodoListView {
                todos: FetchedView::Loading,
                filter: FilterState::All,
                view: ViewState::List,
            }),
    {
        TodoListState { todos: Fetched::Loading, filter: FilterState::All, view: ViewState::List }
    }

    /// Takes the answer to a fetch as the new snapshot. Filter and view stay.
    pub fn fetched(&mut self, result: Result<Vec<Todo>, String>)
        ensures
            final(self)@.filter == old(self)@.filter,
            final(self)@.view == old(self)@.view,
            final(self)@.todos == match result {
                Ok(todos) => FetchedView::Loaded(todo_views(todos@)),
                Err(e) => FetchedView::Failed(e@),
            },
    {
        self.todos = match result {
            Ok(todos) => Fetched::Loaded(todos),
            Err(e) => Fetched::Failed(e),
        };
    }

    /// Selects a filter. The snapshot is not touched, and nothing is fetched.
    pub fn set_filter(&mut self, filter: FilterState)
        ensures
            final(self)@.filter == filter,
            final(self)@.todos == old(self)@.todos,
            final(self)@.view == old(self)@.view,
    {
        self.filter = filter;
    }

    /// Moves the screen as the event asks.
    pub fn on_view_event(&mut self, event: ViewEvent)
        ensures
            final(self)@.view == old(self)@.view.after(event),
            final(self)@.todos == old(self)@.todos,
            final(self)@.filter == old(self)@.filter,
    {
        self.view = self.view.next(event);
    }

    /// The todos that the screen lists.
    pub fn filtered_todos(&self) -> (r: Vec<Todo>)
        ensures
            todo_views(r@) == self@.listed(),
    {
        match &self.todos {
            Fetched::Loaded(todos) => filter_todos(todos, self.filter),
            _ => {
                let r: Vec<Todo> = Vec::new();
                proof {
                    assert(todo_views(r@) =~= Seq::<TodoView>::empty());
                }
                r
            },
        }
    }

    /// The request that turns the completion flag of a todo over. There is
    /// none when the snapshot does not hold the todo.
    pub fn toggle_request(&self, id: Id) -> (r: Option<UpdateTodo>)
        ensures
            match r {
                Some(body) => self@.toggle(id) == Some(body@),
                None => self@.toggle(id) is None,
            },
    {
        match &self.todos {
            Fetched::Loaded(todos) => match find_todo(todos, id) {
                Some(todo) => Some(
                    UpdateTodo {
                        title: None,
                        description: None,
                        completed: Some(!todo.completed),
                        priority: None,
                    },
                ),
                None => None,
            },
            _ => None,
        }
    }

    /// Takes note of how the request of a form ended, and says whether the
    /// list is to be fetched anew. A request that went through closes the
    /// form; one that failed leaves the screen as it is. The snapshot stays
    /// until the new list is there.
    pub fn submit_finished(&mut self, ok: bool) -> (refetch: bool)
        ensures
            refetch == ok,
            final(self)@.todos == old(self)@.todos,
            final(self)@.filter == old(self)@.filter,
            final(self)@.view == if ok {
                old(self)@.view.after(ViewEvent::Submitted)
            } else {
                old(self)@.view
            },
    {
        if ok {
            self.view = self.view.next(ViewEvent::Submitted);
        }
        ok
    }

    /// Takes note of how a deletion or a toggle ended, and says whether the
    /// list is to be fetched anew. The screen itself does not change: the
    /// snapshot stays until the new list is there.
    pub fn change_finished(&self, ok: bool) -> (refetch: bool)
        ensures
            refetch == ok,
    {
        ok
    }

    /// What the screen puts up.
    pub fn screen(&self) -> (r: Screen)
        ensures
            r@ == self@.screen(),
    {
        match self.view {
            ViewState::List => match &self.todos {
                Fetched::Loading => Screen::Loading,
                Fetched::Failed(e) => Screen::LoadError(
                    String::from_str("Error loading todos: ").concat(e.as_str()),
                ),
                Fetched::Loaded(_) => {
                    let listed = self.filtered_todos();
                    if listed.len() == 0 {
                        Screen::Empty
                    } else {
                        Screen::Items(listed)
                    }
                },
            },
            ViewState::AddForm => Screen::AddForm,
            ViewState::EditForm(id) => match &self.todos {
                Fetched::Loaded(todos) => match find_todo(todos, id) {
                    Some(todo) => Screen::EditForm(edit_draft(&todo)),
                    None => Screen::EditMissing,
                },
                _ => Screen::Loading,
            },
        }
    }
}

/// Selecting a filter and then `All` again shows the fetched list as it was
/// fetched: the filter reads the snapshot and never changes it.
pub proof fn lemma_filter_round_trip(state: TodoListView, filter: FilterState)
    ensures
        (TodoListView { filter, ..state }).todos == state.todos,
        (TodoListView { filter: FilterState::All, ..(TodoListView { filter, ..state }) }).listed()
            == match state.todos {
            FetchedView::Loaded(todos) => todos,
            _ => Seq::empty(),
        },
{
    match state.todos {
        FetchedView::Loaded(todos) => {
            lemma_all_shows_everything(todos);
        },
        _ => {},
    }
}

} // verus!
