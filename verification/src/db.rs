//! The two tables of the service, as a value that the handlers read and
//! change: the users in the order of their registration, and the todos by
//! their identifier.
use vstd::prelude::*;
use crate::ident::Id;
use crate::models::{Todo, TodoView, User, UserView};
use crate::text::same_text;

verus! {

/// The tables as a mathematical value.
pub struct DatabaseView {
    pub users: Seq<UserView>,
    pub todos: Map<Id, TodoView>,
}

impl DatabaseView {
    /// What holds of the tables at all times: every todo is filed under its
    /// own identifier, and no two users share an identifier or a name.
    pub open spec fn wf(self) -> bool {
        &&& forall|id: Id| self.todos.contains_key(id) ==> (#[trigger] self.todos[id]).id == id
        &&& forall|i: int, j: int|
            0 <= i < j < self.users.len() ==> (#[trigger] self.users[i]).id != (
            #[trigger] self.users[j]).id
        &&& forall|i: int, j: int|
            0 <= i < j < self.users.len() ==> (#[trigger] self.users[i]).username != (
            #[trigger] self.users[j]).username
    }
}

/// The first user of the table that goes by the given name.
pub open spec fn first_named(users: Seq<UserView>, name: Seq<char>) -> Option<UserView>
    decreases users.len(),
{
    if users.len() == 0 {
        None
    } else if users[0].username == name {
        Some(users[0])
    } else {
        first_named(users.drop_first(), name)
    }
}

/// Whether some user of the table has the given identifier or the given name.
pub open spec fn has_user(users: Seq<UserView>, id: Id, name: Seq<char>) -> bool {
    exists|i: int|
        0 <= i < users.len() && ((#[trigger] users[i]).id == id || users[i].username == name)
}

/// The tables. Their rows are reached only through the operations below,
/// which keep the identifiers and the user names distinct.
#[derive(Debug)]
pub struct Database {
    users: Vec<User>,
    todos: Vec<Todo>,
}

spec fn has_row(rows: Seq<Todo>, id: Id) -> bool {
    exists|i: int| 0 <= i < rows.len() && (#[trigger] rows[i]).id == id
}

spec fn row_index(rows: Seq<Todo>, id: Id) -> int {
    choose|i: int| 0 <= i < rows.len() && (#[trigger] rows[i]).id == id
}

spec fn distinct_rows(rows: Seq<Todo>) -> bool {
    forall|i: int, j: int|
        0 <= i < j < rows.len() ==> (#[trigger] rows[i]).id != (#[trigger] rows[j]).id
}

spec fn row_map(rows: Seq<Todo>) -> Map<Id, TodoView> {
    Map::new(|id: Id| has_row(rows, id), |id: Id| rows[row_index(rows, id)]@)
}

spec fn user_views(users: Seq<User>) -> Seq<UserView> {
    Seq::new(users.len(), |i: int| users[i]@)
}

proof fn lemma_row_index(rows: Seq<Todo>, i: int)
    requires
        distinct_rows(rows),
        0 <= i < rows.len(),
    ensures
        has_row(rows, rows[i].id),
        row_index(rows, rows[i].id) == i,
{
    let j = row_index(rows, rows[i].id);
    assert(0 <= j < rows.len() && rows[j].id == rows[i].id);
    if j < i {
        assert(rows[j].id != rows[i].id);
    } else if i < j {
        assert(rows[i].id != rows[j].id);
    }
}

proof fn lemma_first_named_prefix(users: Seq<UserView>, name: Seq<char>, n: int)
    requires
        0 <= n <= users.len(),
        forall|j: int| 0 <= j < n ==> (#[trigger] users[j]).username != name,
    ensures
        first_named(users, name) == first_named(users.subrange(n, users.len() as int), name),
    decreases n,
{
    if n == 0 {
        assert(users.subrange(0, users.len() as int) =~= users);
    } else {
        assert(users[0].username != name);
        let rest = users.drop_first();
        assert forall|j: int| 0 <= j < n - 1 implies (#[trigger] rest[j]).username != name by {
            assert(rest[j] == users[j + 1]);
        }
        lemma_first_named_prefix(rest, name, n - 1);
        assert(rest.subrange(n - 1, rest.len() as int) =~= users.subrange(
            n,
            users.len() as int,
        ));
    }
}

/// Where no user goes by the name, none is found.
pub proof fn lemma_first_named_none(users: Seq<UserView>, name: Seq<char>)
    requires
        forall|i: int| 0 <= i < users.len() ==> (#[trigger] users[i]).username != name,
    ensures
        first_named(users, name) is None,
{
    lemma_first_named_prefix(users, name, users.len() as int);
}

/// Where names are distinct, the user found by a name is the one that has it.
pub proof fn lemma_first_named_is(users: Seq<UserView>, i: int)
    requires
        0 <= i < users.len(),
        forall|a: int, b: int|
            0 <= a < b < users.len() ==> (#[trigger] users[a]).username != (
            #[trigger] users[b]).username,
    ensures
        first_named(users, users[i].username) == Some(users[i]),
{
    let name = users[i].username;
    assert forall|j: int| 0 <= j < i implies (#[trigger] users[j]).username != name by {
        assert(users[j].username != users[i].username);
    }
    lemma_first_named_prefix(users, name, i);
    assert(users.subrange(i, users.len() as int)[0] == users[i]);
}

impl View for Database {
    type V = DatabaseView;

    closed spec fn view(&self) -> DatabaseView {
        DatabaseView { users: user_views(self.users@), todos: row_map(self.todos@) }
    }
}

impl Database {
    /// The tables are well formed when no todo identifier is used twice, and
    /// no user identifier or user name.
    pub closed spec fn wf(&self) -> bool {
        &&& distinct_rows(self.todos@)
        &&& forall|i: int, j: int|
            0 <= i < j < self.users@.len() ==> (#[trigger] self.users@[i]).id != (
            #[trigger] self.users@[j]).id
        &&& forall|i: int, j: int|
            0 <= i < j < self.users@.len() ==> (#[trigger] self.users@[i]).username@ != (
            #[trigger] self.users@[j]).username@
    }

    /// Well-formed tables have a well-formed view.
    pub proof fn lemma_view_wf(&self)
        requires
            self.wf(),
        ensures
            self@.wf(),
    {
        assert forall|id: Id| self@.todos.contains_key(id) implies (#[trigger] self@.todos[id]).id
            == id by {
            let i = row_index(self.todos@, id);
            assert(self.todos@[i].id == id);
        }
        assert forall|i: int, j: int| 0 <= i < j < self@.users.len() implies (
        #[trigger] self@.users[i]).id != (#[trigger] self@.users[j]).id by {
            assert(self.users@[i].id != self.users@[j].id);
        }
        assert forall|i: int, j: int| 0 <= i < j < self@.users.len() implies (
        #[trigger] self@.users[i]).username != (#[trigger] self@.users[j]).username by {
            assert(self.users@[i].username@ != self.users@[j].username@);
        }
    }

    /// Two empty tables.
    pub fn new() -> (db: Database)
        ensures
            db.wf(),
            db@.users == Seq::<UserView>::empty(),
            db@.todos == Map::<Id, TodoView>::empty(),
    {
        let db = Database { users: Vec::new(), todos: Vec::new() };
        proof {
            assert(db@.users =~= Seq::<UserView>::empty());
            assert(db@.todos =~= Map::<Id, TodoView>::empty());
        }
        db
    }

    fn position(&self, id: Id) -> (r: Option<usize>)
        ensures
            match r {
                Some(i) => i < self.todos@.len() && self.todos@[i as int].id == id,
                None => !has_row(self.todos@, id),
            },
    {
        let n: usize = self.todos.len();
        let mut i: usize = 0;
        while i < n
            invariant
                n == self.todos@.len(),
                i <= n,
                forall|j: int| 0 <= j < i ==> (#[trigger] self.todos@[j]).id != id,
            decreases n - i,
        {
            if self.todos[i].id == id {
                return Some(i);
            }
            i += 1;
        }
        None
    }

    /// The todo with the given identifier.
    pub fn todo(&self, id: Id) -> (r: Option<Todo>)
        requires
            self.wf(),
        ensures
            match r {
                Some(t) => self@.todos.contains_key(id) && t@ == self@.todos[id],
                None => !self@.todos.contains_key(id),
            },
    {
        match self.position(id) {
            Some(i) => {
                proof {
                    lemma_row_index(self.todos@, i as int);
                }
                Some(self.todos[i].clone())
            },
            None => None,
        }
    }

    /// Stores a new todo, unless its identifier is taken. Says whether it was
    /// stored.
    pub fn insert_todo(&mut self, row: Todo) -> (stored: bool)
        requires
            old(self).wf(),
        ensures
            final(self).wf(),
            final(self)@.users == old(self)@.users,
            stored == !old(self)@.todos.contains_key(row.id),
            stored ==> final(self)@.todos == old(self)@.todos.insert(row.id, row@),
            !stored ==> final(self)@.todos == old(self)@.todos,
    {
        match self.position(row.id) {
            Some(_) => false,
            None => {
                let ghost before = self.todos@;
                let ghost added = row;
                self.todos.push(row);
                proof {
                    let after = self.todos@;
                    assert(after == before.push(added));
                    assert(distinct_rows(after)) by {
                        assert forall|i: int, j: int| 0 <= i < j < after.len() implies (
                        #[trigger] after[i]).id != (#[trigger] after[j]).id by {
                            if j < before.len() {
                                assert(before[i].id != before[j].id);
                            } else {
                                assert(after[i] == before[i]);
                            }
                        }
                    }
                    assert forall|id: Id| has_row(after, id) <==> (id == added.id || has_row(
                        before,
                        id,
                    )) by {
                        if has_row(after, id) {
                            let i = row_index(after, id);
                            if i < before.len() {
                                assert(before[i].id == id);
                            }
                        }
                        if has_row(before, id) {
                            let i = row_index(before, id);
                            assert(after[i].id == id);
                        }
                        if id == added.id {
                            assert(after[before.len() as int].id == id);
                        }
                    }
                    assert forall|id: Id| has_row(after, id) implies #[trigger] row_map(after)[id]
                        == row_map(before).insert(added.id, added@)[id] by {
                        let i = row_index(after, id);
                        lemma_row_index(after, i);
                        if i < before.len() {
                            assert(before[i] == after[i]);
                            lemma_row_index(before, i);
                        }
                    }
                    assert(row_map(after) =~= row_map(before).insert(added.id, added@));
                }
                true
            },
        }
    }

    /// Puts `row` in the place of the todo that has its identifier. Says
    /// whether there was one.
    pub fn replace_todo(&mut self, row: Todo) -> (found: bool)
        requires
            old(self).wf(),
        ensures
            final(self).wf(),
            final(self)@.users == old(self)@.users,
            found == old(self)@.todos.contains_key(row.id),
            found ==> final(self)@.todos == old(self)@.todos.insert(row.id, row@),
            !found ==> final(self)@.todos == old(self)@.todos,
    {
        match self.position(row.id) {
            None => false,
            Some(k) => {
                let ghost before = self.todos@;
                let ghost put = row;
                self.todos.set(k, row);
                proof {
                    let after = self.todos@;
                    assert(after == before.update(k as int, put));
                    assert forall|i: int| 0 <= i < after.len() implies (#[trigger] after[i]).id
                        == before[i].id by {}
                    assert(distinct_rows(after)) by {
                        assert forall|i: int, j: int| 0 <= i < j < after.len() implies (
                        #[trigger] after[i]).id != (#[trigger] after[j]).id by {
                            assert(before[i].id != before[j].id);
                        }
                    }
                    assert forall|id: Id| has_row(after, id) <==> has_row(before, id) by {
                        if has_row(after, id) {
                            let i = row_index(after, id);
                            assert(before[i].id == id);
                        }
                        if has_row(before, id) {
                            let i = row_index(before, id);
                            assert(after[i].id == id);
                        }
                    }
                    assert(has_row(before, put.id)) by {
                        assert(before[k as int].id == put.id);
                    }
                    assert forall|id: Id| has_row(after, id) implies #[trigger] row_map(after)[id]
                        == row_map(before).insert(put.id, put@)[id] by {
                        let i = row_index(after, id);
                        lemma_row_index(after, i);
                        lemma_row_index(before, i);
                    }
                    assert(row_map(after) =~= row_map(before).insert(put.id, put@));
                }
                true
            },
        }
    }

    /// Deletes the todo with the given identifier if `user` owns it. Returns
    /// the number of rows that went.
    pub fn remove_todo(&mut self, id: Id, user: Id) -> (rows_affected: u64)
        requires
            old(self).wf(),
        ensures
            final(self).wf(),
            final(self)@.users == old(self)@.users,
            rows_affected == if old(self)@.todos.contains_key(id) && old(self)@.todos[id].user_id
                == user {
                1u64
            } else {
                0u64
            },
            rows_affected == 1 ==> final(self)@.todos == old(self)@.todos.remove(id),
            rows_affected == 0 ==> final(self)@.todos == old(self)@.todos,
    {
        match self.position(id) {
            None => 0,
            Some(k) => {
                proof {
                    lemma_row_index(self.todos@, k as int);
                }
                if self.todos[k].user_id != user {
                    return 0;
                }
                let ghost before = self.todos@;
                self.todos.remove(k);
                proof {
                    let after = self.todos@;
                    assert(after == before.remove(k as int));
                    assert forall|i: int| 0 <= i < after.len() implies #[trigger] after[i] == (if i
                        < k {
                        before[i]
                    } else {
                        before[i + 1]
                    }) by {}
                    assert(distinct_rows(after)) by {
                        assert forall|i: int, j: int| 0 <= i < j < after.len() implies (
                        #[trigger] after[i]).id != (#[trigger] after[j]).id by {
                            let a = if i < k { i } else { i + 1 };
                            let b = if j < k { j } else { j + 1 };
                            assert(before[a].id != before[b].id);
                        }
                    }
                    assert forall|x: Id| has_row(after, x) <==> (x != id && has_row(
                        before,
                        x,
                    )) by {
                        if has_row(after, x) {
                            let i = row_index(after, x);
                            let a = if i < k { i } else { i + 1 };
                            assert(before[a].id == x);
                            if x == id {
                                lemma_row_index(before, a);
                            }
                        }
                        if x != id && has_row(before, x) {
                            let a = row_index(before, x);
                            let i = if a < k { a } else { a - 1 };
                            assert(after[i].id == x);
                        }
                    }
                    assert forall|x: Id| has_row(after, x) implies #[trigger] row_map(after)[x]
                        == row_map(before).remove(id)[x] by {
                        let i = row_index(after, x);
                        lemma_row_index(after, i);
                        let a = if i < k { i } else { i + 1 };
                        lemma_row_index(before, a);
                    }
                    assert(row_map(after) =~= row_map(before).remove(id));
                }
                1
            },
        }
    }

    /// The todos that `user` owns, each once.
    pub fn todos_of(&self, user: Id) -> (list: Vec<Todo>)
        requires
            self.wf(),
        ensures
            forall|k: int|
                0 <= k < list@.len() ==> {
                    &&& self@.todos.contains_key((#[trigger] list@[k]).id)
                    &&& self@.todos[list@[k].id] == list@[k]@
                    &&& list@[k].user_id == user
                },
            forall|id: Id|
                self@.todos.contains_key(id) && self@.todos[id].user_id == user ==> exists|k: int|
                    0 <= k < list@.len() && (#[trigger] list@[k]).id == id,
            forall|k: int, l: int|
                0 <= k < l < list@.len() ==> (#[trigger] list@[k]).id != (#[trigger] list@[l]).id,
    {
        let mut list: Vec<Todo> = Vec::new();
        let ghost mut from: Seq<int> = Seq::empty();
        let n: usize = self.todos.len();
        let mut i: usize = 0;
        while i < n
            invariant
                self.wf(),
                n == self.todos@.len(),
                i <= n,
                from.len() == list@.len(),
                forall|k: int|
                    0 <= k < list@.len() ==> 0 <= #[trigger] from[k] < i && list@[k]@
                        == self.todos@[from[k]]@ && list@[k].user_id == user,
                forall|k: int, l: int| 0 <= k < l < from.len() ==> from[k] < from[l],
                forall|j: int|
                    0 <= j < i && (#[trigger] self.todos@[j]).user_id == user ==> exists|k: int|
                        0 <= k < list@.len() && #[trigger] from[k] == j,
            decreases n - i,
        {
            if self.todos[i].user_id == user {
                let ghost had = from;
                list.push(self.todos[i].clone());
                proof {
                    from = from.push(i as int);
                    assert forall|j: int|
                        0 <= j < i + 1 && (#[trigger] self.todos@[j]).user_id
                            == user implies exists|k: int|
                        0 <= k < list@.len() && #[trigger] from[k] == j by {
                        if j < i {
                            let k = choose|k: int| 0 <= k < had.len() && #[trigger] had[k] == j;
                            assert(from[k] == j);
                        } else {
                            assert(from[had.len() as int] == j);
                        }
                    }
                }
            }
            i += 1;
        }
        proof {
            assert forall|k: int| 0 <= k < list@.len() implies {
                &&& self@.todos.contains_key((#[trigger] list@[k]).id)
                &&& self@.todos[list@[k].id] == list@[k]@
                &&& list@[k].user_id == user
            } by {
                lemma_row_index(self.todos@, from[k]);
            }
            assert forall|id: Id|
                self@.todos.contains_key(id) && self@.todos[id].user_id == user implies exists|
                k: int,
            |
                0 <= k < list@.len() && (#[trigger] list@[k]).id == id by {
                let j = row_index(self.todos@, id);
                lemma_row_index(self.todos@, j);
                let k = choose|k: int| 0 <= k < list@.len() && #[trigger] from[k] == j;
                assert(list@[k].id == id);
            }
            assert forall|k: int, l: int| 0 <= k < l < list@.len() implies (
            #[trigger] list@[k]).id != (#[trigger] list@[l]).id by {
                assert(from[k] < from[l]);
                assert(self.todos@[from[k]].id != self.todos@[from[l]].id);
            }
        }
        list
    }

    /// Stores a new user, unless the identifier or the name is taken. Says
    /// whether the user was stored.
    pub fn insert_user(&mut self, user: User) -> (stored: bool)
        requires
            old(self).wf(),
        ensures
            final(self).wf(),
            final(self)@.todos == old(self)@.todos,
            stored == !has_user(old(self)@.users, user.id, user.username@),
            stored ==> final(self)@.users == old(self)@.users.push(user@),
            !stored ==> final(self)@.users == old(self)@.users,
    {
        let n: usize = self.users.len();
        let mut i: usize = 0;
        while i < n
            invariant
                *self == *old(self),
                self.wf(),
                n == self.users@.len(),
                i <= n,
                forall|j: int|
                    0 <= j < i ==> (#[trigger] self.users@[j]).id != user.id && self.users@[j].username@
                        != user.username@,
            decreases n - i,
        {
            if self.users[i].id == user.id || same_text(
                self.users[i].username.as_str(),
                user.username.as_str(),
            ) {
                proof {
                    assert(self@.users[i as int].id == user.id || self@.users[i as int].username
                        == user.username@);
                }
                return false;
            }
            i += 1;
        }
        proof {
            assert(!has_user(self@.users, user.id, user.username@)) by {
                if has_user(self@.users, user.id, user.username@) {
                    let j = choose|j: int|
                        0 <= j < self@.users.len() && ((#[trigger] self@.users[j]).id == user.id
                            || self@.users[j].username == user.username@);
                    assert(self.users@[j].id == user.id || self.users@[j].username@
                        == user.username@);
                }
            }
        }
        let ghost before = self@.users;
        let ghost added = user@;
        self.users.push(user);
        proof {
            assert(self@.users =~= before.push(added));
        }
        true
    }

    /// The first user that goes by the given name.
    pub fn user_by_name(&self, name: &str) -> (r: Option<User>)
        ensures
            match r {
                Some(u) => first_named(self@.users, name@) == Some(u@),
                None => first_named(self@.users, name@) is None,
            },
    {
        let n: usize = self.users.len();
        let mut i: usize = 0;
        while i < n
            invariant
                n == self.users@.len(),
                i <= n,
                forall|j: int| 0 <= j < i ==> (#[trigger] self@.users[j]).username != name@,
            decreases n - i,
        {
            if same_text(self.users[i].username.as_str(), name) {
                proof {
                    lemma_first_named_prefix(self@.users, name@, i as int);
                    let rest = self@.users.subrange(i as int, n as int);
                    assert(rest[0] == self@.users[i as int]);
                }
                return Some(self.users[i].clone());
            }
            i += 1;
        }
        proof {
            lemma_first_named_prefix(self@.users, name@, n as int);
        }
        None
    }
}

} // verus!
