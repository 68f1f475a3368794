//! The operations that the API exposes: `todoItems` as a query, `addTodo` and
//! `updateTodo` as mutations, each run against the request's table handle.
use vstd::prelude::*;
use crate::model::{NewTodo, Todo, TodoView, title_view};
use crate::table::{DataAccessError, TableModel, TodoTable, lemma_row_with_at};

verus! {

/// The state that every operation of one request shares.
pub struct Context {
    pub connection: TodoTable,
}

impl Context {
    pub open spec fn wf(&self) -> bool {
        self.connection.wf()
    }

    pub fn new(connection: TodoTable) -> (r: Context)
        ensures
            r.connection == connection,
    {
        Context { connection }
    }
}

/// The read operations.
pub struct QueryRoot;

/// The write operations.
pub struct MutationRoot;

impl QueryRoot {
    /// Every todo item, in ascending id order.
    pub fn todo_items(&self, context: &Context) -> (r: Vec<Todo>)
        ensures
            r@.map_values(|t: Todo| t@) == context.connection@.rows,
    {
        context.connection.list_all()
    }
}

impl MutationRoot {
    /// Creates a todo item and returns it with the id it was given.
    ///
    /// The insert and the read-back form one step on the table: on failure
    /// the table is left as it was.
    pub fn add_todo(
        &self,
        context: &mut Context,
        title: String,
        completed: bool,
    ) -> (r: Result<Todo, DataAccessError>)
        requires
            old(context).wf(),
        ensures
            final(context).wf(),
            match r {
                Ok(t) => {
                    &&& old(context).connection@.can_insert()
                    &&& final(context).connection@ == old(context).connection@.inserted(title@, completed)
                    &&& t@ == (TodoView { id: old(context).connection@.next_id, title: title@, completed })
                    &&& !old(context).connection@.has_id(t.id as int)
                    &&& final(context).connection@.has_id(t.id as int)
                    &&& final(context).connection@.row_with(t.id as int) == t@
                },
                Err(e) => {
                    &&& !old(context).connection@.can_insert()
                    &&& final(context).connection@ == old(context).connection@
                    &&& e == DataAccessError::IdSpaceExhausted
                },
            },
    {
        let new_todo = NewTodo::new(title, completed);
        let r = context.connection.insert(new_todo);
        proof {
            if r is Ok {
                let m = context.connection@;
                lemma_row_with_at(m, m.rows.len() - 1);
            }
        }
        r
    }

    /// Sets `completed` and `title` where they are given on the item with
    /// id `id`, and returns that item as it now stands; `None` where no item
    /// has that id, in which case nothing changes.
    pub fn update_todo(
        &self,
        context: &mut Context,
        id: i32,
        completed: Option<bool>,
        title: Option<String>,
    ) -> (r: Option<Todo>)
        requires
            old(context).wf(),
        ensures
            final(context).wf(),
            final(context).connection@ == old(context).connection@.updated(
                id as int,
                completed,
                title_view(title),
            ),
            r is Some <==> old(context).connection@.has_id(id as int),
            r matches Some(t) ==> t@ == old(context).connection@.row_with(id as int).patched(
                completed,
                title_view(title),
            ),
            !old(context).connection@.has_id(id as int) ==> final(context).connection@
                == old(context).connection@,
    {
        let ghost before = context.connection@;
        let ghost tv = title_view(title);
        let updated = context.connection.update_partial(id, completed, title);
        if updated == 0 {
            proof {
                lemma_update_missing_is_noop(before, id as int, completed, tv);
            }
            None
        } else {
            let r = context.connection.fetch_by_id(id);
            proof {
                lemma_updated_row(before, id as int, completed, tv);
            }
            r
        }
    }
}

/// Updating an id that no row has leaves the table as it was.
pub proof fn lemma_update_missing_is_noop(
    m: TableModel,
    id: int,
    completed: Option<bool>,
    title: Option<Seq<char>>,
)
    requires
        !m.has_id(id),
    ensures
        m.updated(id, completed, title) == m,
{
    assert(m.updated(id, completed, title).rows =~= m.rows);
}

/// After an update, the table still has the row, and it is the old row
/// patched with the given fields.
pub proof fn lemma_updated_row(m: TableModel, id: int, completed: Option<bool>, title: Option<Seq<char>>)
    requires
        m.wf(),
    ensures
        m.updated(id, completed, title).wf(),
        m.updated(id, completed, title).has_id(id) == m.has_id(id),
        m.has_id(id) ==> m.updated(id, completed, title).row_with(id) == m.row_with(id).patched(
            completed,
            title,
        ),
{
    let u = m.updated(id, completed, title);
    assert forall|i: int| 0 <= i < m.rows.len() implies #[trigger] u.rows[i].id == m.rows[i].id by {}
    if m.has_id(id) {
        let i = choose|i: int| 0 <= i < m.rows.len() && #[trigger] m.rows[i].id == id;
        assert(u.rows[i].id == id);
        lemma_row_with_at(m, i);
        lemma_row_with_at(u, i);
    } else {
        if u.has_id(id) {
            let i = choose|i: int| 0 <= i < u.rows.len() && #[trigger] u.rows[i].id == id;
            assert(m.rows[i].id == id);
        }
    }
}

} // verus!
