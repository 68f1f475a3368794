//! The todo table: rows kept in ascending id order, with ids handed out by a
//! counter so that no id is ever assigned twice.
use vstd::prelude::*;
use crate::model::{NewTodo, Todo, TodoView, title_view};

verus! {

/// A failure of the table.
#[derive(Clone, Copy, Debug, PartialEq, Eq)]
pub enum DataAccessError {
    /// Every id that fits in an `i32` has been handed out.
    IdSpaceExhausted,
}

/// What a table holds: its rows in ascending id order, and the id that the
/// next insert will get.
pub struct TableModel {
    pub rows: Seq<TodoView>,
    pub next_id: int,
}

impl TableModel {
    /// The empty table whose first insert gets `first_id`.
    pub open spec fn empty(first_id: int) -> TableModel {
        TableModel { rows: Seq::empty(), next_id: first_id }
    }

    /// Ids are positive, strictly ascending along the rows, and all below the
    /// counter, which stays within one past the largest `i32`.
    pub open spec fn wf(self) -> bool {
        &&& 1 <= self.next_id <= i32::MAX + 1
        &&& forall|i: int, j: int|
            0 <= i < j < self.rows.len() ==> #[trigger] self.rows[i].id < #[trigger] self.rows[j].id
        &&& forall|i: int| 0 <= i < self.rows.len() ==> 1 <= #[trigger] self.rows[i].id < self.next_id
    }

    pub open spec fn has_id(self, id: int) -> bool {
        exists|i: int| 0 <= i < self.rows.len() && #[trigger] self.rows[i].id == id
    }

    /// The row with the given id (meaningful where `has_id(id)`).
    pub open spec fn row_with(self, id: int) -> TodoView {
        self.rows[choose|i: int| 0 <= i < self.rows.len() && #[trigger] self.rows[i].id == id]
    }

    /// An insert succeeds exactly while the counter is still an `i32`.
    pub open spec fn can_insert(self) -> bool {
        self.next_id <= i32::MAX
    }

    /// The table after inserting a row: it gets the counter's id and goes last.
    pub open spec fn inserted(self, title: Seq<char>, completed: bool) -> TableModel {
        TableModel {
            rows: self.rows.push(TodoView { id: self.next_id, title, completed }),
            next_id: self.next_id + 1,
        }
    }

    /// The table after a partial update of the row with the given id.
    pub open spec fn updated(self, id: int, completed: Option<bool>, title: Option<Seq<char>>) -> TableModel {
        TableModel {
            rows: self.rows.map_values(
                |r: TodoView| if r.id == id { r.patched(completed, title) } else { r },
            ),
            next_id: self.next_id,
        }
    }
}

/// An in-memory table of todo rows.
pub struct TodoTable {
    rows: Vec<Todo>,
    next_id: i64,
}

impl View for TodoTable {
    type V = TableModel;

    closed spec fn view(&self) -> TableModel {
        TableModel { rows: self.rows@.map_values(|t: Todo| t@), next_id: self.next_id as int }
    }
}

impl TodoTable {
    /// The table's rows and counter meet `TableModel::wf`.
    pub open spec fn wf(&self) -> bool {
        self@.wf()
    }

    /// An empty table whose ids start at 1.
    pub fn new() -> (r: TodoTable)
        ensures
            r.wf(),
            r@ == TableModel::empty(1),
    {
        let r = TodoTable { rows: Vec::new(), next_id: 1 };
        assert(r@.rows =~= Seq::<TodoView>::empty());
        r
    }

    /// An empty table whose first insert gets `first_id`.
    pub fn starting_at(first_id: i32) -> (r: TodoTable)
        requires
            first_id >= 1,
        ensures
            r.wf(),
            r@ == TableModel::empty(first_id as int),
    {
        let r = TodoTable { rows: Vec::new(), next_id: first_id as i64 };
        assert(r@.rows =~= Seq::<TodoView>::empty());
        r
    }

    /// Where the row with the given id stands, if there is one.
    fn position_of(&self, id: i32) -> (r: Option<usize>)
        requires
            self.wf(),
        ensures
            r is None <==> !self@.has_id(id as int),
            r matches Some(i) ==> i < self@.rows.len() && self@.rows[i as int].id == id,
    {
        let mut i: usize = 0;
        while i < self.rows.len()
            invariant
                i <= self.rows.len(),
                forall|k: int| 0 <= k < i ==> #[trigger] self@.rows[k].id != id,
            decreases self.rows.len() - i,
        {
            if self.rows[i].id == id {
                assert(self@.rows[i as int] == self.rows@[i as int]@);
                assert(self@.rows[i as int].id == id as int);
                assert(self@.has_id(id as int));
                return Some(i);
            }
            i = i + 1;
        }
        None
    }

    /// All rows, in ascending id order.
    pub fn list_all(&self) -> (r: Vec<Todo>)
        ensures
            r@.map_values(|t: Todo| t@) == self@.rows,
    {
        let mut out: Vec<Todo> = Vec::new();
        let mut i: usize = 0;
        while i < self.rows.len()
            invariant
                i <= self.rows.len(),
                out@.len() == i,
                forall|k: int| 0 <= k < i ==> #[trigger] out@[k]@ == self@.rows[k],
            decreases self.rows.len() - i,
        {
            let row = self.rows[i].duplicate();
            assert(row@ == self@.rows[i as int]);
            out.push(row);
            i = i + 1;
        }
        assert(out@.map_values(|t: Todo| t@) =~= self@.rows);
        out
    }

    /// The row with the given id, if there is one.
    pub fn fetch_by_id(&self, id: i32) -> (r: Option<Todo>)
        requires
            self.wf(),
        ensures
            r is Some <==> self@.has_id(id as int),
            r matches Some(t) ==> t@ == self@.row_with(id as int),
    {
        match self.position_of(id) {
            Some(i) => {
                proof {
                    lemma_row_with_at(self@, i as int);
                }
                Some(self.rows[i].duplicate())
            },
            None => None,
        }
    }

    /// Adds a row for `new` under the counter's id and reads it back.
    pub fn insert(&mut self, new: NewTodo) -> (r: Result<Todo, DataAccessError>)
        requires
            old(self).wf(),
        ensures
            final(self).wf(),
            match r {
                Ok(t) => {
                    &&& old(self)@.can_insert()
                    &&& final(self)@ == old(self)@.inserted(new.title@, new.completed)
                    &&& t@ == (TodoView { id: old(self)@.next_id, title: new.title@, completed: new.completed })
                    &&& final(self)@.row_with(t.id as int) == t@
                },
                Err(e) => {
                    &&& !old(self)@.can_insert()
                    &&& final(self)@ == old(self)@
                    &&& e == DataAccessError::IdSpaceExhausted
                },
            },
    {
        if self.next_id > i32::MAX as i64 {
            return Err(DataAccessError::IdSpaceExhausted);
        }
        let id = self.next_id as i32;
        let ghost before = self@;
        self.rows.push(Todo { id, title: new.title, completed: new.completed });
        self.next_id = self.next_id + 1;
        assert(self@.rows =~= before.rows.push(
            TodoView { id: before.next_id, title: new.title@, completed: new.completed },
        ));
        let last = self.rows.len() - 1;
        let t = self.rows[last].duplicate();
        assert(t@ == self@.rows[last as int]);
        proof {
            lemma_row_with_at(self@, last as int);
        }
        Ok(t)
    }

    /// Sets the fields that are given on the row with id `id`, and tells how
    /// many rows that touched.
    pub fn update_partial(&mut self, id: i32, completed: Option<bool>, title: Option<String>) -> (r: usize)
        requires
            old(self).wf(),
        ensures
            final(self).wf(),
            final(self)@ == old(self)@.updated(id as int, completed, title_view(title)),
            r == (if old(self)@.has_id(id as int) { 1usize } else { 0usize }),
    {
        let ghost before = self@;
        let ghost tv = title_view(title);
        match self.position_of(id) {
            None => {
                assert(before.updated(id as int, completed, tv).rows =~= before.rows);
                0
            },
            Some(i) => {
                let mut row = self.rows[i].duplicate();
                match completed {
                    Some(c) => {
                        row.completed = c;
                    },
                    None => {},
                }
                match title {
                    Some(t) => {
                        row.title = t;
                    },
                    None => {},
                }
                assert(row@ == before.rows[i as int].patched(completed, tv));
                self.rows.set(i, row);
                assert forall|k: int| 0 <= k < before.rows.len() && k != i implies
                    #[trigger] before.rows[k].id != id as int by {
                    if k < i {
                        assert(before.rows[k].id < before.rows[i as int].id);
                    } else {
                        assert(before.rows[i as int].id < before.rows[k].id);
                    }
                }
                assert(self@.rows =~= before.updated(id as int, completed, tv).rows);
                1
            },
        }
    }
}

/// In a well-formed table, the row with a row's id is that row.
pub proof fn lemma_row_with_at(m: TableModel, i: int)
    requires
        m.wf(),
        0 <= i < m.rows.len(),
    ensures
        m.has_id(m.rows[i].id),
        m.row_with(m.rows[i].id) == m.rows[i],
{
    let id = m.rows[i].id;
    assert(m.has_id(id));
    let j = choose|j: int| 0 <= j < m.rows.len() && #[trigger] m.rows[j].id == id;
    if j < i {
        assert(m.rows[j].id < m.rows[i].id);
    } else if i < j {
        assert(m.rows[i].id < m.rows[j].id);
    }
}

} // verus!
