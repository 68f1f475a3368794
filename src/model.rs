//! Todo records and their mathematical views.
use vstd::prelude::*;

verus! {

/// A todo item as it is stored: its id is assigned by the table on insert.
#[derive(Clone, Debug, PartialEq, Eq)]
pub struct Todo {
    pub id: i32,
    pub title: String,
    pub completed: bool,
}

/// The values for a row that has not been inserted yet.
#[derive(Clone, Debug, PartialEq, Eq)]
pub struct NewTodo {
    pub title: String,
    pub completed: bool,
}

/// What a todo item is, as a mathematical value.
pub struct TodoView {
    pub id: int,
    pub title: Seq<char>,
    pub completed: bool,
}

impl View for Todo {
    type V = TodoView;

    open spec fn view(&self) -> TodoView {
        TodoView { id: self.id as int, title: self.title@, completed: self.completed }
    }
}

impl TodoView {
    /// The row after a partial update: a field given as `None` is kept.
    pub open spec fn patched(self, completed: Option<bool>, title: Option<Seq<char>>) -> TodoView {
        TodoView {
            id: self.id,
            title: match title {
                Some(t) => t,
                None => self.title,
            },
            completed: match completed {
                Some(c) => c,
                None => self.completed,
            },
        }
    }
}

/// The view of an optional title.
pub open spec fn title_view(title: Option<String>) -> Option<Seq<char>> {
    match title {
        Some(t) => Some(t@),
        None => None,
    }
}

impl Todo {
    pub fn new(id: i32, title: String, completed: bool) -> (r: Todo)
        ensures
            r.id == id,
            r.title@ == title@,
            r.completed == completed,
    {
        Todo { id, title, completed }
    }

    /// A copy of this record, field for field.
    pub fn duplicate(&self) -> (r: Todo)
        ensures
            r@ == self@,
    {
        Todo { id: self.id, title: self.title.clone(), completed: self.completed }
    }
}

impl NewTodo {
    pub fn new(title: String, completed: bool) -> (r: NewTodo)
        ensures
            r.title@ == title@,
            r.completed == completed,
    {
        NewTodo { title, completed }
    }
}

} // verus!
