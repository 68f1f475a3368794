//! Laws that relate the operations of the API to one another.
use vstd::prelude::*;
use crate::model::TodoView;
use crate::table::{TableModel, lemma_row_with_at};

verus! {

/// The table after one successful `add_todo` for each `(title, completed)`
/// pair of `adds`, in order.
pub open spec fn after_adds(m: TableModel, adds: Seq<(Seq<char>, bool)>) -> TableModel
    decreases adds.len(),
{
    if adds.len() == 0 {
        m
    } else {
        after_adds(m, adds.drop_last()).inserted(adds.last().0, adds.last().1)
    }
}

/// The rows that a run of adds creates on a table whose counter stands at
/// `first_id`: the k-th add gets id `first_id + k`.
pub open spec fn created_rows(first_id: int, adds: Seq<(Seq<char>, bool)>) -> Seq<TodoView> {
    Seq::new(
        adds.len(),
        |k: int| TodoView { id: first_id + k, title: adds[k].0, completed: adds[k].1 },
    )
}

/// After a run of adds that all succeed, listing the table gives the rows
/// that were there, then exactly the created items in the order they were
/// added, every id strictly above the one before: none missing, none twice.
pub proof fn lemma_adds_then_list(m: TableModel, adds: Seq<(Seq<char>, bool)>)
    requires
        m.wf(),
        m.next_id + adds.len() <= i32::MAX + 1,
    ensures
        after_adds(m, adds).wf(),
        after_adds(m, adds).rows == m.rows + created_rows(m.next_id, adds),
        after_adds(m, adds).next_id == m.next_id + adds.len(),
    decreases adds.len(),
{
    if adds.len() > 0 {
        let prev = adds.drop_last();
        lemma_adds_then_list(m, prev);
        let p = after_adds(m, prev);
        assert(p.can_insert());
        let q = p.inserted(adds.last().0, adds.last().1);
        assert(q.rows =~= m.rows + created_rows(m.next_id, adds));
    }
}

/// Starting from an empty table, a run of adds that all succeed lists
/// exactly what was added, in the order it was added.
pub proof fn lemma_adds_on_empty_table(first_id: int, adds: Seq<(Seq<char>, bool)>)
    requires
        1 <= first_id,
        first_id + adds.len() <= i32::MAX + 1,
    ensures
        after_adds(TableModel::empty(first_id), adds).rows == created_rows(first_id, adds),
{
    lemma_adds_then_list(TableModel::empty(first_id), adds);
    assert(TableModel::empty(first_id).rows + created_rows(first_id, adds) =~= created_rows(
        first_id,
        adds,
    ));
}

/// Setting only `completed` on a present row changes that field alone: the
/// row keeps its id and title, and every other row is untouched.
pub proof fn lemma_update_completed_only(m: TableModel, id: int, completed: bool)
    requires
        m.wf(),
        m.has_id(id),
    ensures
        m.updated(id, Some(completed), None).has_id(id),
        m.updated(id, Some(completed), None).row_with(id) == (TodoView {
            id,
            title: m.row_with(id).title,
            completed,
        }),
        forall|i: int|
            0 <= i < m.rows.len() && m.rows[i].id != id ==> #[trigger] m.updated(
                id,
                Some(completed),
                None,
            ).rows[i] == m.rows[i],
{
    let u = m.updated(id, Some(completed), None);
    let i = choose|i: int| 0 <= i < m.rows.len() && #[trigger] m.rows[i].id == id;
    lemma_row_with_at(m, i);
    assert(u.wf()) by {
        assert forall|k: int| 0 <= k < m.rows.len() implies #[trigger] u.rows[k].id == m.rows[k].id by {}
    }
    assert(u.rows[i].id == id);
    lemma_row_with_at(u, i);
}

/// An update that gives neither field leaves the table as it was.
pub proof fn lemma_update_nothing_is_noop(m: TableModel, id: int)
    ensures
        m.updated(id, None, None) == m,
{
    assert(m.updated(id, None, None).rows =~= m.rows);
}

/// Making the same update twice in a row gives the state after the first.
pub proof fn lemma_update_idempotent(
    m: TableModel,
    id: int,
    completed: Option<bool>,
    title: Option<Seq<char>>,
)
    ensures
        m.updated(id, completed, title).updated(id, completed, title) == m.updated(
            id,
            completed,
            title,
        ),
{
    let u = m.updated(id, completed, title);
    assert(u.updated(id, completed, title).rows =~= u.rows);
}

} // verus!
