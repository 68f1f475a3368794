use todo_api::model::{NewTodo, Todo};
use todo_api::routes::index;
use todo_api::schema::{Context, MutationRoot, QueryRoot};
use todo_api::table::{DataAccessError, TodoTable};

fn fresh_context() -> Context {
    Context::new(TodoTable::new())
}

fn todo(id: i32, title: &str, completed: bool) -> Todo {
    Todo::new(id, title.to_string(), completed)
}

#[test]
fn index_greets() {
    assert_eq!(index(), "Hello, world!");
}

#[test]
fn add_todo_returns_new_item_with_fresh_id() {
    let mut ctx = fresh_context();
    let first = MutationRoot.add_todo(&mut ctx, "Walk dog".to_string(), true).unwrap();
    let milk = MutationRoot.add_todo(&mut ctx, "Buy milk".to_string(), false).unwrap();
    assert_eq!(milk.title, "Buy milk");
    assert!(!milk.completed);
    assert_ne!(milk.id, first.id);
    assert_eq!(first.id, 1);
    assert_eq!(milk.id, 2);
}

#[test]
fn todo_items_lists_all_added_in_id_order() {
    let mut ctx = fresh_context();
    let titles = ["a", "b", "c", "d"];
    let mut expected = Vec::new();
    for (k, t) in titles.iter().enumerate() {
        let added = MutationRoot.add_todo(&mut ctx, t.to_string(), k % 2 == 0).unwrap();
        expected.push(added);
    }
    let items = QueryRoot.todo_items(&ctx);
    assert_eq!(items, expected);
    assert_eq!(items[0], todo(1, "a", true));
    assert_eq!(items[3], todo(4, "d", false));
    for w in items.windows(2) {
        assert!(w[0].id < w[1].id);
    }
}

#[test]
fn todo_items_on_empty_table() {
    let ctx = fresh_context();
    assert!(QueryRoot.todo_items(&ctx).is_empty());
}

#[test]
fn update_completed_keeps_title() {
    let mut ctx = fresh_context();
    let t = MutationRoot.add_todo(&mut ctx, "Buy milk".to_string(), false).unwrap();
    let other = MutationRoot.add_todo(&mut ctx, "Other".to_string(), false).unwrap();
    let r = MutationRoot.update_todo(&mut ctx, t.id, Some(true), None);
    assert_eq!(r, Some(todo(t.id, "Buy milk", true)));
    assert_eq!(QueryRoot.todo_items(&ctx), vec![todo(t.id, "Buy milk", true), other]);
}

#[test]
fn update_without_fields_returns_row_unchanged() {
    let mut ctx = fresh_context();
    let t = MutationRoot.add_todo(&mut ctx, "Read".to_string(), true).unwrap();
    let r = MutationRoot.update_todo(&mut ctx, t.id, None, None);
    assert_eq!(r, Some(t.clone()));
    assert_eq!(QueryRoot.todo_items(&ctx), vec![t]);
}

#[test]
fn update_title_only_and_both_fields() {
    let mut ctx = fresh_context();
    let t = MutationRoot.add_todo(&mut ctx, "Old".to_string(), false).unwrap();
    let r = MutationRoot.update_todo(&mut ctx, t.id, None, Some("New".to_string()));
    assert_eq!(r, Some(todo(t.id, "New", false)));
    let r = MutationRoot.update_todo(&mut ctx, t.id, Some(true), Some("Newer".to_string()));
    assert_eq!(r, Some(todo(t.id, "Newer", true)));
}

#[test]
fn update_missing_id_returns_none_and_changes_nothing() {
    let mut ctx = fresh_context();
    let t = MutationRoot.add_todo(&mut ctx, "Keep".to_string(), false).unwrap();
    let r = MutationRoot.update_todo(&mut ctx, 99, Some(true), Some("x".to_string()));
    assert_eq!(r, None);
    assert_eq!(QueryRoot.todo_items(&ctx), vec![t]);
}

#[test]
fn failed_add_leaves_table_unchanged() {
    let mut ctx = Context::new(TodoTable::starting_at(i32::MAX));
    let last = MutationRoot.add_todo(&mut ctx, "Last".to_string(), false).unwrap();
    assert_eq!(last.id, i32::MAX);
    let r = MutationRoot.add_todo(&mut ctx, "One too many".to_string(), true);
    assert_eq!(r, Err(DataAccessError::IdSpaceExhausted));
    assert_eq!(QueryRoot.todo_items(&ctx), vec![todo(i32::MAX, "Last", false)]);
}

#[test]
fn repeated_update_is_idempotent() {
    let mut ctx = fresh_context();
    let t = MutationRoot.add_todo(&mut ctx, "Twice".to_string(), false).unwrap();
    let first = MutationRoot.update_todo(&mut ctx, t.id, Some(true), None);
    let after_first = QueryRoot.todo_items(&ctx);
    let second = MutationRoot.update_todo(&mut ctx, t.id, Some(true), None);
    assert_eq!(first, second);
    assert_eq!(QueryRoot.todo_items(&ctx), after_first);
}

#[test]
fn table_data_access_functions() {
    let mut table = TodoTable::starting_at(10);
    let a = table.insert(NewTodo::new("x".to_string(), false)).unwrap();
    assert_eq!(a, todo(10, "x", false));
    assert_eq!(table.fetch_by_id(10), Some(todo(10, "x", false)));
    assert_eq!(table.fetch_by_id(11), None);
    assert_eq!(table.update_partial(10, Some(true), None), 1);
    assert_eq!(table.update_partial(11, Some(true), None), 0);
    assert_eq!(table.list_all(), vec![todo(10, "x", true)]);
}

#[test]
fn duplicate_copies_every_field() {
    let t = todo(5, "copy me", true);
    assert_eq!(t.duplicate(), t);
}
