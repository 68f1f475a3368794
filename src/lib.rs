//! A todo-list backend: the records, the table that stores them, and the
//! query and mutation operations that a GraphQL layer exposes over them.
use vstd::prelude::*;

pub mod model;
pub mod table;
pub mod schema;
pub mod routes;
pub mod lemmas;

verus! {

} // verus!
