//! Two small owner-guarded contracts: a greeting and a task list.
//!
//! Each contract keeps one aggregate that only its owner may change. The
//! functions here take the aggregate as loaded from storage and return the
//! new aggregate (or change it in place) together with the response
//! attributes; persisting the result is left to the host glue.
pub mod error;
pub mod response;
pub mod hello_world;
pub mod todo_list;
