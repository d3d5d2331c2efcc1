use vstd::prelude::*;

use crate::todo_list::state::{Task, TaskView};

verus! {

/// The message that creates a task list with its first task.
#[derive(Clone, Debug, PartialEq, Eq)]
pub struct InstantiateMsg {
    pub name: String,
    pub descripton: String,
}

/// The commands that change a task list; each is for the owner alone.
#[derive(Clone, Debug, PartialEq, Eq)]
pub enum ExecuteMsg {
    AddTask { name: String, description: String },
    UpdateTask { name: String, description: String },
    DeleteTask { name: String },
    Reset {},
    Completed { name: String, completed: bool },
}

/// The queries that read a task list.
#[derive(Clone, Debug, PartialEq, Eq)]
pub enum QueryMsg {
    GetTasks {},
}

/// The tasks as a query shows them: names and descriptions, in order.
#[derive(Clone, Debug, PartialEq, Eq)]
pub struct TaskListResponse {
    pub tasks: Vec<Task>,
}

impl TaskListResponse {
    pub open spec fn views(&self) -> Seq<TaskView> {
        self.tasks@.map_values(|t: Task| t@)
    }
}

/// A count as a query would report it.
#[derive(Clone, Debug, PartialEq, Eq)]
pub struct GetCountResponse {
    pub count: i32,
}

} // verus!
