use vstd::prelude::*;

use crate::error::{authorize, ContractError};
use crate::response::Response;
use crate::todo_list::msg::{ExecuteMsg, InstantiateMsg, QueryMsg, TaskListResponse};
use crate::todo_list::state::{
    append_task, complete_first, delete_first, lemma_first_match_at, lemma_first_match_none,
    new_task, no_match, update_first, Task, TaskView, TodoList, TodoListView,
};

verus! {

/// The text that `Debug` gives for the pair `(name, description)`.
pub uninterp spec fn pair_debug(name: Seq<char>, description: Seq<char>) -> Seq<char>;

/// Relies on std's `Debug` for a pair of strings (through `format!`): the text
/// depends on the two strings alone.
#[verifier::external_body]
fn debug_pair(name: &String, description: &String) -> (r: String)
    ensures
        r@ == pair_debug(name@, description@),
{
    format!("{:?}", (name, description))
}

/// The tasks after a command has been applied by the owner.
pub open spec fn apply_command(tasks: Seq<TaskView>, msg: ExecuteMsg) -> Seq<TaskView> {
    match msg {
        ExecuteMsg::AddTask { name, description } => append_task(tasks, name@, description@),
        ExecuteMsg::UpdateTask { name, description } => update_first(tasks, name@, description@),
        ExecuteMsg::DeleteTask { name } => delete_first(tasks, name@),
        ExecuteMsg::Reset {  } => Seq::empty(),
        ExecuteMsg::Completed { name, completed } => complete_first(tasks, name@, completed),
    }
}

/// The `action` attribute that a command reports.
pub open spec fn action_of(msg: ExecuteMsg) -> Seq<char> {
    match msg {
        ExecuteMsg::AddTask { .. } => "add_task"@,
        ExecuteMsg::UpdateTask { .. } => "update_task"@,
        ExecuteMsg::DeleteTask { .. } => "delete_task"@,
        ExecuteMsg::Reset {  } => "reset"@,
        ExecuteMsg::Completed { .. } => "mark_task_completed"@,
    }
}

/// What a query shows of the tasks: each name and description, in order,
/// with the completion flag left at its default.
pub open spec fn projection(tasks: Seq<TaskView>) -> Seq<TaskView> {
    tasks.map_values(|t: TaskView| new_task(t.name, t.description))
}

/// The outcome of an owner-gated mutation: on success the tasks are `tasks`,
/// the owner stays and the response carries `action`; otherwise nothing
/// changes and the caller is told it is not authorized.
pub open spec fn guarded_outcome(
    before: TodoList,
    after: TodoList,
    sender: Seq<char>,
    r: Result<Response, ContractError>,
    tasks: Seq<TaskView>,
    action: Seq<char>,
) -> bool {
    if sender == before@.owner {
        &&& r is Ok
        &&& r->Ok_0.attrs() == seq![("action"@, action)]
        &&& after@ == (TodoListView { tasks, owner: before@.owner })
    } else {
        &&& r == Err::<Response, ContractError>(ContractError::Unauthorized)
        &&& after == before
    }
}

/// Creates the list owned by the caller, seeded with one task.
pub fn instantiate(sender: &String, msg: InstantiateMsg) -> (r: (TodoList, Response))
    ensures
        r.0@.owner == sender@,
        r.0@.tasks == seq![new_task(msg.name@, msg.descripton@)],
        r.1.attrs() == seq![
            ("method"@, "instantiate"@),
            ("owner"@, sender@),
            ("task"@, pair_debug(msg.name@, msg.descripton@)),
        ],
{
    let task = debug_pair(&msg.name, &msg.descripton);
    let state = TodoList::init(sender.clone(), msg.name, msg.descripton);
    let resp = Response::new().add_attribute("method", String::from_str("instantiate")).add_attribute(
        "owner",
        sender.clone(),
    ).add_attribute("task", task);
    (state, resp)
}

/// Applies a command to the stored list: `NotFound` where nothing is stored,
/// `Unauthorized` where the caller is not the owner, else the new list.
pub fn execute(stored: Option<TodoList>, sender: &String, msg: ExecuteMsg) -> (r: Result<
    (TodoList, Response),
    ContractError,
>)
    ensures
        stored is None ==> r == Err::<(TodoList, Response), ContractError>(ContractError::NotFound),
        stored is Some && sender@ != stored->Some_0@.owner ==> r == Err::<
            (TodoList, Response),
            ContractError,
        >(ContractError::Unauthorized),
        stored is Some && sender@ == stored->Some_0@.owner ==> {
            &&& r is Ok
            &&& r->Ok_0.0@ == (TodoListView {
                tasks: apply_command(stored->Some_0@.tasks, msg),
                owner: stored->Some_0@.owner,
            })
            &&& r->Ok_0.1.attrs() == seq![("action"@, action_of(msg))]
        },
{
    let mut state = match stored {
        Some(s) => s,
        None => return Err(ContractError::NotFound),
    };
    let r = match msg {
        ExecuteMsg::AddTask { name, description } => add_task(&mut state, sender, name, description),
        ExecuteMsg::UpdateTask { name, description } => update_task(
            &mut state,
            sender,
            name,
            description,
        ),
        ExecuteMsg::DeleteTask { name } => delete_task(&mut state, sender, name),
        ExecuteMsg::Reset {  } => reset(&mut state, sender),
        ExecuteMsg::Completed { name, completed } => mark_task_completed(
            &mut state,
            sender,
            name,
            completed,
        ),
    };
    match r {
        Ok(resp) => Ok((state, resp)),
        Err(e) => Err(e),
    }
}

pub fn add_task(state: &mut TodoList, sender: &String, name: String, description: String) -> (r:
    Result<Response, ContractError>)
    ensures
        guarded_outcome(
            *old(state),
            *final(state),
            sender@,
            r,
            append_task(old(state)@.tasks, name@, description@),
            "add_task"@,
        ),
{
    if let Err(e) = authorize(sender, &state.owner) {
        return Err(e);
    }
    state.add_task(name, description);
    Ok(Response::new().add_attribute("action", String::from_str("add_task")))
}

pub fn delete_task(state: &mut TodoList, sender: &String, name: String) -> (r: Result<
    Response,
    ContractError,
>)
    ensures
        guarded_outcome(
            *old(state),
            *final(state),
            sender@,
            r,
            delete_first(old(state)@.tasks, name@),
            "delete_task"@,
        ),
{
    if let Err(e) = authorize(sender, &state.owner) {
        return Err(e);
    }
    state.delete_task(name);
    Ok(Response::new().add_attribute("action", String::from_str("delete_task")))
}

pub fn update_task(state: &mut TodoList, sender: &String, name: String, description: String) -> (r:
    Result<Response, ContractError>)
    ensures
        guarded_outcome(
            *old(state),
            *final(state),
            sender@,
            r,
            update_first(old(state)@.tasks, name@, description@),
            "update_task"@,
        ),
{
    if let Err(e) = authorize(sender, &state.owner) {
        return Err(e);
    }
    state.update_task(name, description);
    Ok(Response::new().add_attribute("action", String::from_str("update_task")))
}

pub fn reset(state: &mut TodoList, sender: &String) -> (r: Result<Response, ContractError>)
    ensures
        guarded_outcome(*old(state), *final(state), sender@, r, Seq::empty(), "reset"@),
{
    if let Err(e) = authorize(sender, &state.owner) {
        return Err(e);
    }
    state.reset();
    Ok(Response::new().add_attribute("action", String::from_str("reset")))
}

pub fn mark_task_completed(
    state: &mut TodoList,
    sender: &String,
    name: String,
    completed: bool,
) -> (r: Result<Response, ContractError>)
    ensures
        guarded_outcome(
            *old(state),
            *final(state),
            sender@,
            r,
            complete_first(old(state)@.tasks, name@, completed),
            "mark_task_completed"@,
        ),
{
    if let Err(e) = authorize(sender, &state.owner) {
        return Err(e);
    }
    state.completed_task(name, completed);
    Ok(Response::new().add_attribute("action", String::from_str("mark_task_completed")))
}

/// Answers a query from the stored list: `NotFound` where nothing is stored.
pub fn query(stored: Option<TodoList>, msg: QueryMsg) -> (r: Result<TaskListResponse, ContractError>)
    ensures
        stored is None ==> r == Err::<TaskListResponse, ContractError>(ContractError::NotFound),
        stored is Some ==> r is Ok && r->Ok_0.views() == projection(stored->Some_0@.tasks),
{
    match stored {
        None => Err(ContractError::NotFound),
        Some(state) => match msg {
            QueryMsg::GetTasks {  } => Ok(tasks(&state)),
        },
    }
}

/// The tasks of the list, names and descriptions only, in order.
pub fn tasks(state: &TodoList) -> (r: TaskListResponse)
    ensures
        r.views() == projection(state@.tasks),
{
    let mut result = TaskListResponse { tasks: Vec::new() };
    let mut i: usize = 0;
    while i < state.tasks.len()
        invariant
            i <= state.tasks.len(),
            result.views() == projection(state@.tasks).take(i as int),
        decreases state.tasks.len() - i,
    {
        let task = &state.tasks[i];
        let ghost before = result.views();
        result.tasks.push(Task::new(task.name().to_owned(), task.description().to_owned()));
        assert(state@.tasks[i as int] == task@);
        assert(result.views() =~= before.push(new_task(task@.name, task@.description)));
        i += 1;
        assert(result.views() =~= projection(state@.tasks).take(i as int));
    }
    assert(result.views() =~= projection(state@.tasks));
    result
}

/// Tasks added one after the other to a list holding only its seed task
/// are shown after it, in the order in which they were added.
pub proof fn lemma_append_order(
    s: Seq<TaskView>,
    n1: Seq<char>,
    d1: Seq<char>,
    n2: Seq<char>,
    d2: Seq<char>,
)
    requires
        s.len() == 1,
    ensures
        projection(append_task(append_task(s, n1, d1), n2, d2)) == seq![
            new_task(s[0].name, s[0].description),
            new_task(n1, d1),
            new_task(n2, d2),
        ],
{
    assert(projection(append_task(append_task(s, n1, d1), n2, d2)) =~= seq![
        new_task(s[0].name, s[0].description),
        new_task(n1, d1),
        new_task(n2, d2),
    ]);
}

/// Of two tasks that share a name, deleting by that name removes the first
/// one only; the second stays, one place earlier, and the query shows it.
pub proof fn lemma_delete_first_of_two(s: Seq<TaskView>, name: Seq<char>, i: int, j: int)
    requires
        0 <= i < j < s.len(),
        s[i].name == name,
        s[j].name == name,
        forall|k: int| 0 <= k < i ==> s[k].name != name,
    ensures
        delete_first(s, name) == s.remove(i),
        delete_first(s, name)[j - 1] == s[j],
        projection(delete_first(s, name)) == projection(s).remove(i),
        projection(delete_first(s, name))[j - 1] == new_task(name, s[j].description),
{
    lemma_first_match_at(s, name, i);
    assert(projection(s.remove(i)) =~= projection(s).remove(i));
}

/// A reset leaves a list that the query shows empty; a task added after it
/// is then the only one, and the list is no longer empty.
pub proof fn lemma_reset_then_add(s: Seq<TaskView>, name: String, description: String)
    requires
        s.len() > 0,
    ensures
        projection(apply_command(s, ExecuteMsg::Reset {  })) == Seq::<TaskView>::empty(),
        projection(
            apply_command(
                apply_command(s, ExecuteMsg::Reset {  }),
                ExecuteMsg::AddTask { name, description },
            ),
        ) == seq![new_task(name@, description@)],
{
    assert(projection(apply_command(s, ExecuteMsg::Reset {  })) =~= Seq::<TaskView>::empty());
    assert(projection(
        apply_command(
            apply_command(s, ExecuteMsg::Reset {  }),
            ExecuteMsg::AddTask { name, description },
        ),
    ) =~= seq![new_task(name@, description@)]);
}

/// Updating, deleting or completing by a name that no task has leaves the
/// list as it was.
pub proof fn lemma_missing_name_unchanged(
    s: Seq<TaskView>,
    name: Seq<char>,
    description: Seq<char>,
    completed: bool,
)
    requires
        no_match(s, name),
    ensures
        update_first(s, name, description) == s,
        delete_first(s, name) == s,
        complete_first(s, name, completed) == s,
{
    lemma_first_match_none(s, name);
}

/// The query never reveals completion: every task it shows carries the
/// default flag, and marking a task leaves what it shows unchanged.
pub proof fn lemma_projection_hides_completed(s: Seq<TaskView>, name: Seq<char>, completed: bool)
    ensures
        forall|i: int| 0 <= i < s.len() ==> !(#[trigger] projection(s)[i]).completed,
        projection(complete_first(s, name, completed)) == projection(s),
{
    assert(projection(complete_first(s, name, completed)) =~= projection(s));
}

} // verus!
