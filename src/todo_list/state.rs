use vstd::prelude::*;

verus! {

/// What a task holds, as plain values.
pub struct TaskView {
    pub name: Seq<char>,
    pub description: Seq<char>,
    pub completed: bool,
}

/// What a task list holds, as plain values.
pub struct TodoListView {
    pub tasks: Seq<TaskView>,
    pub owner: Seq<char>,
}

/// A fresh task: not yet completed.
pub open spec fn new_task(name: Seq<char>, description: Seq<char>) -> TaskView {
    TaskView { name, description, completed: false }
}

/// `i` is the position of the first task called `name`.
pub open spec fn is_first_match(s: Seq<TaskView>, name: Seq<char>, i: int) -> bool {
    &&& 0 <= i < s.len()
    &&& s[i].name == name
    &&& forall|j: int| 0 <= j < i ==> s[j].name != name
}

/// No task is called `name`.
pub open spec fn no_match(s: Seq<TaskView>, name: Seq<char>) -> bool {
    forall|j: int| 0 <= j < s.len() ==> s[j].name != name
}

/// The position of the first task called `name`, if there is one.
pub open spec fn first_match(s: Seq<TaskView>, name: Seq<char>) -> Option<int> {
    if exists|i: int| is_first_match(s, name, i) {
        Some(choose|i: int| is_first_match(s, name, i))
    } else {
        None
    }
}

/// The list with a new task at its end.
pub open spec fn append_task(s: Seq<TaskView>, name: Seq<char>, description: Seq<char>) -> Seq<
    TaskView,
> {
    s.push(new_task(name, description))
}

/// The list without its first task called `name`.
pub open spec fn delete_first(s: Seq<TaskView>, name: Seq<char>) -> Seq<TaskView> {
    match first_match(s, name) {
        Some(i) => s.remove(i),
        None => s,
    }
}

/// The list whose first task called `name` has its name and description
/// replaced by `name` and `description`.
pub open spec fn update_first(s: Seq<TaskView>, name: Seq<char>, description: Seq<char>) -> Seq<
    TaskView,
> {
    match first_match(s, name) {
        Some(i) => s.update(i, TaskView { name, description, completed: s[i].completed }),
        None => s,
    }
}

/// The list whose first task called `name` has its flag set to `completed`.
pub open spec fn complete_first(s: Seq<TaskView>, name: Seq<char>, completed: bool) -> Seq<
    TaskView,
> {
    match first_match(s, name) {
        Some(i) => s.update(
            i,
            TaskView { name: s[i].name, description: s[i].description, completed },
        ),
        None => s,
    }
}

/// A first match, where there is one, is the one `first_match` gives.
pub proof fn lemma_first_match_at(s: Seq<TaskView>, name: Seq<char>, i: int)
    requires
        is_first_match(s, name, i),
    ensures
        first_match(s, name) == Some(i),
{
    let k = choose|k: int| is_first_match(s, name, k);
    assert(is_first_match(s, name, k));
    if k < i {
        assert(s[k].name == name);
    } else if i < k {
        assert(s[i].name == name);
    }
}

/// Where no task has the name, there is no first match.
pub proof fn lemma_first_match_none(s: Seq<TaskView>, name: Seq<char>)
    requires
        no_match(s, name),
    ensures
        first_match(s, name) is None,
{
    if exists|i: int| is_first_match(s, name, i) {
        let k = choose|k: int| is_first_match(s, name, k);
        assert(s[k].name == name);
    }
}

/// The persisted task list: its tasks in order and its owner.
#[derive(Clone, Debug, PartialEq, Eq)]
pub struct TodoList {
    pub tasks: Vec<Task>,
    pub owner: String,
}

impl View for TodoList {
    type V = TodoListView;

    open spec fn view(&self) -> TodoListView {
        TodoListView { tasks: self.tasks@.map_values(|t: Task| t@), owner: self.owner@ }
    }
}

impl TodoList {
    /// A list owned by `addr` that holds one fresh task.
    pub fn init(addr: String, name: String, description: String) -> (r: TodoList)
        ensures
            r@.owner == addr@,
            r@.tasks == seq![new_task(name@, description@)],
    {
        let mut tasks = Vec::new();
        let task = Task::new(name, description);
        tasks.push(task);
        let r = TodoList { tasks, owner: addr };
        assert(r@.tasks =~= seq![new_task(name@, description@)]);
        r
    }

    /// The position of the first task called `name`.
    fn position(&self, name: &String) -> (r: Option<usize>)
        ensures
            match r {
                Some(i) => first_match(self@.tasks, name@) == Some(i as int),
                None => first_match(self@.tasks, name@) is None,
            },
    {
        let mut i: usize = 0;
        while i < self.tasks.len()
            invariant
                i <= self.tasks.len(),
                forall|j: int| 0 <= j < i ==> (#[trigger] self@.tasks[j]).name != name@,
            decreases self.tasks.len() - i,
        {
            if self.tasks[i].name == *name {
                proof {
                    lemma_first_match_at(self@.tasks, name@, i as int);
                }
                return Some(i);
            }
            i += 1;
        }
        proof {
            lemma_first_match_none(self@.tasks, name@);
        }
        None
    }

    pub fn add_task(&mut self, name: String, description: String)
        ensures
            final(self)@.owner == old(self)@.owner,
            final(self)@.tasks == append_task(old(self)@.tasks, name@, description@),
    {
        let ghost n = name@;
        let ghost d = description@;
        let task = Task::new(name, description);
        self.tasks.push(task);
        assert(self@.tasks =~= append_task(old(self)@.tasks, n, d));
    }

    pub fn delete_task(&mut self, name: String)
        ensures
            final(self)@.owner == old(self)@.owner,
            final(self)@.tasks == delete_first(old(self)@.tasks, name@),
    {
        if let Some(pos) = self.position(&name) {
            self.tasks.remove(pos);
            assert(self@.tasks =~= old(self)@.tasks.remove(pos as int));
        }
    }

    pub fn reset(&mut self)
        ensures
            final(self)@.owner == old(self)@.owner,
            final(self)@.tasks == Seq::<TaskView>::empty(),
    {
        self.tasks.clear();
        assert(self@.tasks =~= Seq::<TaskView>::empty());
    }

    pub fn update_task(&mut self, name: String, description: String)
        ensures
            final(self)@.owner == old(self)@.owner,
            final(self)@.tasks == update_first(old(self)@.tasks, name@, description@),
    {
        if let Some(pos) = self.position(&name) {
            let ghost n = name@;
            let ghost d = description@;
            let mut task = self.tasks.remove(pos);
            task.update(name, description);
            self.tasks.insert(pos, task);
            assert(self@.tasks =~= update_first(old(self)@.tasks, n, d));
        }
    }

    pub fn completed_task(&mut self, name: String, completed: bool)
        ensures
            final(self)@.owner == old(self)@.owner,
            final(self)@.tasks == complete_first(old(self)@.tasks, name@, completed),
    {
        if let Some(pos) = self.position(&name) {
            let mut task = self.tasks.remove(pos);
            task.done(completed);
            self.tasks.insert(pos, task);
            assert(self@.tasks =~= complete_first(old(self)@.tasks, name@, completed));
        }
    }
}

/// One task: a name that identifies it (not uniquely), a description and a
/// completion flag.
#[derive(Clone, Debug, PartialEq, Eq)]
pub struct Task {
    name: String,
    description: String,
    completed: bool,
}

impl View for Task {
    type V = TaskView;

    closed spec fn view(&self) -> TaskView {
        TaskView { name: self.name@, description: self.description@, completed: self.completed }
    }
}

impl Task {
    pub fn new(name: String, description: String) -> (r: Self)
        ensures
            r@ == new_task(name@, description@),
    {
        Self { name, description, completed: false }
    }

    /// Replaces the name and the description; the flag stays.
    pub fn update(&mut self, name: String, description: String)
        ensures
            final(self)@ == (TaskView {
                name: name@,
                description: description@,
                completed: old(self)@.completed,
            }),
    {
        self.name = name;
        self.description = description;
    }

    pub fn done(&mut self, completed: bool)
        ensures
            final(self)@ == (TaskView {
                name: old(self)@.name,
                description: old(self)@.description,
                completed,
            }),
    {
        self.completed = completed;
    }

    pub fn name(&self) -> (r: &str)
        ensures
            r@ == self@.name,
    {
        self.name.as_str()
    }

    pub fn description(&self) -> (r: &str)
        ensures
            r@ == self@.description,
    {
        self.description.as_str()
    }

    pub fn completed(&self) -> (r: bool)
        ensures
            r == self@.completed,
    {
        self.completed
    }
}

} // verus!
