//! The task store: what it holds, what each operation does to it, and
//! the in-memory implementation.

use crate::identifiers::{fresh_id, is_random_id};
use crate::tasks::{transition_allowed, Task, TaskStatus, TaskView};
use std::collections::HashMap;
use vstd::std_specs::iter::IteratorSpec;
use vstd::prelude::*;

verus! {

broadcast use vstd::std_specs::hash::group_hash_axioms;

/// Why the store turned an operation down.
#[derive(Debug, PartialEq, Eq, Clone, Copy, Structural)]
pub enum TaskError {
    /// No task has the identifier.
    NotFound,
    /// The workflow does not allow the move that was asked for.
    InvalidTransition,
    /// The task is not done, and the deletion was not forced.
    NotEligibleForDeletion,
}

/// The store's contents are well formed: finitely many tasks, each filed
/// under its own identifier.
pub open spec fn consistent(tasks: Map<u128, TaskView>) -> bool {
    &&& tasks.dom().finite()
    &&& forall|id: u128| tasks.contains_key(id) ==> (#[trigger] tasks[id]).id == id
}

/// The task that a creation under `id` files: the given name, status `Todo`.
pub open spec fn new_task(id: u128, name: Seq<char>) -> TaskView {
    TaskView { id, name, status: TaskStatus::Todo }
}

/// The contents after a task named `name` was created under `id`.
pub open spec fn after_add(tasks: Map<u128, TaskView>, id: u128, name: Seq<char>) -> Map<
    u128,
    TaskView,
> {
    tasks.insert(id, new_task(id, name))
}

/// The task filed under `id`, if there is one.
pub open spec fn lookup(tasks: Map<u128, TaskView>, id: u128) -> Option<TaskView> {
    if tasks.contains_key(id) {
        Some(tasks[id])
    } else {
        None
    }
}

/// What a move of task `id` to status `to` reports.
pub open spec fn move_outcome(tasks: Map<u128, TaskView>, id: u128, to: TaskStatus) -> Result<
    TaskStatus,
    TaskError,
> {
    if !tasks.contains_key(id) {
        Err(TaskError::NotFound)
    } else if !transition_allowed(tasks[id].status, to) {
        Err(TaskError::InvalidTransition)
    } else {
        Ok(to)
    }
}

/// The contents after a move of task `id` to status `to` was asked for.
pub open spec fn after_move(tasks: Map<u128, TaskView>, id: u128, to: TaskStatus) -> Map<
    u128,
    TaskView,
> {
    if move_outcome(tasks, id, to) is Ok {
        tasks.insert(id, TaskView { status: to, ..tasks[id] })
    } else {
        tasks
    }
}

/// What a renaming of task `id` reports: `None` where no task has the
/// identifier.
pub open spec fn rename_outcome(tasks: Map<u128, TaskView>, id: u128) -> Option<()> {
    if tasks.contains_key(id) {
        Some(())
    } else {
        None
    }
}

/// The contents after task `id` was to be renamed to `name`.
pub open spec fn after_rename(tasks: Map<u128, TaskView>, id: u128, name: Seq<char>) -> Map<
    u128,
    TaskView,
> {
    if tasks.contains_key(id) {
        tasks.insert(id, TaskView { name, ..tasks[id] })
    } else {
        tasks
    }
}

/// What a deletion of task `id` reports.
pub open spec fn delete_outcome(tasks: Map<u128, TaskView>, id: u128, force: bool) -> Result<
    (),
    TaskError,
> {
    if !tasks.contains_key(id) {
        Err(TaskError::NotFound)
    } else if force || tasks[id].status == TaskStatus::Done {
        Ok(())
    } else {
        Err(TaskError::NotEligibleForDeletion)
    }
}

/// The contents after a deletion of task `id` was asked for.
pub open spec fn after_delete(tasks: Map<u128, TaskView>, id: u128, force: bool) -> Map<
    u128,
    TaskView,
> {
    if delete_outcome(tasks, id, force) is Ok {
        tasks.remove(id)
    } else {
        tasks
    }
}

/// The tasks among `tasks` whose status is `status`.
pub open spec fn with_status(tasks: Map<u128, TaskView>, status: TaskStatus) -> Map<
    u128,
    TaskView,
> {
    Map::new(|id: u128| tasks.contains_key(id) && tasks[id].status == status, |id: u128| tasks[id])
}

/// Whether a task in `status` is among those `wanted`: all tasks, or the
/// tasks in one status.
pub open spec fn passes(status: TaskStatus, wanted: Option<TaskStatus>) -> bool {
    match wanted {
        Some(only) => status == only,
        None => true,
    }
}

/// The tasks among `tasks` that are `wanted`.
pub open spec fn selected(tasks: Map<u128, TaskView>, wanted: Option<TaskStatus>) -> Map<
    u128,
    TaskView,
> {
    match wanted {
        Some(status) => with_status(tasks, status),
        None => tasks,
    }
}

/// `listing` holds each task of `tasks` exactly once, in some order.
pub open spec fn lists(listing: Seq<TaskView>, tasks: Map<u128, TaskView>) -> bool {
    &&& forall|i: int|
        0 <= i < listing.len() ==> tasks.contains_key(#[trigger] listing[i].id)
            && tasks[listing[i].id] == listing[i]
    &&& forall|i: int, j: int|
        0 <= i < j < listing.len() ==> #[trigger] listing[i].id != #[trigger] listing[j].id
    &&& forall|id: u128| #[trigger]
        tasks.contains_key(id) ==> exists|i: int|
            0 <= i < listing.len() && #[trigger] listing[i].id == id
}

/// The tasks of a vector as the specifications see them.
pub open spec fn views(tasks: Seq<Task>) -> Seq<TaskView> {
    tasks.map_values(|task: Task| task@)
}

/// What a task store offers. The in-memory store below is one; another
/// may keep its tasks elsewhere, and answer to the same contracts.
pub trait TaskManager {
    /// The tasks held, by identifier.
    spec fn view(&self) -> Map<u128, TaskView>;

    /// Files a new task named `name`, in status `Todo`, under an identifier
    /// of the store's choosing, and returns that identifier. A store that
    /// cannot file the task says so and stays as it was.
    fn add_task(&mut self, name: &str) -> (result: Result<u128, TaskError>)
        requires
            consistent(old(self)@),
        ensures
            consistent(final(self)@),
            match result {
                Ok(id) => final(self)@ == after_add(old(self)@, id, name@),
                Err(_) => final(self)@ == old(self)@,
            },
    ;

    /// Every task held, each once, in no particular order.
    fn get_tasks(&self) -> (listing: Vec<Task>)
        requires
            consistent(self@),
        ensures
            lists(views(listing@), self@),
    ;

    /// The tasks held whose status is `status`, each once, in no
    /// particular order.
    fn filter_tasks_by_status(&self, status: TaskStatus) -> (listing: Vec<Task>)
        requires
            consistent(self@),
        ensures
            lists(views(listing@), with_status(self@, status)),
    ;

    /// A copy of the task filed under `id`, or `None` where there is none.
    fn get_task_by_id(&self, id: u128) -> (found: Option<Task>)
        requires
            consistent(self@),
        ensures
            match found {
                Some(task) => lookup(self@, id) == Some(task@),
                None => lookup(self@, id) is None,
            },
    ;

    /// Moves task `id` to `new_status` where the workflow allows it, and
    /// returns the status the task then has. An unknown identifier and a
    /// move that is not allowed are told apart, and neither changes
    /// anything.
    fn move_task(&mut self, id: u128, new_status: TaskStatus) -> (result: Result<
        TaskStatus,
        TaskError,
    >)
        requires
            consistent(old(self)@),
        ensures
            consistent(final(self)@),
            result == move_outcome(old(self)@, id, new_status),
            final(self)@ == after_move(old(self)@, id, new_status),
    ;

    /// Gives task `id` the name `new_name`, whatever it is; `None`, and no
    /// change, where no task has that identifier.
    fn update_task_name(&mut self, id: u128, new_name: &str) -> (result: Option<()>)
        requires
            consistent(old(self)@),
        ensures
            consistent(final(self)@),
            result == rename_outcome(old(self)@, id),
            final(self)@ == after_rename(old(self)@, id, new_name@),
    ;

    /// Deletes task `id` if it is done or `force` is set. An unknown
    /// identifier and a task that may not be deleted are told apart, and
    /// neither changes anything.
    fn delete_task(&mut self, id: u128, force: bool) -> (result: Result<(), TaskError>)
        requires
            consistent(old(self)@),
        ensures
            consistent(final(self)@),
            result == delete_outcome(old(self)@, id, force),
            final(self)@ == after_delete(old(self)@, id, force),
    ;
}

/// The store in memory: a hash map from identifier to task.
pub struct InMemoryTaskManager {
    tasks: HashMap<u128, Task>,
}

impl InMemoryTaskManager {
    /// An empty store.
    pub fn new() -> (manager: Self)
        ensures
            manager@ == Map::<u128, TaskView>::empty(),
            consistent(manager@),
    {
        let manager = InMemoryTaskManager { tasks: HashMap::new() };
        assert(manager@ =~= Map::<u128, TaskView>::empty());
        manager
    }

    /// Files a new task named `name`, in status `Todo`, under `id`. A task
    /// already filed under `id` gives way to it.
    pub fn insert_task(&mut self, id: u128, name: &str)
        requires
            consistent(old(self)@),
        ensures
            consistent(final(self)@),
            final(self)@ == after_add(old(self)@, id, name@),
    {
        let task = Task { id, name: name.to_string(), status: TaskStatus::Todo };
        self.tasks.insert(id, task);
        assert(self@ =~= after_add(old(self)@, id, name@));
    }

    /// Copies of the tasks held: of all of them, or of those in the
    /// status `wanted`.
    fn copies(&self, wanted: Option<TaskStatus>) -> (listing: Vec<Task>)
        requires
            consistent(self@),
        ensures
            lists(views(listing@), selected(self@, wanted)),
    {
        let mut listing: Vec<Task> = Vec::new();
        let entries = self.tasks.iter();
        // The entries in the order of the walk, and the positions of those taken.
        let ghost pairs = entries.remaining();
        let ghost taken: Seq<int> = Seq::empty();
        for entry in walk: entries
            invariant
                walk.seq() == pairs,
                taken.len() == listing@.len(),
                forall|k: int|
                    0 <= k < taken.len() ==> 0 <= #[trigger] taken[k] < walk.index()
                        && listing@[k]@ == (*pairs[taken[k]].1)@,
                forall|k: int, l: int|
                    0 <= k < l < taken.len() ==> #[trigger] taken[k] < #[trigger] taken[l],
                forall|i: int|
                    0 <= i < walk.index() ==> (taken.contains(i) <==> passes(
                        (#[trigger] pairs[i]).1.status,
                        wanted,
                    )),
        {
            let (_, task) = entry;
            assert(entry == pairs[walk.index()]);
            let take = match wanted {
                Some(status) => task.status == status,
                None => true,
            };
            if take {
                listing.push(task.clone());
                proof {
                    let ghost earlier = taken;
                    taken = taken.push(walk.index());
                    assert forall|k: int, l: int| 0 <= k < l < taken.len() implies #[trigger] taken[k]
                        < #[trigger] taken[l] by {
                        assert(taken[k] == earlier[k]);
                    }
                    assert forall|i: int| 0 <= i < walk.index() + 1 implies (taken.contains(i)
                        <==> passes((#[trigger] pairs[i]).1.status, wanted)) by {
                        if earlier.contains(i) {
                            let k = choose|k: int| 0 <= k < earlier.len() && earlier[k] == i;
                            assert(taken[k] == i);
                        }
                        if i == walk.index() {
                            assert(taken[taken.len() - 1] == i);
                        }
                        if taken.contains(i) && i < walk.index() {
                            let k = choose|k: int| 0 <= k < taken.len() && taken[k] == i;
                            assert(earlier[k] == i);
                        }
                    }
                }
            }
        }
        proof {
            let found = views(listing@);
            let chosen = selected(self@, wanted);
            assert(pairs == self.tasks.iter().remaining());
            assert forall|k: int| 0 <= k < found.len() implies chosen.contains_key(
                #[trigger] found[k].id,
            ) && chosen[found[k].id] == found[k] && found[k].id == *pairs[taken[k]].0 by {
                let i = taken[k];
                assert(taken.contains(i));
                assert(self.tasks@[*pairs[i].0] == *pairs[i].1);
                assert(found[k] == listing@[k]@);
                assert(found[k] == self@[*pairs[i].0]);
            }
            assert forall|k: int, l: int| 0 <= k < l < found.len() implies #[trigger] found[k].id
                != #[trigger] found[l].id by {
                if found[k].id == found[l].id {
                    assert(self.tasks@[*pairs[taken[k]].0] == *pairs[taken[k]].1);
                    assert(self.tasks@[*pairs[taken[l]].0] == *pairs[taken[l]].1);
                    assert(pairs[taken[k]] == pairs[taken[l]]);
                }
            }
            assert forall|id: u128| #[trigger] chosen.contains_key(id) implies exists|k: int|
                0 <= k < found.len() && #[trigger] found[k].id == id by {
                assert(self.tasks@.contains_key(id));
                assert(pairs.contains((&id, &self.tasks@[id])));
                let i = choose|i: int| 0 <= i < pairs.len() && pairs[i] == (&id, &self.tasks@[id]);
                assert(passes(pairs[i].1.status, wanted));
                let k = choose|k: int| 0 <= k < taken.len() && taken[k] == i;
                assert(found[k].id == id);
            }
        }
        listing
    }
}

impl TaskManager for InMemoryTaskManager {
    closed spec fn view(&self) -> Map<u128, TaskView> {
        Map::new(|id: u128| self.tasks@.contains_key(id), |id: u128| self.tasks@[id]@)
    }

    /// Draws a random identifier and files the task under it; this store
    /// never refuses. Nothing here shows that the identifier is new: two
    /// draws agree with a chance that is out of all proportion small, and
    /// the task then filed under the identifier gives way, as `insert_task`
    /// says.
    fn add_task(&mut self, name: &str) -> (result: Result<u128, TaskError>)
        ensures
            result is Ok,
            is_random_id(result->Ok_0),
    {
        let id = fresh_id();
        self.insert_task(id, name);
        Ok(id)
    }

    fn get_tasks(&self) -> (listing: Vec<Task>) {
        self.copies(None)
    }

    fn filter_tasks_by_status(&self, status: TaskStatus) -> (listing: Vec<Task>) {
        self.copies(Some(status))
    }

    fn get_task_by_id(&self, id: u128) -> (found: Option<Task>) {
        match self.tasks.get(&id) {
            Some(task) => Some(task.clone()),
            None => None,
        }
    }

    fn move_task(&mut self, id: u128, new_status: TaskStatus) -> (result: Result<
        TaskStatus,
        TaskError,
    >) {
        let current = match self.tasks.get(&id) {
            Some(task) => task.status,
            None => {
                return Err(TaskError::NotFound);
            },
        };
        if !current.can_move_to(new_status) {
            return Err(TaskError::InvalidTransition);
        }
        if let Some(mut task) = self.tasks.remove(&id) {
            task.status = new_status;
            self.tasks.insert(id, task);
        }
        assert(self@ =~= after_move(old(self)@, id, new_status));
        Ok(new_status)
    }

    fn update_task_name(&mut self, id: u128, new_name: &str) -> (result: Option<()>) {
        match self.tasks.remove(&id) {
            Some(mut task) => {
                task.name = new_name.to_string();
                self.tasks.insert(id, task);
                assert(self@ =~= after_rename(old(self)@, id, new_name@));
                Some(())
            },
            None => {
                assert(self@ =~= old(self)@);
                None
            },
        }
    }

    fn delete_task(&mut self, id: u128, force: bool) -> (result: Result<(), TaskError>) {
        let status = match self.tasks.get(&id) {
            Some(task) => task.status,
            None => {
                return Err(TaskError::NotFound);
            },
        };
        if status == TaskStatus::Done || force {
            self.tasks.remove(&id);
            assert(self@ =~= after_delete(old(self)@, id, force));
            Ok(())
        } else {
            Err(TaskError::NotEligibleForDeletion)
        }
    }
}

} // verus!
