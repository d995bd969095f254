//! What holds of the store whatever it holds: the laws of the workflow,
//! of deletion and of listings, and of every history of operations.

use crate::task_manager::{
    after_add, after_delete, after_move, after_rename, consistent, delete_outcome, lists, lookup,
    move_outcome, rename_outcome, with_status, TaskError,
};
use crate::tasks::{transition_allowed, TaskStatus, TaskView};
use vstd::prelude::*;

verus! {

/// A task that was just created is found under the identifier it was
/// given, with the name it was given and in status `Todo`.
pub proof fn lemma_created_task_is_found(tasks: Map<u128, TaskView>, id: u128, name: Seq<char>)
    ensures
        lookup(after_add(tasks, id, name), id) == Some(
            TaskView { id, name, status: TaskStatus::Todo },
        ),
{
}

/// A move that the workflow allows succeeds, and asking for the same move
/// again succeeds too and changes nothing more. A move to the status
/// that the task already has changes nothing at all.
pub proof fn lemma_move_is_idempotent(tasks: Map<u128, TaskView>, id: u128, to: TaskStatus)
    requires
        tasks.contains_key(id),
        transition_allowed(tasks[id].status, to),
    ensures
        move_outcome(tasks, id, to) == Ok::<TaskStatus, TaskError>(to),
        move_outcome(after_move(tasks, id, to), id, to) == Ok::<TaskStatus, TaskError>(to),
        after_move(after_move(tasks, id, to), id, to) == after_move(tasks, id, to),
        tasks[id].status == to ==> after_move(tasks, id, to) == tasks,
{
    let once = after_move(tasks, id, to);
    assert(after_move(once, id, to) =~= once);
    if tasks[id].status == to {
        assert(once =~= tasks);
    }
}

/// A task in `Todo` cannot be moved straight to `Done`: the move is
/// reported as invalid, and the task stays in `Todo`.
pub proof fn lemma_todo_cannot_skip_to_done(tasks: Map<u128, TaskView>, id: u128)
    requires
        tasks.contains_key(id),
        tasks[id].status == TaskStatus::Todo,
    ensures
        move_outcome(tasks, id, TaskStatus::Done) == Err::<TaskStatus, TaskError>(
            TaskError::InvalidTransition,
        ),
        after_move(tasks, id, TaskStatus::Done) == tasks,
{
}

/// A task in `Todo` reaches `Done` through `Doing`: both moves succeed,
/// and the task is then in `Done`.
pub proof fn lemma_todo_reaches_done_through_doing(tasks: Map<u128, TaskView>, id: u128)
    requires
        tasks.contains_key(id),
        tasks[id].status == TaskStatus::Todo,
    ensures
        move_outcome(tasks, id, TaskStatus::Doing) == Ok::<TaskStatus, TaskError>(
            TaskStatus::Doing,
        ),
        move_outcome(after_move(tasks, id, TaskStatus::Doing), id, TaskStatus::Done) == Ok::<
            TaskStatus,
            TaskError,
        >(TaskStatus::Done),
        lookup(
            after_move(after_move(tasks, id, TaskStatus::Doing), id, TaskStatus::Done),
            id,
        ) == Some(TaskView { status: TaskStatus::Done, ..tasks[id] }),
{
}

/// No status is final: a task can stay where it is, a task in `Todo` can
/// move to `Doing`, and a task in `Doing` or `Done` can move to each of
/// the three statuses.
pub proof fn lemma_no_status_is_final(from: TaskStatus, to: TaskStatus)
    ensures
        transition_allowed(from, from),
        transition_allowed(TaskStatus::Todo, TaskStatus::Doing),
        from != TaskStatus::Todo ==> transition_allowed(from, to),
{
}

/// A deletion that is not forced succeeds on a task in `Done` and on no
/// other; a forced deletion succeeds on every task. A deletion that
/// succeeds removes the task, one that fails changes nothing.
pub proof fn lemma_deletion_rule(tasks: Map<u128, TaskView>, id: u128, force: bool)
    requires
        tasks.contains_key(id),
    ensures
        delete_outcome(tasks, id, true) == Ok::<(), TaskError>(()),
        tasks[id].status == TaskStatus::Done ==> delete_outcome(tasks, id, false) == Ok::<
            (),
            TaskError,
        >(()),
        tasks[id].status != TaskStatus::Done ==> delete_outcome(tasks, id, false) == Err::<
            (),
            TaskError,
        >(TaskError::NotEligibleForDeletion),
        delete_outcome(tasks, id, force) is Ok ==> lookup(after_delete(tasks, id, force), id)
            is None,
        delete_outcome(tasks, id, force) is Err ==> after_delete(tasks, id, force) == tasks,
{
}

/// Every operation on an identifier that the store does not hold reports
/// that no such task was found, and changes nothing.
pub proof fn lemma_unknown_id_is_not_found(
    tasks: Map<u128, TaskView>,
    id: u128,
    to: TaskStatus,
    name: Seq<char>,
    force: bool,
)
    requires
        !tasks.contains_key(id),
    ensures
        lookup(tasks, id) is None,
        move_outcome(tasks, id, to) == Err::<TaskStatus, TaskError>(TaskError::NotFound),
        after_move(tasks, id, to) == tasks,
        rename_outcome(tasks, id) is None,
        after_rename(tasks, id, name) == tasks,
        delete_outcome(tasks, id, force) == Err::<(), TaskError>(TaskError::NotFound),
        after_delete(tasks, id, force) == tasks,
{
}

/// An operation that fails leaves the store exactly as it was.
pub proof fn lemma_failure_changes_nothing(
    tasks: Map<u128, TaskView>,
    id: u128,
    to: TaskStatus,
    name: Seq<char>,
    force: bool,
)
    ensures
        move_outcome(tasks, id, to) is Err ==> after_move(tasks, id, to) == tasks,
        rename_outcome(tasks, id) is None ==> after_rename(tasks, id, name) == tasks,
        delete_outcome(tasks, id, force) is Err ==> after_delete(tasks, id, force) == tasks,
{
}

/// A move and a renaming touch one field of one task: the same
/// identifiers are held afterwards, the task keeps its identifier and
/// its other field, and every other task is as it was.
pub proof fn lemma_move_and_rename_keep_identity(
    tasks: Map<u128, TaskView>,
    id: u128,
    to: TaskStatus,
    name: Seq<char>,
    other: u128,
)
    requires
        tasks.contains_key(id),
    ensures
        after_move(tasks, id, to).dom() == tasks.dom(),
        after_rename(tasks, id, name).dom() == tasks.dom(),
        after_move(tasks, id, to)[id].id == tasks[id].id,
        after_move(tasks, id, to)[id].name == tasks[id].name,
        after_rename(tasks, id, name)[id].id == tasks[id].id,
        after_rename(tasks, id, name)[id].status == tasks[id].status,
        after_rename(tasks, id, name)[id].name == name,
        other != id ==> after_move(tasks, id, to)[other] == tasks[other] && after_rename(
            tasks,
            id,
            name,
        )[other] == tasks[other],
{
    assert(after_move(tasks, id, to).dom() =~= tasks.dom());
    assert(after_rename(tasks, id, name).dom() =~= tasks.dom());
}

/// An operation that changes the store.
pub enum Operation {
    Create { id: u128, name: Seq<char> },
    Move { id: u128, to: TaskStatus },
    Rename { id: u128, name: Seq<char> },
    Delete { id: u128, force: bool },
}

/// The contents after `operation` was asked for.
pub open spec fn apply(tasks: Map<u128, TaskView>, operation: Operation) -> Map<u128, TaskView> {
    match operation {
        Operation::Create { id, name } => after_add(tasks, id, name),
        Operation::Move { id, to } => after_move(tasks, id, to),
        Operation::Rename { id, name } => after_rename(tasks, id, name),
        Operation::Delete { id, force } => after_delete(tasks, id, force),
    }
}

/// The contents of a store that started empty and was asked for
/// `history`, one operation after the other.
pub open spec fn replay(history: Seq<Operation>) -> Map<u128, TaskView>
    decreases history.len(),
{
    if history.len() == 0 {
        Map::empty()
    } else {
        apply(replay(history.drop_last()), history.last())
    }
}

/// Whether `operation` creates a task under `id`.
pub open spec fn creates(operation: Operation, id: u128) -> bool {
    operation matches Operation::Create { id: made, .. } && made == id
}

/// Whether `id` was issued by a creation in `history`.
pub open spec fn issued(history: Seq<Operation>, id: u128) -> bool {
    exists|at: int| 0 <= at < history.len() && #[trigger] creates(history[at], id)
}

/// Every operation keeps the store well formed.
pub proof fn lemma_operations_keep_consistency(tasks: Map<u128, TaskView>, operation: Operation)
    requires
        consistent(tasks),
    ensures
        consistent(apply(tasks, operation)),
{
}

/// Whatever the history, the store is well formed: each task is held
/// once, under its own identifier.
pub proof fn lemma_every_history_is_consistent(history: Seq<Operation>)
    ensures
        consistent(replay(history)),
    decreases history.len(),
{
    if history.len() > 0 {
        lemma_every_history_is_consistent(history.drop_last());
        lemma_operations_keep_consistency(replay(history.drop_last()), history.last());
    }
}

/// The store holds no task under an identifier that no creation issued.
pub proof fn lemma_only_issued_ids_are_held(history: Seq<Operation>, id: u128)
    requires
        !issued(history, id),
    ensures
        !replay(history).contains_key(id),
    decreases history.len(),
{
    if history.len() > 0 {
        let earlier = history.drop_last();
        assert forall|at: int| 0 <= at < earlier.len() implies !#[trigger] creates(
            earlier[at],
            id,
        ) by {
            assert(earlier[at] == history[at]);
            assert(!creates(history[at], id));
        }
        lemma_only_issued_ids_are_held(earlier, id);
        assert(!creates(history[history.len() - 1], id));
    }
}

/// Whatever the history, every operation on an identifier that no
/// creation issued reports that no such task was found.
pub proof fn lemma_unissued_id_is_not_found(
    history: Seq<Operation>,
    id: u128,
    to: TaskStatus,
    force: bool,
)
    requires
        !issued(history, id),
    ensures
        lookup(replay(history), id) is None,
        move_outcome(replay(history), id, to) == Err::<TaskStatus, TaskError>(TaskError::NotFound),
        rename_outcome(replay(history), id) is None,
        delete_outcome(replay(history), id, force) == Err::<(), TaskError>(TaskError::NotFound),
{
    lemma_only_issued_ids_are_held(history, id);
}

/// A listing has as many entries as the store holds tasks.
pub proof fn lemma_listing_counts_every_task(tasks: Map<u128, TaskView>, listing: Seq<TaskView>)
    requires
        tasks.dom().finite(),
        lists(listing, tasks),
    ensures
        listing.len() == tasks.len(),
{
    let ids = listing.map_values(|task: TaskView| task.id);
    assert forall|i: int, j: int| 0 <= i < j < ids.len() implies ids[i] != ids[j] by {
        assert(listing[i].id != listing[j].id);
    }
    assert forall|id: u128| ids.to_set().contains(id) <==> tasks.dom().contains(id) by {
        if ids.contains(id) {
            let i = choose|i: int| 0 <= i < ids.len() && ids[i] == id;
            assert(tasks.contains_key(listing[i].id));
        }
        if tasks.contains_key(id) {
            let i = choose|i: int| 0 <= i < listing.len() && listing[i].id == id;
            assert(ids[i] == id);
        }
    }
    assert(ids.to_set() =~= tasks.dom());
    ids.unique_seq_to_set();
}

/// A listing by status holds tasks of the full listing only, all in that
/// status; and the three listings by status, one after the other, hold
/// every task of the full listing, none twice.
pub proof fn lemma_status_listings_split_the_listing(
    tasks: Map<u128, TaskView>,
    all: Seq<TaskView>,
    todo: Seq<TaskView>,
    doing: Seq<TaskView>,
    done: Seq<TaskView>,
)
    requires
        lists(all, tasks),
        lists(todo, with_status(tasks, TaskStatus::Todo)),
        lists(doing, with_status(tasks, TaskStatus::Doing)),
        lists(done, with_status(tasks, TaskStatus::Done)),
    ensures
        forall|i: int|
            0 <= i < todo.len() ==> all.contains(#[trigger] todo[i]) && todo[i].status
                == TaskStatus::Todo,
        forall|i: int|
            0 <= i < doing.len() ==> all.contains(#[trigger] doing[i]) && doing[i].status
                == TaskStatus::Doing,
        forall|i: int|
            0 <= i < done.len() ==> all.contains(#[trigger] done[i]) && done[i].status
                == TaskStatus::Done,
        all.no_duplicates(),
        (todo + doing + done).no_duplicates(),
        (todo + doing + done).to_set() == all.to_set(),
        (todo + doing + done).len() == all.len(),
{
    let parts = todo + doing + done;
    lemma_listing_by_status_is_part(tasks, all, todo, TaskStatus::Todo);
    lemma_listing_by_status_is_part(tasks, all, doing, TaskStatus::Doing);
    lemma_listing_by_status_is_part(tasks, all, done, TaskStatus::Done);
    assert forall|i: int, j: int| 0 <= i < j < parts.len() implies parts[i] != parts[j] by {
        if parts[i].status == parts[j].status {
            assert(parts[i].id != parts[j].id);
        }
    }
    assert forall|task: TaskView| parts.to_set().contains(task) <==> all.to_set().contains(
        task,
    ) by {
        if parts.contains(task) {
            let i = choose|i: int| 0 <= i < parts.len() && parts[i] == task;
            assert(all.contains(parts[i]));
        }
        if all.contains(task) {
            let j = choose|j: int| 0 <= j < all.len() && all[j] == task;
            let id = all[j].id;
            assert(tasks[id] == task);
            if task.status == TaskStatus::Todo {
                assert(with_status(tasks, TaskStatus::Todo).contains_key(id));
                let i = choose|i: int| 0 <= i < todo.len() && todo[i].id == id;
                assert(parts[i] == task);
            } else if task.status == TaskStatus::Doing {
                assert(with_status(tasks, TaskStatus::Doing).contains_key(id));
                let i = choose|i: int| 0 <= i < doing.len() && doing[i].id == id;
                assert(parts[todo.len() + i] == task);
            } else {
                assert(with_status(tasks, TaskStatus::Done).contains_key(id));
                let i = choose|i: int| 0 <= i < done.len() && done[i].id == id;
                assert(parts[todo.len() + doing.len() + i] == task);
            }
        }
    }
    assert(parts.to_set() =~= all.to_set());
    assert forall|i: int, j: int| 0 <= i < j < all.len() implies all[i] != all[j] by {
        assert(all[i].id != all[j].id);
    }
    parts.unique_seq_to_set();
    all.unique_seq_to_set();
}

/// A listing by status holds tasks of the full listing only, all in that
/// status.
pub proof fn lemma_listing_by_status_is_part(
    tasks: Map<u128, TaskView>,
    all: Seq<TaskView>,
    part: Seq<TaskView>,
    status: TaskStatus,
)
    requires
        lists(all, tasks),
        lists(part, with_status(tasks, status)),
    ensures
        forall|i: int|
            0 <= i < part.len() ==> all.contains(#[trigger] part[i]) && part[i].status == status,
{
    assert forall|i: int| 0 <= i < part.len() implies all.contains(#[trigger] part[i])
        && part[i].status == status by {
        let id = part[i].id;
        assert(with_status(tasks, status).contains_key(id));
        assert(tasks.contains_key(id));
        let j = choose|j: int| 0 <= j < all.len() && all[j].id == id;
        assert(all[j] == part[i]);
    }
}

} // verus!
