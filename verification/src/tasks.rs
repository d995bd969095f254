//! The task entity and the workflow its status moves through.

use vstd::prelude::*;

verus! {

/// Where a task stands in the workflow.
#[derive(Debug, PartialEq, Eq, Clone, Copy, Structural)]
pub enum TaskStatus {
    Todo,
    Doing,
    Done,
}

/// Whether the workflow lets a task go from `from` to `to`.
///
/// Every move is allowed, a move to the status the task already has
/// included, except the one from `Todo` straight to `Done`.
pub open spec fn transition_allowed(from: TaskStatus, to: TaskStatus) -> bool {
    !(from == TaskStatus::Todo && to == TaskStatus::Done)
}

/// The word by which commands name a status.
pub open spec fn status_keyword(status: TaskStatus) -> Seq<char> {
    match status {
        TaskStatus::Todo => "todo"@,
        TaskStatus::Doing => "doing"@,
        TaskStatus::Done => "done"@,
    }
}

/// The name under which a status is shown.
pub open spec fn status_label(status: TaskStatus) -> Seq<char> {
    match status {
        TaskStatus::Todo => "Todo"@,
        TaskStatus::Doing => "Doing"@,
        TaskStatus::Done => "Done"@,
    }
}

impl TaskStatus {
    /// The word by which commands name this status.
    pub fn keyword(self) -> (word: &'static str)
        ensures
            word@ == status_keyword(self),
    {
        match self {
            TaskStatus::Todo => "todo",
            TaskStatus::Doing => "doing",
            TaskStatus::Done => "done",
        }
    }

    /// The name under which this status is shown.
    pub fn label(self) -> (name: &'static str)
        ensures
            name@ == status_label(self),
    {
        match self {
            TaskStatus::Todo => "Todo",
            TaskStatus::Doing => "Doing",
            TaskStatus::Done => "Done",
        }
    }

    /// Decides whether a task in this status may move to `to`.
    pub fn can_move_to(self, to: TaskStatus) -> (allowed: bool)
        ensures
            allowed == transition_allowed(self, to),
    {
        match (self, to) {
            (TaskStatus::Todo, TaskStatus::Done) => false,
            _ => true,
        }
    }
}

/// A unit of work: an identifier that never changes, a display name and
/// a status.
#[derive(Debug)]
pub struct Task {
    pub id: u128,
    pub name: String,
    pub status: TaskStatus,
}

/// What a task is to the specifications: its name as a sequence of
/// characters, the other fields as they are.
pub struct TaskView {
    pub id: u128,
    pub name: Seq<char>,
    pub status: TaskStatus,
}

impl View for Task {
    type V = TaskView;

    open spec fn view(&self) -> TaskView {
        TaskView { id: self.id, name: self.name@, status: self.status }
    }
}

impl PartialEq for Task {
    /// Two tasks are equal where all their fields are.
    fn eq(&self, other: &Self) -> (equal: bool) {
        self.id == other.id && self.name == other.name && self.status == other.status
    }
}

impl vstd::std_specs::cmp::PartialEqSpecImpl for Task {
    open spec fn obeys_eq_spec() -> bool {
        true
    }

    open spec fn eq_spec(&self, other: &Self) -> bool {
        self@ == other@
    }
}

impl Clone for Task {
    fn clone(&self) -> (copy: Self)
        ensures
            copy@ == self@,
    {
        Task { id: self.id, name: self.name.clone(), status: self.status }
    }
}

} // verus!
