//! The command layer: what each command does to the store, given the
//! words that follow the verb, and what it answers.

use crate::identifiers::{hyphenated, id_text, parse_id, parsed_id};
use crate::task_manager::{
    after_add, after_delete, after_move, after_rename, consistent, delete_outcome, lists, lookup,
    move_outcome, rename_outcome, views, with_status, TaskError, TaskManager,
};
use crate::tasks::{status_keyword, status_label, Task, TaskStatus, TaskView};
use crate::text::{join_words, joined, lowercase, same_text, texts, to_lowercase};
use vstd::prelude::*;
use vstd::slice::slice_subrange;
use vstd::string::*;

verus! {

/// The commands.
#[derive(Debug, PartialEq, Eq, Clone, Copy, Structural)]
pub enum Verb {
    Add,
    Show,
    Move,
    Update,
    Delete,
    Help,
    Exit,
}

/// What a command answers; the caller puts it into words.
#[derive(Debug)]
pub enum Reply {
    /// The line held no word.
    Nothing,
    /// A task was created under this identifier.
    Added(u128),
    /// `add` was given no name.
    NameMissing,
    /// The store could not file a new task.
    StoreFailed(TaskError),
    /// The tasks asked for: all of them, or those in the given status.
    Listing(Vec<Task>, Option<TaskStatus>),
    /// The one task asked for.
    Found(Task),
    /// The word given for an identifier is none.
    InvalidId(String),
    /// The word given for a status names none.
    UnknownStatus(String),
    /// The task now has this status.
    Moved(u128, TaskStatus),
    /// The task now has this name.
    Renamed(u128, String),
    /// The task is gone; the flag says whether the deletion was forced.
    Deleted(u128, bool),
    /// The store refused the operation on the task with this identifier.
    Refused(u128, TaskError),
    /// The words after the verb do not fit the command.
    Usage(Verb),
    /// The command reference was asked for.
    Help,
    /// The session is to end.
    Exit,
    /// The first word is no command.
    UnknownCommand,
}

/// A reply as the specifications see it.
pub enum ReplyView {
    Nothing,
    Added(u128),
    NameMissing,
    StoreFailed(TaskError),
    Listing(Seq<TaskView>, Option<TaskStatus>),
    Found(TaskView),
    InvalidId(Seq<char>),
    UnknownStatus(Seq<char>),
    Moved(u128, TaskStatus),
    Renamed(u128, Seq<char>),
    Deleted(u128, bool),
    Refused(u128, TaskError),
    Usage(Verb),
    Help,
    Exit,
    UnknownCommand,
}

impl View for Reply {
    type V = ReplyView;

    open spec fn view(&self) -> ReplyView {
        match *self {
            Reply::Nothing => ReplyView::Nothing,
            Reply::Added(id) => ReplyView::Added(id),
            Reply::NameMissing => ReplyView::NameMissing,
            Reply::StoreFailed(error) => ReplyView::StoreFailed(error),
            Reply::Listing(tasks, filter) => ReplyView::Listing(views(tasks@), filter),
            Reply::Found(task) => ReplyView::Found(task@),
            Reply::InvalidId(word) => ReplyView::InvalidId(word@),
            Reply::UnknownStatus(word) => ReplyView::UnknownStatus(word@),
            Reply::Moved(id, status) => ReplyView::Moved(id, status),
            Reply::Renamed(id, name) => ReplyView::Renamed(id, name@),
            Reply::Deleted(id, forced) => ReplyView::Deleted(id, forced),
            Reply::Refused(id, error) => ReplyView::Refused(id, error),
            Reply::Usage(verb) => ReplyView::Usage(verb),
            Reply::Help => ReplyView::Help,
            Reply::Exit => ReplyView::Exit,
            Reply::UnknownCommand => ReplyView::UnknownCommand,
        }
    }
}

/// The status that a word, already in lower case, names.
pub open spec fn status_named(word: Seq<char>) -> Option<TaskStatus> {
    if word == status_keyword(TaskStatus::Todo) {
        Some(TaskStatus::Todo)
    } else if word == status_keyword(TaskStatus::Doing) {
        Some(TaskStatus::Doing)
    } else if word == status_keyword(TaskStatus::Done) {
        Some(TaskStatus::Done)
    } else {
        None
    }
}

/// Each status is named by its own keyword, and by no other.
pub proof fn lemma_keyword_names_its_status(status: TaskStatus)
    ensures
        status_named(status_keyword(status)) == Some(status),
{
    reveal_strlit("todo");
    reveal_strlit("doing");
    reveal_strlit("done");
    assert("todo"@[0] != "done"@[0]);
    assert("todo"@.len() != "doing"@.len());
}

/// Reads a status from a word that is already in lower case.
pub fn status_from_word(word: &str) -> (status: Option<TaskStatus>)
    ensures
        status == status_named(word@),
{
    if same_text(word, TaskStatus::Todo.keyword()) {
        Some(TaskStatus::Todo)
    } else if same_text(word, TaskStatus::Doing.keyword()) {
        Some(TaskStatus::Doing)
    } else if same_text(word, TaskStatus::Done.keyword()) {
        Some(TaskStatus::Done)
    } else {
        None
    }
}

/// Reads a status from a word, whatever the case of its letters.
pub fn parse_status(word: &str) -> (status: Option<TaskStatus>)
    ensures
        status == status_named(lowercase(word@)),
{
    let lower = to_lowercase(word);
    status_from_word(lower.as_str())
}

/// Reads the identifier that the first word stands for; where it stands
/// for none, the error is the reply to give.
pub fn extract_task_id(args: &[&str]) -> (result: Result<u128, Reply>)
    requires
        args@.len() > 0,
    ensures
        match result {
            Ok(id) => parsed_id(args@[0]@) == Some(id),
            Err(reply) => parsed_id(args@[0]@) is None && reply@ == ReplyView::InvalidId(
                args@[0]@,
            ),
        },
{
    match parse_id(args[0]) {
        Some(id) => Ok(id),
        None => Err(Reply::InvalidId(args[0].to_string())),
    }
}

/// What `add` does with the name `name`: `before` and `after` are the
/// store's contents, `reply` is the answer.
pub open spec fn add_command_result(
    before: Map<u128, TaskView>,
    name: Seq<char>,
    after: Map<u128, TaskView>,
    reply: ReplyView,
) -> bool {
    if name.len() == 0 {
        reply == ReplyView::NameMissing && after == before
    } else {
        match reply {
            ReplyView::Added(id) => after == after_add(before, id, name),
            ReplyView::StoreFailed(_) => after == before,
            _ => false,
        }
    }
}

/// The reply to a creation, given what the store returned.
pub fn reply_to_creation(result: Result<u128, TaskError>) -> (reply: Reply)
    ensures
        reply@ == match result {
            Ok(id) => ReplyView::Added(id),
            Err(error) => ReplyView::StoreFailed(error),
        },
{
    match result {
        Ok(id) => Reply::Added(id),
        Err(error) => Reply::StoreFailed(error),
    }
}

/// `add <name>`: creates a task with the given name, unless it is empty.
pub fn handle_add_command<M: TaskManager>(manager: &mut M, task_name: &str) -> (reply: Reply)
    requires
        consistent(old(manager)@),
    ensures
        consistent(final(manager)@),
        add_command_result(old(manager)@, task_name@, final(manager)@, reply@),
{
    if !task_name.is_empty() {
        reply_to_creation(manager.add_task(task_name))
    } else {
        Reply::NameMissing
    }
}

/// Whether `reply` answers `show` with the words `args` on a store that
/// holds `tasks`. A listing may come in any order.
pub open spec fn show_command_reply(
    tasks: Map<u128, TaskView>,
    args: Seq<Seq<char>>,
    reply: ReplyView,
) -> bool {
    if args.len() == 0 {
        reply matches ReplyView::Listing(listing, filter) && filter is None && lists(listing, tasks)
    } else if args.len() == 1 {
        let word = lowercase(args[0]);
        if word == "*"@ {
            reply matches ReplyView::Listing(listing, filter) && filter is None && lists(
                listing,
                tasks,
            )
        } else if status_named(word) is Some {
            reply matches ReplyView::Listing(listing, filter) && filter == status_named(word)
                && lists(listing, with_status(tasks, status_named(word)->0))
        } else {
            match parsed_id(word) {
                None => reply == ReplyView::InvalidId(word),
                Some(id) => match lookup(tasks, id) {
                    Some(task) => reply == ReplyView::Found(task),
                    None => reply == ReplyView::Refused(id, TaskError::NotFound),
                },
            }
        }
    } else {
        reply == ReplyView::Usage(Verb::Show)
    }
}

/// `show`, `show *`, `show <status>`, `show <id>`: hands out the tasks
/// asked for, and leaves the store as it is.
pub fn handle_show_command<M: TaskManager>(manager: &mut M, args: &[&str]) -> (reply: Reply)
    requires
        consistent(old(manager)@),
    ensures
        final(manager)@ == old(manager)@,
        show_command_reply(old(manager)@, texts(args@), reply@),
{
    if args.len() == 0 {
        Reply::Listing(manager.get_tasks(), None)
    } else if args.len() == 1 {
        let word = to_lowercase(args[0]);
        if same_text(word.as_str(), "*") {
            return Reply::Listing(manager.get_tasks(), None);
        }
        match status_from_word(word.as_str()) {
            Some(status) => Reply::Listing(manager.filter_tasks_by_status(status), Some(status)),
            None => match parse_id(word.as_str()) {
                None => Reply::InvalidId(word),
                Some(id) => match manager.get_task_by_id(id) {
                    Some(task) => Reply::Found(task),
                    None => Reply::Refused(id, TaskError::NotFound),
                },
            },
        }
    } else {
        Reply::Usage(Verb::Show)
    }
}

/// The answer of `move` with the words `args` on a store that holds
/// `tasks`.
pub open spec fn move_command_reply(tasks: Map<u128, TaskView>, args: Seq<Seq<char>>) -> ReplyView {
    if args.len() != 2 {
        ReplyView::Usage(Verb::Move)
    } else {
        match parsed_id(args[0]) {
            None => ReplyView::InvalidId(args[0]),
            Some(id) => match status_named(lowercase(args[1])) {
                None => ReplyView::UnknownStatus(args[1]),
                Some(to) => match move_outcome(tasks, id, to) {
                    Ok(now) => ReplyView::Moved(id, now),
                    Err(error) => ReplyView::Refused(id, error),
                },
            },
        }
    }
}

/// What the store holds after `move` with the words `args`.
pub open spec fn move_command_effect(tasks: Map<u128, TaskView>, args: Seq<Seq<char>>) -> Map<
    u128,
    TaskView,
> {
    if args.len() == 2 && parsed_id(args[0]) is Some && status_named(lowercase(args[1])) is Some {
        after_move(tasks, parsed_id(args[0])->0, status_named(lowercase(args[1]))->0)
    } else {
        tasks
    }
}

/// `move <id> <status>`: moves the task to the status, where the
/// workflow allows it.
pub fn handle_move_command<M: TaskManager>(manager: &mut M, args: &[&str]) -> (reply: Reply)
    requires
        consistent(old(manager)@),
    ensures
        consistent(final(manager)@),
        reply@ == move_command_reply(old(manager)@, texts(args@)),
        final(manager)@ == move_command_effect(old(manager)@, texts(args@)),
{
    if args.len() != 2 {
        return Reply::Usage(Verb::Move);
    }
    let id = match extract_task_id(args) {
        Ok(id) => id,
        Err(reply) => {
            return reply;
        },
    };
    match parse_status(args[1]) {
        None => Reply::UnknownStatus(args[1].to_string()),
        Some(to) => match manager.move_task(id, to) {
            Ok(now) => Reply::Moved(id, now),
            Err(error) => Reply::Refused(id, error),
        },
    }
}

/// The name that `update` gives: the words after the identifier, with
/// single spaces between them.
pub open spec fn update_command_name(args: Seq<Seq<char>>) -> Seq<char> {
    joined(args.subrange(1, args.len() as int))
}

/// The answer of `update` with the words `args` on a store that holds
/// `tasks`.
pub open spec fn update_command_reply(tasks: Map<u128, TaskView>, args: Seq<Seq<char>>) -> ReplyView {
    if args.len() < 2 {
        ReplyView::Usage(Verb::Update)
    } else {
        match parsed_id(args[0]) {
            None => ReplyView::InvalidId(args[0]),
            Some(id) => match rename_outcome(tasks, id) {
                Some(_) => ReplyView::Renamed(id, update_command_name(args)),
                None => ReplyView::Refused(id, TaskError::NotFound),
            },
        }
    }
}

/// What the store holds after `update` with the words `args`.
pub open spec fn update_command_effect(tasks: Map<u128, TaskView>, args: Seq<Seq<char>>) -> Map<
    u128,
    TaskView,
> {
    if args.len() >= 2 && parsed_id(args[0]) is Some {
        after_rename(tasks, parsed_id(args[0])->0, update_command_name(args))
    } else {
        tasks
    }
}

/// `update <id> <new name...>`: renames the task.
pub fn handle_update_command<M: TaskManager>(manager: &mut M, args: &[&str]) -> (reply: Reply)
    requires
        consistent(old(manager)@),
    ensures
        consistent(final(manager)@),
        reply@ == update_command_reply(old(manager)@, texts(args@)),
        final(manager)@ == update_command_effect(old(manager)@, texts(args@)),
{
    if args.len() < 2 {
        return Reply::Usage(Verb::Update);
    }
    let id = match extract_task_id(args) {
        Ok(id) => id,
        Err(reply) => {
            return reply;
        },
    };
    let name = join_words(args, 1);
    match manager.update_task_name(id, name.as_str()) {
        Some(_) => Reply::Renamed(id, name),
        None => Reply::Refused(id, TaskError::NotFound),
    }
}

/// Whether the words `args` ask `delete` to force the deletion; `None`
/// where they do not fit the command.
pub open spec fn delete_command_force(args: Seq<Seq<char>>) -> Option<bool> {
    if args.len() == 1 {
        Some(false)
    } else if args.len() == 2 && args[1] == "-f"@ {
        Some(true)
    } else {
        None
    }
}

/// The answer of `delete` with the words `args` on a store that holds
/// `tasks`.
pub open spec fn delete_command_reply(tasks: Map<u128, TaskView>, args: Seq<Seq<char>>) -> ReplyView {
    if args.len() != 1 && args.len() != 2 {
        ReplyView::Usage(Verb::Delete)
    } else {
        match parsed_id(args[0]) {
            None => ReplyView::InvalidId(args[0]),
            Some(id) => match delete_command_force(args) {
                None => ReplyView::Usage(Verb::Delete),
                Some(force) => match delete_outcome(tasks, id, force) {
                    Ok(_) => ReplyView::Deleted(id, force),
                    Err(error) => ReplyView::Refused(id, error),
                },
            },
        }
    }
}

/// What the store holds after `delete` with the words `args`.
pub open spec fn delete_command_effect(tasks: Map<u128, TaskView>, args: Seq<Seq<char>>) -> Map<
    u128,
    TaskView,
> {
    if delete_command_force(args) is Some && parsed_id(args[0]) is Some {
        after_delete(tasks, parsed_id(args[0])->0, delete_command_force(args)->0)
    } else {
        tasks
    }
}

/// `delete <id>` deletes a task that is done; `delete <id> -f` deletes
/// the task whatever its status.
pub fn handle_delete_command<M: TaskManager>(manager: &mut M, args: &[&str]) -> (reply: Reply)
    requires
        consistent(old(manager)@),
    ensures
        consistent(final(manager)@),
        reply@ == delete_command_reply(old(manager)@, texts(args@)),
        final(manager)@ == delete_command_effect(old(manager)@, texts(args@)),
{
    if args.len() != 1 && args.len() != 2 {
        return Reply::Usage(Verb::Delete);
    }
    let id = match extract_task_id(args) {
        Ok(id) => id,
        Err(reply) => {
            return reply;
        },
    };
    let force = args.len() == 2;
    if force && !same_text(args[1], "-f") {
        return Reply::Usage(Verb::Delete);
    }
    match manager.delete_task(id, force) {
        Ok(_) => Reply::Deleted(id, force),
        Err(error) => Reply::Refused(id, error),
    }
}

/// The line that shows one task.
pub open spec fn task_line(task: TaskView) -> Seq<char> {
    "id:\t"@ + hyphenated(task.id) + ",\tname:\t"@ + task.name + ",\tstatus:\t"@ + status_label(
        task.status,
    )
}

/// The line that stands for an empty listing; `status` is the word the
/// listing was asked by, or empty.
pub open spec fn empty_notice(status: Seq<char>) -> Seq<char> {
    if status.len() == 0 {
        "Empty List!"@
    } else {
        "Empty "@ + status + " List!"@
    }
}

/// The lines that show a listing: one for each task, in the order
/// given, or the notice that there is none.
pub open spec fn display_lines(tasks: Seq<TaskView>, status: Seq<char>) -> Seq<Seq<char>> {
    if tasks.len() == 0 {
        seq![empty_notice(status)]
    } else {
        tasks.map_values(|task: TaskView| task_line(task))
    }
}

/// The texts of a list of lines.
pub open spec fn line_texts(lines: Seq<String>) -> Seq<Seq<char>> {
    lines.map_values(|line: String| line@)
}

/// Writes a listing out, line by line.
pub fn display_tasks(tasks: Vec<Task>, status: &str) -> (lines: Vec<String>)
    ensures
        line_texts(lines@) == display_lines(views(tasks@), status@),
{
    let mut lines: Vec<String> = Vec::new();
    if tasks.len() == 0 {
        let mut notice = String::new();
        if status.is_empty() {
            notice.append("Empty List!");
        } else {
            notice.append("Empty ");
            notice.append(status);
            notice.append(" List!");
        }
        lines.push(notice);
        assert(line_texts(lines@) =~= display_lines(views(tasks@), status@));
        return lines;
    }
    let mut at: usize = 0;
    while at < tasks.len()
        invariant
            at <= tasks@.len(),
            lines@.len() == at,
            forall|i: int| 0 <= i < at ==> (#[trigger] lines@[i])@ == task_line(tasks@[i]@),
        decreases tasks@.len() - at,
    {
        let task = &tasks[at];
        let id = id_text(task.id);
        let mut line = String::new();
        line.append("id:\t");
        line.append(id.as_str());
        line.append(",\tname:\t");
        line.append(task.name.as_str());
        line.append(",\tstatus:\t");
        line.append(task.status.label());
        lines.push(line);
        at = at + 1;
    }
    assert(line_texts(lines@) =~= display_lines(views(tasks@), status@));
    lines
}

/// The command reference.
pub open spec fn help_lines() -> Seq<Seq<char>> {
    seq![
        "Commands: <Insensitive>"@,
        "------------------"@,
        "add <task_name>               : Add a new task with the specified name<sensitive>"@,
        "move <task_id> <status>       : Move a task to the specified status (todo -> doing -> done || done -> [doing | todo] || doing -> todo )"@,
        "show [op]                     : show | show * -> Show all tasks || show status ->  Show all tasks in that status  || show task_id  -> show that task"@,
        "delete <task_id> [op]         : delete task_id -> Delete a task with the specified ID if task in Done || delete task_id -f -> force delete for task from any status"@,
        "update <task_id> <new_name>   : Update the name of a task"@,
        "exit"@,
    ]
}

/// `help`: writes the command reference out, line by line.
pub fn handle_help_command() -> (lines: Vec<String>)
    ensures
        line_texts(lines@) == help_lines(),
{
    let mut lines: Vec<String> = Vec::new();
    lines.push("Commands: <Insensitive>".to_string());
    lines.push("------------------".to_string());
    lines.push(
        "add <task_name>               : Add a new task with the specified name<sensitive>".to_string(),
    );
    lines.push(
        "move <task_id> <status>       : Move a task to the specified status (todo -> doing -> done || done -> [doing | todo] || doing -> todo )".to_string(),
    );
    lines.push(
        "show [op]                     : show | show * -> Show all tasks || show status ->  Show all tasks in that status  || show task_id  -> show that task".to_string(),
    );
    lines.push(
        "delete <task_id> [op]         : delete task_id -> Delete a task with the specified ID if task in Done || delete task_id -f -> force delete for task from any status".to_string(),
    );
    lines.push("update <task_id> <new_name>   : Update the name of a task".to_string());
    lines.push("exit".to_string());
    assert(line_texts(lines@) =~= help_lines());
    lines
}

/// The command that a word, already in lower case, names.
pub open spec fn verb_named(word: Seq<char>) -> Option<Verb> {
    if word == "add"@ {
        Some(Verb::Add)
    } else if word == "show"@ {
        Some(Verb::Show)
    } else if word == "move"@ {
        Some(Verb::Move)
    } else if word == "update"@ {
        Some(Verb::Update)
    } else if word == "delete"@ {
        Some(Verb::Delete)
    } else if word == "help"@ {
        Some(Verb::Help)
    } else if word == "exit"@ {
        Some(Verb::Exit)
    } else {
        None
    }
}

/// Reads a command from a word that is already in lower case.
pub fn verb_from_word(word: &str) -> (verb: Option<Verb>)
    ensures
        verb == verb_named(word@),
{
    if same_text(word, "add") {
        Some(Verb::Add)
    } else if same_text(word, "show") {
        Some(Verb::Show)
    } else if same_text(word, "move") {
        Some(Verb::Move)
    } else if same_text(word, "update") {
        Some(Verb::Update)
    } else if same_text(word, "delete") {
        Some(Verb::Delete)
    } else if same_text(word, "help") {
        Some(Verb::Help)
    } else if same_text(word, "exit") {
        Some(Verb::Exit)
    } else {
        None
    }
}

/// Reads a command from a word, whatever the case of its letters.
pub fn parse_verb(word: &str) -> (verb: Option<Verb>)
    ensures
        verb == verb_named(lowercase(word@)),
{
    let lower = to_lowercase(word);
    verb_from_word(lower.as_str())
}

/// What a command line does: `words` are its words, the verb first,
/// `before` and `after` are the store's contents, `reply` is the answer.
pub open spec fn command_result(
    before: Map<u128, TaskView>,
    words: Seq<Seq<char>>,
    after: Map<u128, TaskView>,
    reply: ReplyView,
) -> bool {
    if words.len() == 0 {
        reply == ReplyView::Nothing && after == before
    } else {
        let args = words.subrange(1, words.len() as int);
        match verb_named(lowercase(words[0])) {
            None => reply == ReplyView::UnknownCommand && after == before,
            Some(Verb::Add) => add_command_result(before, joined(args), after, reply),
            Some(Verb::Show) => show_command_reply(before, args, reply) && after == before,
            Some(Verb::Move) => reply == move_command_reply(before, args) && after
                == move_command_effect(before, args),
            Some(Verb::Update) => reply == update_command_reply(before, args) && after
                == update_command_effect(before, args),
            Some(Verb::Delete) => reply == delete_command_reply(before, args) && after
                == delete_command_effect(before, args),
            Some(Verb::Help) => reply == ReplyView::Help && after == before,
            Some(Verb::Exit) => reply == ReplyView::Exit && after == before,
        }
    }
}

/// Carries out one command line, given as its words.
pub fn run_command<M: TaskManager>(manager: &mut M, words: &[&str]) -> (reply: Reply)
    requires
        consistent(old(manager)@),
    ensures
        consistent(final(manager)@),
        command_result(old(manager)@, texts(words@), final(manager)@, reply@),
{
    if words.len() == 0 {
        return Reply::Nothing;
    }
    let args = slice_subrange(words, 1, words.len());
    assert(texts(args@) =~= texts(words@).subrange(1, words@.len() as int));
    match parse_verb(words[0]) {
        None => Reply::UnknownCommand,
        Some(Verb::Add) => {
            let name = join_words(words, 1);
            handle_add_command(manager, name.as_str())
        },
        Some(Verb::Show) => handle_show_command(manager, args),
        Some(Verb::Move) => handle_move_command(manager, args),
        Some(Verb::Update) => handle_update_command(manager, args),
        Some(Verb::Delete) => handle_delete_command(manager, args),
        Some(Verb::Help) => Reply::Help,
        Some(Verb::Exit) => Reply::Exit,
    }
}

} // verus!
