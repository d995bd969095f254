use todo_app::commands::{
    display_tasks, extract_task_id, handle_add_command, handle_delete_command,
    handle_help_command, handle_move_command, handle_show_command, handle_update_command, parse_status, parse_verb,
    reply_to_creation, run_command, status_from_word, verb_from_word, Reply, Verb,
};
use todo_app::task_manager::{InMemoryTaskManager, TaskError, TaskManager};
use todo_app::tasks::{Task, TaskStatus};
use todo_app::text::{join_words, same_text};

const SAMPLE_TEXT: &str = "550e8400-e29b-41d4-a716-446655440000";
const SAMPLE_ID: u128 = 0x550e8400_e29b_41d4_a716_446655440000;

fn store_with_sample() -> InMemoryTaskManager {
    let mut manager = InMemoryTaskManager::new();
    manager.insert_task(SAMPLE_ID, "sample");
    manager
}

fn listed_ids(reply: &Reply) -> Vec<u128> {
    match reply {
        Reply::Listing(tasks, _) => {
            let mut ids: Vec<u128> = tasks.iter().map(|task| task.id).collect();
            ids.sort();
            ids
        }
        _ => panic!("no listing: {:?}", reply),
    }
}

#[test]
fn extract_task_id_reads_the_hyphenated_form() {
    assert!(matches!(extract_task_id(&[SAMPLE_TEXT]), Ok(SAMPLE_ID)));
    assert!(matches!(extract_task_id(&[SAMPLE_TEXT, "ignored"]), Ok(SAMPLE_ID)));
}

#[test]
fn extract_task_id_reads_the_other_forms() {
    assert!(matches!(extract_task_id(&["550e8400e29b41d4a716446655440000"]), Ok(SAMPLE_ID)));
    assert!(matches!(extract_task_id(&["550E8400-E29B-41D4-A716-446655440000"]), Ok(SAMPLE_ID)));
    assert!(matches!(
        extract_task_id(&["{550e8400-e29b-41d4-a716-446655440000}"]),
        Ok(SAMPLE_ID)
    ));
    assert!(matches!(
        extract_task_id(&["urn:uuid:550e8400-e29b-41d4-a716-446655440000"]),
        Ok(SAMPLE_ID)
    ));
    assert!(matches!(extract_task_id(&["00000000-0000-0000-0000-000000000001"]), Ok(1)));
}

#[test]
fn extract_task_id_rejects_what_is_no_identifier() {
    for word in ["", "1", "not-a-uuid", "550e8400-e29b-41d4-a716-44665544000", "todo"] {
        match extract_task_id(&[word]) {
            Err(Reply::InvalidId(text)) => assert_eq!(text, word),
            other => panic!("{:?}", other),
        }
    }
}

#[test]
fn status_words_are_read_in_any_case() {
    assert_eq!(parse_status("todo"), Some(TaskStatus::Todo));
    assert_eq!(parse_status("DOING"), Some(TaskStatus::Doing));
    assert_eq!(parse_status("DoNe"), Some(TaskStatus::Done));
    assert_eq!(parse_status("finished"), None);
    assert_eq!(parse_status(""), None);
    assert_eq!(status_from_word("done"), Some(TaskStatus::Done));
    assert_eq!(status_from_word("Done"), None);
}

#[test]
fn verbs_are_read_in_any_case() {
    assert_eq!(parse_verb("add"), Some(Verb::Add));
    assert_eq!(parse_verb("SHOW"), Some(Verb::Show));
    assert_eq!(parse_verb("Move"), Some(Verb::Move));
    assert_eq!(parse_verb("uPdAtE"), Some(Verb::Update));
    assert_eq!(parse_verb("delete"), Some(Verb::Delete));
    assert_eq!(parse_verb("HELP"), Some(Verb::Help));
    assert_eq!(parse_verb("Exit"), Some(Verb::Exit));
    assert_eq!(parse_verb("quit"), None);
    assert_eq!(verb_from_word("exit"), Some(Verb::Exit));
    assert_eq!(verb_from_word("EXIT"), None);
}

#[test]
fn same_text_compares_characters() {
    assert!(same_text("", ""));
    assert!(same_text("-f", "-f"));
    assert!(!same_text("-f", "-F"));
    assert!(!same_text("-f", "-ff"));
}

#[test]
fn join_words_puts_single_spaces() {
    assert_eq!(join_words(&["a", "b", "c"], 0), "a b c");
    assert_eq!(join_words(&["a", "b", "c"], 1), "b c");
    assert_eq!(join_words(&["a", "b", "c"], 2), "c");
    assert_eq!(join_words(&["a", "b", "c"], 3), "");
    assert_eq!(join_words(&[], 0), "");
    assert_eq!(join_words(&["", "x"], 0), " x");
}

#[test]
fn reply_to_creation_maps_both_results() {
    assert!(matches!(reply_to_creation(Ok(9)), Reply::Added(9)));
    assert!(matches!(
        reply_to_creation(Err(TaskError::NotFound)),
        Reply::StoreFailed(TaskError::NotFound)
    ));
}

#[test]
fn add_creates_a_task_with_the_name() {
    let mut manager = InMemoryTaskManager::new();
    let id = match handle_add_command(&mut manager, "buy milk") {
        Reply::Added(id) => id,
        other => panic!("{:?}", other),
    };
    let task = manager.get_task_by_id(id).unwrap();
    assert_eq!(task.name, "buy milk");
    assert_eq!(task.status, TaskStatus::Todo);
}

#[test]
fn add_without_a_name_creates_nothing() {
    let mut manager = InMemoryTaskManager::new();
    assert!(matches!(handle_add_command(&mut manager, ""), Reply::NameMissing));
    assert!(manager.get_tasks().is_empty());
}

#[test]
fn show_lists_everything_without_arguments_and_with_a_star() {
    let mut manager = store_with_sample();
    manager.insert_task(2, "second");
    let reply = handle_show_command(&mut manager, &[]);
    assert!(matches!(reply, Reply::Listing(_, None)));
    assert_eq!(listed_ids(&reply), vec![2, SAMPLE_ID]);
    let reply = handle_show_command(&mut manager, &["*"]);
    assert!(matches!(reply, Reply::Listing(_, None)));
    assert_eq!(listed_ids(&reply), vec![2, SAMPLE_ID]);
}

#[test]
fn show_filters_by_status() {
    let mut manager = store_with_sample();
    manager.insert_task(2, "second");
    manager.insert_task(3, "third");
    assert_eq!(manager.move_task(2, TaskStatus::Doing), Ok(TaskStatus::Doing));
    assert_eq!(manager.move_task(3, TaskStatus::Doing), Ok(TaskStatus::Doing));
    assert_eq!(manager.move_task(3, TaskStatus::Done), Ok(TaskStatus::Done));
    let reply = handle_show_command(&mut manager, &["todo"]);
    assert!(matches!(reply, Reply::Listing(_, Some(TaskStatus::Todo))));
    assert_eq!(listed_ids(&reply), vec![SAMPLE_ID]);
    let reply = handle_show_command(&mut manager, &["DOING"]);
    assert!(matches!(reply, Reply::Listing(_, Some(TaskStatus::Doing))));
    assert_eq!(listed_ids(&reply), vec![2]);
    let reply = handle_show_command(&mut manager, &["Done"]);
    assert!(matches!(reply, Reply::Listing(_, Some(TaskStatus::Done))));
    assert_eq!(listed_ids(&reply), vec![3]);
}

#[test]
fn show_finds_a_task_by_identifier() {
    let mut manager = store_with_sample();
    match handle_show_command(&mut manager, &[SAMPLE_TEXT]) {
        Reply::Found(task) => {
            assert_eq!(task.id, SAMPLE_ID);
            assert_eq!(task.name, "sample");
            assert_eq!(task.status, TaskStatus::Todo);
        }
        other => panic!("{:?}", other),
    }
    assert!(matches!(
        handle_show_command(&mut manager, &["550E8400-E29B-41D4-A716-446655440000"]),
        Reply::Found(_)
    ));
    assert!(matches!(
        handle_show_command(&mut manager, &["00000000-0000-0000-0000-000000000001"]),
        Reply::Refused(1, TaskError::NotFound)
    ));
}

#[test]
fn show_reports_a_malformed_identifier_in_lower_case() {
    let mut manager = store_with_sample();
    match handle_show_command(&mut manager, &["Nonsense"]) {
        Reply::InvalidId(word) => assert_eq!(word, "nonsense"),
        other => panic!("{:?}", other),
    }
}

#[test]
fn show_with_more_than_one_argument_is_a_usage_error() {
    let mut manager = store_with_sample();
    assert!(matches!(
        handle_show_command(&mut manager, &["todo", "done"]),
        Reply::Usage(Verb::Show)
    ));
}

#[test]
fn move_changes_the_status() {
    let mut manager = store_with_sample();
    assert!(matches!(
        handle_move_command(&mut manager, &[SAMPLE_TEXT, "Doing"]),
        Reply::Moved(SAMPLE_ID, TaskStatus::Doing)
    ));
    assert_eq!(manager.get_task_by_id(SAMPLE_ID).unwrap().status, TaskStatus::Doing);
}

#[test]
fn move_reports_each_failure() {
    let mut manager = store_with_sample();
    assert!(matches!(
        handle_move_command(&mut manager, &[SAMPLE_TEXT, "done"]),
        Reply::Refused(SAMPLE_ID, TaskError::InvalidTransition)
    ));
    assert_eq!(manager.get_task_by_id(SAMPLE_ID).unwrap().status, TaskStatus::Todo);
    assert!(matches!(
        handle_move_command(&mut manager, &["00000000-0000-0000-0000-000000000001", "doing"]),
        Reply::Refused(1, TaskError::NotFound)
    ));
    match handle_move_command(&mut manager, &["xyz", "doing"]) {
        Reply::InvalidId(word) => assert_eq!(word, "xyz"),
        other => panic!("{:?}", other),
    }
    match handle_move_command(&mut manager, &[SAMPLE_TEXT, "Later"]) {
        Reply::UnknownStatus(word) => assert_eq!(word, "Later"),
        other => panic!("{:?}", other),
    }
    assert!(matches!(handle_move_command(&mut manager, &[SAMPLE_TEXT]), Reply::Usage(Verb::Move)));
    assert!(matches!(handle_move_command(&mut manager, &[]), Reply::Usage(Verb::Move)));
    assert!(matches!(
        handle_move_command(&mut manager, &[SAMPLE_TEXT, "doing", "now"]),
        Reply::Usage(Verb::Move)
    ));
    assert_eq!(manager.get_task_by_id(SAMPLE_ID).unwrap().status, TaskStatus::Todo);
}

#[test]
fn update_joins_the_words_of_the_new_name() {
    let mut manager = store_with_sample();
    match handle_update_command(&mut manager, &[SAMPLE_TEXT, "a", "longer", "name"]) {
        Reply::Renamed(SAMPLE_ID, name) => assert_eq!(name, "a longer name"),
        other => panic!("{:?}", other),
    }
    assert_eq!(manager.get_task_by_id(SAMPLE_ID).unwrap().name, "a longer name");
}

#[test]
fn update_reports_each_failure() {
    let mut manager = store_with_sample();
    assert!(matches!(
        handle_update_command(&mut manager, &[SAMPLE_TEXT]),
        Reply::Usage(Verb::Update)
    ));
    assert!(matches!(handle_update_command(&mut manager, &[]), Reply::Usage(Verb::Update)));
    match handle_update_command(&mut manager, &["xyz", "name"]) {
        Reply::InvalidId(word) => assert_eq!(word, "xyz"),
        other => panic!("{:?}", other),
    }
    assert!(matches!(
        handle_update_command(&mut manager, &["00000000-0000-0000-0000-000000000001", "name"]),
        Reply::Refused(1, TaskError::NotFound)
    ));
    assert_eq!(manager.get_task_by_id(SAMPLE_ID).unwrap().name, "sample");
}

#[test]
fn delete_without_flag_needs_done() {
    let mut manager = store_with_sample();
    assert!(matches!(
        handle_delete_command(&mut manager, &[SAMPLE_TEXT]),
        Reply::Refused(SAMPLE_ID, TaskError::NotEligibleForDeletion)
    ));
    assert!(manager.get_task_by_id(SAMPLE_ID).is_some());
    assert_eq!(manager.move_task(SAMPLE_ID, TaskStatus::Doing), Ok(TaskStatus::Doing));
    assert_eq!(manager.move_task(SAMPLE_ID, TaskStatus::Done), Ok(TaskStatus::Done));
    assert!(matches!(
        handle_delete_command(&mut manager, &[SAMPLE_TEXT]),
        Reply::Deleted(SAMPLE_ID, false)
    ));
    assert!(manager.get_task_by_id(SAMPLE_ID).is_none());
}

#[test]
fn delete_with_flag_is_forced() {
    let mut manager = store_with_sample();
    assert!(matches!(
        handle_delete_command(&mut manager, &[SAMPLE_TEXT, "-f"]),
        Reply::Deleted(SAMPLE_ID, true)
    ));
    assert!(manager.get_task_by_id(SAMPLE_ID).is_none());
    assert!(matches!(
        handle_delete_command(&mut manager, &[SAMPLE_TEXT, "-f"]),
        Reply::Refused(SAMPLE_ID, TaskError::NotFound)
    ));
}

#[test]
fn delete_reports_wrong_shapes() {
    let mut manager = store_with_sample();
    assert!(matches!(handle_delete_command(&mut manager, &[]), Reply::Usage(Verb::Delete)));
    assert!(matches!(
        handle_delete_command(&mut manager, &[SAMPLE_TEXT, "-F"]),
        Reply::Usage(Verb::Delete)
    ));
    assert!(matches!(
        handle_delete_command(&mut manager, &[SAMPLE_TEXT, "--force"]),
        Reply::Usage(Verb::Delete)
    ));
    assert!(matches!(
        handle_delete_command(&mut manager, &[SAMPLE_TEXT, "-f", "x"]),
        Reply::Usage(Verb::Delete)
    ));
    match handle_delete_command(&mut manager, &["xyz"]) {
        Reply::InvalidId(word) => assert_eq!(word, "xyz"),
        other => panic!("{:?}", other),
    }
    match handle_delete_command(&mut manager, &["xyz", "-f"]) {
        Reply::InvalidId(word) => assert_eq!(word, "xyz"),
        other => panic!("{:?}", other),
    }
    assert!(manager.get_task_by_id(SAMPLE_ID).is_some());
}

#[test]
fn display_tasks_writes_one_line_for_each_task() {
    let tasks = vec![
        Task { id: SAMPLE_ID, name: String::from("write spec"), status: TaskStatus::Todo },
        Task { id: 1, name: String::from(""), status: TaskStatus::Doing },
        Task { id: u128::MAX, name: String::from("a b"), status: TaskStatus::Done },
    ];
    assert_eq!(
        display_tasks(tasks, "done"),
        vec![
            String::from(
                "id:\t550e8400-e29b-41d4-a716-446655440000,\tname:\twrite spec,\tstatus:\tTodo"
            ),
            String::from("id:\t00000000-0000-0000-0000-000000000001,\tname:\t,\tstatus:\tDoing"),
            String::from("id:\tffffffff-ffff-ffff-ffff-ffffffffffff,\tname:\ta b,\tstatus:\tDone"),
        ]
    );
}

#[test]
fn display_tasks_writes_every_digit_in_its_place() {
    let tasks = vec![Task {
        id: 0x01234567_89ab_cdef_fedc_ba9876543210,
        name: String::from("n"),
        status: TaskStatus::Todo,
    }];
    assert_eq!(
        display_tasks(tasks, ""),
        vec![String::from(
            "id:\t01234567-89ab-cdef-fedc-ba9876543210,\tname:\tn,\tstatus:\tTodo"
        )]
    );
}

#[test]
fn display_tasks_says_when_the_listing_is_empty() {
    assert_eq!(display_tasks(Vec::new(), ""), vec![String::from("Empty List!")]);
    assert_eq!(display_tasks(Vec::new(), "todo"), vec![String::from("Empty todo List!")]);
    assert_eq!(display_tasks(Vec::new(), "done"), vec![String::from("Empty done List!")]);
}

#[test]
fn run_command_dispatches_on_the_first_word() {
    let mut manager = InMemoryTaskManager::new();
    assert!(matches!(run_command(&mut manager, &[]), Reply::Nothing));
    assert!(matches!(run_command(&mut manager, &["help"]), Reply::Help));
    assert!(matches!(run_command(&mut manager, &["EXIT"]), Reply::Exit));
    assert!(matches!(run_command(&mut manager, &["frobnicate", "x"]), Reply::UnknownCommand));
    assert!(matches!(run_command(&mut manager, &["add"]), Reply::NameMissing));
    let id = match run_command(&mut manager, &["Add", "buy", "milk"]) {
        Reply::Added(id) => id,
        other => panic!("{:?}", other),
    };
    assert_eq!(manager.get_task_by_id(id).unwrap().name, "buy milk");
    let reply = run_command(&mut manager, &["show"]);
    assert_eq!(listed_ids(&reply), vec![id]);
    assert!(matches!(run_command(&mut manager, &["show", "a", "b"]), Reply::Usage(Verb::Show)));
    assert!(matches!(run_command(&mut manager, &["move"]), Reply::Usage(Verb::Move)));
    assert!(matches!(run_command(&mut manager, &["update", "x"]), Reply::Usage(Verb::Update)));
    assert!(matches!(run_command(&mut manager, &["delete"]), Reply::Usage(Verb::Delete)));
}

#[test]
fn run_command_carries_a_task_through_its_life() {
    let mut manager = InMemoryTaskManager::new();
    manager.insert_task(SAMPLE_ID, "sample");
    assert!(matches!(
        run_command(&mut manager, &["move", SAMPLE_TEXT, "doing"]),
        Reply::Moved(SAMPLE_ID, TaskStatus::Doing)
    ));
    match run_command(&mut manager, &["update", SAMPLE_TEXT, "new", "name"]) {
        Reply::Renamed(SAMPLE_ID, name) => assert_eq!(name, "new name"),
        other => panic!("{:?}", other),
    }
    assert!(matches!(
        run_command(&mut manager, &["delete", SAMPLE_TEXT]),
        Reply::Refused(SAMPLE_ID, TaskError::NotEligibleForDeletion)
    ));
    assert!(matches!(
        run_command(&mut manager, &["move", SAMPLE_TEXT, "done"]),
        Reply::Moved(SAMPLE_ID, TaskStatus::Done)
    ));
    match run_command(&mut manager, &["show", SAMPLE_TEXT]) {
        Reply::Found(task) => {
            assert_eq!(task.name, "new name");
            assert_eq!(task.status, TaskStatus::Done);
        }
        other => panic!("{:?}", other),
    }
    assert!(matches!(
        run_command(&mut manager, &["delete", SAMPLE_TEXT]),
        Reply::Deleted(SAMPLE_ID, false)
    ));
    assert!(matches!(
        run_command(&mut manager, &["show", SAMPLE_TEXT]),
        Reply::Refused(SAMPLE_ID, TaskError::NotFound)
    ));
}

#[test]
fn help_lists_every_command() {
    let lines = handle_help_command();
    assert_eq!(lines.len(), 8);
    assert_eq!(lines[0], "Commands: <Insensitive>");
    assert_eq!(lines[1], "------------------");
    assert!(lines[2].starts_with("add <task_name> "));
    assert!(lines[3].starts_with("move <task_id> <status> "));
    assert!(lines[3].ends_with("(todo -> doing -> done || done -> [doing | todo] || doing -> todo )"));
    assert!(lines[4].starts_with("show [op] "));
    assert!(lines[5].starts_with("delete <task_id> [op] "));
    assert_eq!(lines[6], "update <task_id> <new_name>   : Update the name of a task");
    assert_eq!(lines[7], "exit");
}
