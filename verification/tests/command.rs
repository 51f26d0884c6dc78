use taskmenu::command::{
    add_command, created_task, filter_setting_name, mod_command, mod_prompt, show_command,
    split_add_input, task_reference, wait_command, wait_suggestions,
};
use taskmenu::error::MenuError;
use taskmenu::task::TaskRecord;

fn task(id: Option<u64>) -> TaskRecord {
    TaskRecord {
        id,
        uuid: String::from("2f1c0c4e-5d3a-4a58-9d0b-6c1a3f0e9b11"),
        description: String::from("buy milk"),
        urgency: None,
        project: None,
        annotations: None,
    }
}

#[test]
fn add_input_without_notes() {
    let (text, notes) = split_add_input("buy milk");
    assert_eq!(text, "buy milk");
    assert!(notes.is_empty());
}

#[test]
fn add_input_with_notes() {
    let (text, notes) = split_add_input("buy milk -- https://shop.example --  two litres ");
    assert_eq!(text, "buy milk ");
    assert_eq!(notes, vec!["https://shop.example", "two litres"]);
}

#[test]
fn add_input_keeps_empty_notes() {
    let (text, notes) = split_add_input("--  --x");
    assert_eq!(text, "");
    assert_eq!(notes, vec!["", "x"]);
}

#[test]
fn add_input_agrees_with_splitting_and_trimming() {
    for input in ["", "a", "a--b", "a -- b -- c", "----", " a---b ", "x --\t y\u{a0}"] {
        let mut parts = input.split("--");
        let text = parts.next().unwrap().to_string();
        let notes: Vec<String> = parts.map(|n| n.trim().to_string()).collect();
        assert_eq!(split_add_input(input), (text, notes));
    }
}

#[test]
fn add_command_is_add_and_the_words() {
    assert_eq!(add_command("buy  milk +shop "), vec!["add", "buy", "milk", "+shop"]);
    assert_eq!(add_command(""), vec!["add"]);
}

#[test]
fn task_is_named_by_number_or_else_by_identifier() {
    assert_eq!(task_reference(&task(Some(12))), "12");
    assert_eq!(task_reference(&task(Some(0))), "0");
    assert_eq!(task_reference(&task(None)), "2f1c0c4e-5d3a-4a58-9d0b-6c1a3f0e9b11");
}

#[test]
fn mod_prompt_names_the_task() {
    assert_eq!(mod_prompt(&task(Some(12))), "Mods for task 12");
    assert_eq!(
        mod_prompt(&task(None)),
        "Mods for task 2f1c0c4e-5d3a-4a58-9d0b-6c1a3f0e9b11"
    );
}

#[test]
fn mod_command_is_the_task_mod_and_the_words() {
    assert_eq!(
        mod_command(&task(Some(12)), " due:tomorrow  +home"),
        vec!["12", "mod", "due:tomorrow", "+home"]
    );
    assert_eq!(
        mod_command(&task(None), ""),
        vec!["2f1c0c4e-5d3a-4a58-9d0b-6c1a3f0e9b11", "mod"]
    );
}

#[test]
fn wait_command_names_the_task_by_identifier() {
    assert_eq!(
        wait_command(&task(Some(12)), "tomorrow"),
        vec!["2f1c0c4e-5d3a-4a58-9d0b-6c1a3f0e9b11", "mod", "wait:tomorrow"]
    );
    assert_eq!(
        wait_command(&task(Some(12)), "next week"),
        vec!["2f1c0c4e-5d3a-4a58-9d0b-6c1a3f0e9b11", "mod", "wait:next week"]
    );
}

#[test]
fn wait_suggestions_are_five() {
    assert_eq!(wait_suggestions(), vec!["tomorrow", "1h", "2h", "4h", "monday"]);
}

#[test]
fn show_command_names_the_setting() {
    assert_eq!(show_command("default.command"), vec!["show", "default.command"]);
}

#[test]
fn filter_setting_is_named_after_the_report() {
    assert_eq!(filter_setting_name("next"), "report.next.filter");
    assert_eq!(filter_setting_name(""), "report..filter");
}

#[test]
fn created_task_is_the_last_word() {
    assert_eq!(created_task("Created task 12.\n", "").unwrap(), "12.");
    assert_eq!(created_task("Created task 7", "").unwrap(), "7");
    assert_eq!(created_task("Created task 7 (recurrence template).\n", "").unwrap(), "template).");
    assert_eq!(created_task("Created task ", "").unwrap(), "task");
}

#[test]
fn created_task_rejects_other_output() {
    let e = created_task("created task 12.\n", "oops").unwrap_err();
    assert!(matches!(e, MenuError::UnexpectedAddOutput { .. }));
    assert_eq!(
        e.message(),
        "Unexpected output from add command: `created task 12.\n` / stderr: `oops`"
    );
    assert!(created_task("", "").is_err());
    assert!(created_task("Created task", "").is_err());
    assert!(created_task(" Created task 1", "").is_err());
}
