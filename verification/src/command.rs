//! The arguments of the task commands, and what their output means.

use vstd::prelude::*;
use vstd::string::*;
use crate::error::{MenuError, MenuErrorView};
use crate::task::{TaskRecord, TaskView};
use crate::text::{
    dash_parts, decimal, lemma_texts_push, push_all, push_decimal, split_dashes, split_words,
    starts_with, texts, trim, trimmed, words,
};

verus! {

/// The text of the new task in what the user entered: what stands before
/// the first `--`.
pub open spec fn entered_task(input: Seq<char>) -> Seq<char> {
    dash_parts(input)[0]
}

/// The notes for the new task in what the user entered: each piece behind a
/// `--`, without the white space at its ends.
pub open spec fn entered_notes(input: Seq<char>) -> Seq<Seq<char>> {
    Seq::new((dash_parts(input).len() - 1) as nat, |k: int| trimmed(dash_parts(input)[k + 1]))
}

/// Takes what the user entered for a new task apart into the text of the
/// task and its notes.
pub fn split_add_input(input: &str) -> (r: (String, Vec<String>))
    ensures
        r.0@ == entered_task(input@),
        texts(r.1@) == entered_notes(input@),
{
    let parts = split_dashes(input);
    let task_text = parts[0].clone();
    assert(task_text@ == texts(parts@)[0]);
    let mut found: Vec<String> = Vec::new();
    let mut i: usize = 1;
    while i < parts.len()
        invariant
            1 <= i <= parts.len(),
            texts(parts@) == dash_parts(input@),
            texts(found@) == entered_notes(input@).take(i - 1),
        decreases parts.len() - i,
    {
        let t = trim(parts[i].as_str());
        proof {
            assert(parts@[i as int]@ == texts(parts@)[i as int]);
            lemma_texts_push(found@, t);
            assert(texts(found@).push(t@) =~= entered_notes(input@).take(i as int));
        }
        found.push(t);
        i = i + 1;
    }
    assert(entered_notes(input@).take(parts.len() - 1) =~= entered_notes(input@));
    (task_text, found)
}

/// The arguments that add a task: the word `add`, then the words of its text.
pub open spec fn add_args(task_text: Seq<char>) -> Seq<Seq<char>> {
    seq!["add"@] + words(task_text)
}

/// The arguments of the command that adds a task with the text `task_text`.
pub fn add_command(task_text: &str) -> (args: Vec<String>)
    ensures
        texts(args@) == add_args(task_text@),
{
    let mut args: Vec<String> = Vec::new();
    let first = String::from_str("add");
    proof {
        lemma_texts_push(args@, first);
        assert(texts(args@).push(first@) =~= seq!["add"@]);
    }
    args.push(first);
    push_all(&mut args, split_words(task_text));
    args
}

/// How a command names a task: by its number, or where it has none by its
/// identifier.
pub open spec fn task_ref(t: TaskView) -> Seq<char> {
    match t.id {
        Some(n) => decimal(n as nat),
        None => t.uuid,
    }
}

/// How a command names `task`.
pub fn task_reference(task: &TaskRecord) -> (r: String)
    ensures
        r@ == task_ref(task@),
{
    match task.id {
        Some(n) => {
            let mut r = String::new();
            push_decimal(&mut r, n);
            assert(r@ =~= decimal(n as nat));
            r
        },
        None => task.uuid.clone(),
    }
}

/// The question put to the user who is to enter modifications for a task.
pub open spec fn mod_prompt_text(t: TaskView) -> Seq<char> {
    "Mods for task "@ + task_ref(t)
}

/// The question put to the user who is to enter modifications for `task`.
pub fn mod_prompt(task: &TaskRecord) -> (r: String)
    ensures
        r@ == mod_prompt_text(task@),
{
    let mut r = String::from_str("Mods for task ");
    let name = task_reference(task);
    r.append(name.as_str());
    r
}

/// The arguments that modify a task: how the task is named, the word `mod`,
/// then the words that the user entered.
pub open spec fn mod_args(t: TaskView, input: Seq<char>) -> Seq<Seq<char>> {
    seq![task_ref(t), "mod"@] + words(input)
}

/// The arguments of the command that modifies `task` as `input` says.
pub fn mod_command(task: &TaskRecord, input: &str) -> (args: Vec<String>)
    ensures
        texts(args@) == mod_args(task@, input@),
{
    let mut args: Vec<String> = Vec::new();
    let name = task_reference(task);
    let verb = String::from_str("mod");
    proof {
        lemma_texts_push(args@, name);
        lemma_texts_push(args@.push(name), verb);
        assert(texts(args@).push(name@).push(verb@) =~= seq![task_ref(task@), "mod"@]);
    }
    args.push(name);
    args.push(verb);
    push_all(&mut args, split_words(input));
    args
}

/// The arguments that defer a task: its identifier, the word `mod`, and
/// `wait:` with what the user entered right behind it.
pub open spec fn wait_args(t: TaskView, input: Seq<char>) -> Seq<Seq<char>> {
    seq![t.uuid, "mod"@, "wait:"@ + input]
}

/// The arguments of the command that defers `task` until `input`.
pub fn wait_command(task: &TaskRecord, input: &str) -> (args: Vec<String>)
    ensures
        texts(args@) == wait_args(task@, input@),
{
    let mut args: Vec<String> = Vec::new();
    let name = task.uuid.clone();
    let verb = String::from_str("mod");
    let mut until = String::from_str("wait:");
    until.append(input);
    proof {
        lemma_texts_push(args@, name);
        lemma_texts_push(args@.push(name), verb);
        lemma_texts_push(args@.push(name).push(verb), until);
        assert(texts(args@).push(name@).push(verb@).push(until@) =~= wait_args(task@, input@));
    }
    args.push(name);
    args.push(verb);
    args.push(until);
    args
}

/// The moments that the menu proposes for deferring a task.
pub open spec fn wait_choices() -> Seq<Seq<char>> {
    seq!["tomorrow"@, "1h"@, "2h"@, "4h"@, "monday"@]
}

/// The moments that the menu proposes for deferring a task.
pub fn wait_suggestions() -> (v: Vec<String>)
    ensures
        texts(v@) == wait_choices(),
{
    let v = vec![
        String::from_str("tomorrow"),
        String::from_str("1h"),
        String::from_str("2h"),
        String::from_str("4h"),
        String::from_str("monday"),
    ];
    assert(texts(v@) =~= wait_choices());
    v
}

/// The arguments that show the setting `name`.
pub open spec fn show_args(name: Seq<char>) -> Seq<Seq<char>> {
    seq!["show"@, name]
}

/// The arguments of the command that shows the setting `name`.
pub fn show_command(name: &str) -> (args: Vec<String>)
    ensures
        texts(args@) == show_args(name@),
{
    let args = vec![String::from_str("show"), String::from_str(name)];
    assert(texts(args@) =~= show_args(name@));
    args
}

/// The setting that names the report shown by default.
pub open spec fn default_report_setting() -> Seq<char> {
    "default.command"@
}

/// The setting that holds the filter of the report `report`.
pub open spec fn filter_setting(report: Seq<char>) -> Seq<char> {
    "report."@ + report + ".filter"@
}

/// The name of the setting that holds the filter of the report `report`.
pub fn filter_setting_name(report: &str) -> (r: String)
    ensures
        r@ == filter_setting(report@),
{
    let mut r = String::from_str("report.");
    r.append(report);
    r.append(".filter");
    r
}

/// How the task store begins its answer when it has added a task.
pub open spec fn created_marker() -> Seq<char> {
    "Created task "@
}

/// The name of the new task in the answer `stdout` of the command that adds
/// one: the last word of an answer that begins as expected.
pub open spec fn created_ref(stdout: Seq<char>) -> Option<Seq<char>> {
    if created_marker().is_prefix_of(stdout) {
        Some(words(stdout).last())
    } else {
        None
    }
}

/// Reads the name of the new task out of the answer of the command that
/// adds one. An answer that does not begin with `Created task ` is a
/// failure that holds both outputs.
pub fn created_task(stdout: &str, stderr: &str) -> (r: Result<String, MenuError>)
    ensures
        match r {
            Ok(name) => created_ref(stdout@) == Some(name@),
            Err(e) => created_ref(stdout@) is None && e@ == (MenuErrorView::UnexpectedAddOutput {
                stdout: stdout@,
                stderr: stderr@,
            }),
        },
{
    if !starts_with(stdout, "Created task ") {
        return Err(
            MenuError::UnexpectedAddOutput {
                stdout: String::from_str(stdout),
                stderr: String::from_str(stderr),
            },
        );
    }
    let mut found = split_words(stdout);
    let ghost all = found@;
    proof {
        reveal_strlit("Created task ");
        assert(stdout@[0] == created_marker()[0]);
        assert(words(stdout@).len() >= 1);
    }
    let name = found.pop().unwrap();
    assert(name@ == texts(all).last());
    Ok(name)
}

} // verus!
