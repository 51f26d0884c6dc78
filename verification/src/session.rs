//! The course of a session: from where it stands and what it is told to
//! where it stands next and what it asks for.
//!
//! A session begins with the main menu. Each action of the menu is a short
//! exchange of requests and replies, after which the main menu is shown
//! again; the session ends when the user leaves the menu, when a link has
//! been opened, or on the first failure.

use vstd::prelude::*;
use vstd::string::*;
use crate::action::Action;
use crate::command::{
    add_args, add_command, created_ref, created_task, default_report_setting, entered_notes,
    entered_task, filter_setting, filter_setting_name, mod_args, mod_command, mod_prompt,
    mod_prompt_text, show_args, show_command, split_add_input, wait_args, wait_choices,
    wait_command, wait_suggestions,
};
use crate::config::{config_var, get_config_var};
use crate::dialog::{
    candidates, Candidate, CandidateView, Change, ChangeView, Reply, ReplyView, Request,
    RequestView, Stage, StageView,
};
use crate::error::{notice_of, MenuError, MenuErrorView};
use crate::label::{format_task, task_label};
use crate::links::{choose_link, link_choice, targets, LinkChoice, LinkChoiceView};
use crate::menu::{action_menu, labels, labels_of, offered, take_item, LabeledItem};
use crate::order::{
    arranged, in_order, lemma_arranged_in_order, lemma_rank_orders, rank_after, rank_order,
};
use crate::task::{
    lemma_notes_add, notes, opt_notes, tasks, Annotation, AnnotationView, TaskRecord, TaskView,
};
use crate::text::texts;

verus! {

/// The session ends on the failure `e`.
pub open spec fn failed(e: MenuErrorView) -> (StageView, RequestView) {
    (StageView::Over, RequestView::Stop { notice: notice_of(e) })
}

/// The session ends without a word.
pub open spec fn finished() -> (StageView, RequestView) {
    (StageView::Over, RequestView::Stop { notice: None })
}

/// The main menu is shown.
pub open spec fn main_menu() -> (StageView, RequestView) {
    (
        StageView::Action,
        RequestView::Choose { prompt: "Choose an action"@, labels: Action::names() },
    )
}

/// The failure that a reply means to a session that waits for the picker.
pub open spec fn picker_failure(reply: ReplyView) -> MenuErrorView {
    match reply {
        ReplyView::Interrupted => MenuErrorView::Interrupted,
        ReplyView::Failed { message } => MenuErrorView::Picker { message },
        _ => MenuErrorView::OutOfTurn,
    }
}

/// The failure that a reply means to a session that waits for a command of
/// which only the purpose `context` is reported.
pub open spec fn command_failure(reply: ReplyView, context: MenuErrorView) -> MenuErrorView {
    match reply {
        ReplyView::Output { .. } => context,
        ReplyView::Failed { .. } => context,
        _ => MenuErrorView::OutOfTurn,
    }
}

/// The failure that a reply means to a session that waits for a setting.
pub open spec fn setting_failure(reply: ReplyView) -> MenuErrorView {
    match reply {
        ReplyView::Output { success, stdout, stderr } => if success {
            MenuErrorView::MissingSetting
        } else {
            MenuErrorView::CommandFailed { stdout, stderr }
        },
        ReplyView::Failed { message } => MenuErrorView::Command { message },
        _ => MenuErrorView::OutOfTurn,
    }
}

/// The failure that a reply means to a session that waits for the task
/// store.
pub open spec fn store_failure(reply: ReplyView) -> MenuErrorView {
    match reply {
        ReplyView::Failed { message } => MenuErrorView::Store { message },
        _ => MenuErrorView::OutOfTurn,
    }
}

/// What follows the choice of `action` in the main menu.
pub open spec fn chosen_action(action: Action) -> (StageView, RequestView) {
    match action {
        Action::Add => (
            StageView::AddText,
            RequestView::Ask { prompt: "task -- annotation"@, labels: Seq::empty() },
        ),
        Action::Exit => finished(),
        _ => (
            StageView::Default { action },
            RequestView::Run { args: show_args(default_report_setting()) },
        ),
    }
}

/// What follows a reply to the main menu.
pub open spec fn after_action(reply: ReplyView) -> (StageView, RequestView) {
    match reply {
        ReplyView::Chosen { index } => if index < Action::menu().len() {
            chosen_action(Action::menu()[index as int])
        } else {
            failed(MenuErrorView::OutOfTurn)
        },
        _ => failed(picker_failure(reply)),
    }
}

/// What follows the text of a new task.
pub open spec fn after_add_text(reply: ReplyView) -> (StageView, RequestView) {
    match reply {
        ReplyView::Text { text } => (
            StageView::AddRun { entered: entered_notes(text) },
            RequestView::Run { args: add_args(entered_task(text)) },
        ),
        _ => failed(picker_failure(reply)),
    }
}

/// The notes with the texts `entered`, all made at the moment `now`.
pub open spec fn dated_notes(entered: Seq<Seq<char>>, now: i64) -> Seq<AnnotationView> {
    Seq::new(entered.len(), |k: int| AnnotationView { entry: now, description: entered[k] })
}

/// The notes of a task that had `existing` and gets `added`.
pub open spec fn merged(existing: Option<Seq<AnnotationView>>, added: Seq<AnnotationView>) -> Seq<
    AnnotationView,
> {
    match existing {
        Some(a) => a + added,
        None => added,
    }
}

/// What follows the command that adds a task, whose notes are `entered`.
pub open spec fn after_add_run(entered: Seq<Seq<char>>, reply: ReplyView, now: i64) -> (
    StageView,
    RequestView,
) {
    match reply {
        ReplyView::Output { success: true, stdout, stderr } => match created_ref(stdout) {
            None => failed(MenuErrorView::UnexpectedAddOutput { stdout, stderr }),
            Some(name) => if entered.len() == 0 {
                main_menu()
            } else {
                (
                    StageView::AddFind { notes: dated_notes(entered, now) },
                    RequestView::List { filter: name },
                )
            },
        },
        _ => failed(command_failure(reply, MenuErrorView::AddingTask)),
    }
}

/// What follows the lookup of a new task that gets the notes `added`.
pub open spec fn after_add_find(added: Seq<AnnotationView>, reply: ReplyView) -> (
    StageView,
    RequestView,
) {
    match reply {
        ReplyView::Tasks { tasks } => if tasks.len() == 1 {
            (
                StageView::AddSave,
                RequestView::Save {
                    position: 0,
                    change: ChangeView::Annotate { notes: merged(tasks[0].annotations, added) },
                },
            )
        } else {
            failed(MenuErrorView::NotOneTask)
        },
        _ => failed(store_failure(reply)),
    }
}

/// What follows the saving of a new task with its notes.
pub open spec fn after_add_save(reply: ReplyView) -> (StageView, RequestView) {
    match reply {
        ReplyView::Done => main_menu(),
        ReplyView::Failed { .. } => failed(MenuErrorView::SavingAnnotations),
        _ => failed(MenuErrorView::OutOfTurn),
    }
}

/// The setting `name` in a reply, where the reply is the output of a
/// command that reported success and holds the setting.
pub open spec fn setting_reply(reply: ReplyView, name: Seq<char>) -> Option<Seq<char>> {
    match reply {
        ReplyView::Output { success: true, stdout, stderr } => config_var(stdout, name),
        _ => None,
    }
}

/// What follows the name of the default report, asked for on behalf of
/// `action`.
pub open spec fn after_default(action: Action, reply: ReplyView) -> (StageView, RequestView) {
    match setting_reply(reply, default_report_setting()) {
        Some(report) => (
            StageView::Filter { action, report },
            RequestView::Run { args: show_args(filter_setting(report)) },
        ),
        None => failed(setting_failure(reply)),
    }
}

/// What follows the filter of the default report, asked for on behalf of
/// `action`, where `report` is the name of that report.
pub open spec fn after_filter(action: Action, report: Seq<char>, reply: ReplyView) -> (
    StageView,
    RequestView,
) {
    match setting_reply(reply, filter_setting(report)) {
        Some(filter) => (StageView::Tasks { action }, RequestView::List { filter }),
        None => failed(setting_failure(reply)),
    }
}

/// The ranks of the tasks `listed`.
pub open spec fn ranks(listed: Seq<TaskView>) -> Seq<Option<i32>> {
    Seq::new(
        listed.len(),
        |k: int|
            match listed[k].urgency {
                Some(u) => Some(u.rank),
                None => None,
            },
    )
}

/// The question above the menu of tasks.
pub open spec fn task_prompt(action: Action) -> Seq<char> {
    if action == Action::List {
        "Press enter to go back"@
    } else {
        "Choose a task"@
    }
}

/// The menu of the tasks `listed`, shown for `action`: the tasks by their
/// ranks, each with its label and its place in `listed`.
pub open spec fn task_menu(action: Action, listed: Seq<TaskView>) -> (StageView, RequestView) {
    let order = arranged(listed.len(), rank_after(ranks(listed)));
    let lines = Seq::new(listed.len(), |k: int| task_label(listed[order[k] as int]));
    let items = Seq::new(
        listed.len(),
        |k: int| CandidateView { position: order[k], task: listed[order[k] as int] },
    );
    (
        StageView::Task { action, labels: lines, items },
        RequestView::Choose { prompt: task_prompt(action), labels: lines },
    )
}

/// What follows the listing of the tasks for `action`.
pub open spec fn after_tasks(action: Action, reply: ReplyView) -> (StageView, RequestView) {
    match reply {
        ReplyView::Tasks { tasks } => task_menu(action, tasks),
        _ => failed(store_failure(reply)),
    }
}

/// What follows the saving of a task with `change`.
pub open spec fn saving(position: usize, change: ChangeView) -> (StageView, RequestView) {
    (StageView::Save, RequestView::Save { position, change })
}

/// What the links of a task lead to.
pub open spec fn opening(annotations: Option<Seq<AnnotationView>>) -> (StageView, RequestView) {
    match link_choice(annotations) {
        Err(e) => failed(e),
        Ok(LinkChoiceView::Only { target }) => (
            StageView::Opening,
            RequestView::Open { target },
        ),
        Ok(LinkChoiceView::Among { labels, targets }) => (
            StageView::Link { labels, targets },
            RequestView::Choose { prompt: "Choose annotation"@, labels },
        ),
    }
}

/// What follows the choice of the task `chosen` for `action` at the moment
/// `now`.
pub open spec fn chosen_task(action: Action, chosen: CandidateView, now: i64) -> (
    StageView,
    RequestView,
) {
    match action {
        Action::List => main_menu(),
        Action::Mod => (
            StageView::ModText { task: chosen.task },
            RequestView::Ask { prompt: mod_prompt_text(chosen.task), labels: Seq::empty() },
        ),
        Action::Done => saving(chosen.position, ChangeView::Complete),
        Action::Delete => saving(chosen.position, ChangeView::Delete),
        Action::Start => saving(chosen.position, ChangeView::Start { at: now }),
        Action::Stop => saving(chosen.position, ChangeView::Stop),
        Action::Open => opening(chosen.task.annotations),
        Action::Annotate => (
            StageView::NoteText { position: chosen.position, task: chosen.task },
            RequestView::Ask { prompt: "annotation"@, labels: Seq::empty() },
        ),
        Action::Wait => (
            StageView::WaitText { position: chosen.position, task: chosen.task },
            RequestView::Ask { prompt: "Wait until?"@, labels: wait_choices() },
        ),
        Action::Add => failed(MenuErrorView::OutOfTurn),
        Action::Exit => failed(MenuErrorView::OutOfTurn),
    }
}

/// What follows a reply to the menu of the tasks `items`, shown for
/// `action`.
pub open spec fn after_task(action: Action, items: Seq<CandidateView>, reply: ReplyView, now: i64) -> (
    StageView,
    RequestView,
) {
    match reply {
        ReplyView::Chosen { index } => if index < items.len() {
            chosen_task(action, items[index as int], now)
        } else {
            failed(MenuErrorView::OutOfTurn)
        },
        ReplyView::Interrupted => if action == Action::List {
            main_menu()
        } else {
            failed(MenuErrorView::Interrupted)
        },
        _ => failed(picker_failure(reply)),
    }
}

/// What follows the modifications entered for `task`.
pub open spec fn after_mod_text(task: TaskView, reply: ReplyView) -> (StageView, RequestView) {
    match reply {
        ReplyView::Text { text } => (
            StageView::ModRun,
            RequestView::Run { args: mod_args(task, text) },
        ),
        _ => failed(picker_failure(reply)),
    }
}

/// What follows the command that modifies a task.
pub open spec fn after_mod_run(reply: ReplyView) -> (StageView, RequestView) {
    match reply {
        ReplyView::Output { success: true, stdout, stderr } => main_menu(),
        _ => failed(command_failure(reply, MenuErrorView::ModifyingTask)),
    }
}

/// What follows the note entered for `task` at the moment `now`.
pub open spec fn after_note_text(position: usize, task: TaskView, reply: ReplyView, now: i64) -> (
    StageView,
    RequestView,
) {
    match reply {
        ReplyView::Text { text } => saving(
            position,
            ChangeView::Annotate {
                notes: merged(
                    task.annotations,
                    seq![AnnotationView { entry: now, description: text }],
                ),
            },
        ),
        _ => failed(picker_failure(reply)),
    }
}

/// What follows the moment chosen for `task` to wait for.
pub open spec fn after_wait_text(position: usize, task: TaskView, reply: ReplyView) -> (
    StageView,
    RequestView,
) {
    match reply {
        ReplyView::Text { text } => (
            StageView::WaitRun { position },
            RequestView::Run { args: wait_args(task, text) },
        ),
        _ => failed(picker_failure(reply)),
    }
}

/// What follows the command that defers the task at `position`.
pub open spec fn after_wait_run(position: usize, reply: ReplyView) -> (StageView, RequestView) {
    match reply {
        ReplyView::Output { success: true, stdout, stderr } => saving(position, ChangeView::Keep),
        _ => failed(command_failure(reply, MenuErrorView::ModifyingWait)),
    }
}

/// What follows the saving of a task.
pub open spec fn after_save(reply: ReplyView) -> (StageView, RequestView) {
    match reply {
        ReplyView::Done => main_menu(),
        _ => failed(store_failure(reply)),
    }
}

/// What follows a reply to the menu of the links `targets`.
pub open spec fn after_link(targets: Seq<Seq<char>>, reply: ReplyView) -> (StageView, RequestView) {
    match reply {
        ReplyView::Chosen { index } => if index < targets.len() {
            (StageView::Opening, RequestView::Open { target: targets[index as int] })
        } else {
            failed(MenuErrorView::OutOfTurn)
        },
        ReplyView::Interrupted => failed(MenuErrorView::Interrupted),
        ReplyView::Failed { .. } => failed(MenuErrorView::ChoosingAnnotation),
        _ => failed(MenuErrorView::OutOfTurn),
    }
}

/// What follows the opening of a link.
pub open spec fn after_opening(reply: ReplyView) -> (StageView, RequestView) {
    match reply {
        ReplyView::Done => finished(),
        ReplyView::Failed { .. } => failed(MenuErrorView::OpeningLink),
        _ => failed(MenuErrorView::OutOfTurn),
    }
}


/// Where a session stands and what it asks for after `reply` has come at
/// the moment `now` to a session that stood at `stage`.
pub open spec fn next(stage: StageView, reply: ReplyView, now: i64) -> (StageView, RequestView) {
    match stage {
        StageView::Action => after_action(reply),
        StageView::AddText => after_add_text(reply),
        StageView::AddRun { entered } => after_add_run(entered, reply, now),
        StageView::AddFind { notes } => after_add_find(notes, reply),
        StageView::AddSave => after_add_save(reply),
        StageView::Default { action } => after_default(action, reply),
        StageView::Filter { action, report } => after_filter(action, report, reply),
        StageView::Tasks { action } => after_tasks(action, reply),
        StageView::Task { action, labels, items } => after_task(action, items, reply, now),
        StageView::ModText { task } => after_mod_text(task, reply),
        StageView::ModRun => after_mod_run(reply),
        StageView::NoteText { position, task } => after_note_text(position, task, reply, now),
        StageView::WaitText { position, task } => after_wait_text(position, task, reply),
        StageView::WaitRun { position } => after_wait_run(position, reply),
        StageView::Save => after_save(reply),
        StageView::Link { labels, targets } => after_link(targets, reply),
        StageView::Opening => after_opening(reply),
        StageView::Over => finished(),
    }
}

/// The places of the tasks that the entries `items` offer.
pub open spec fn places(items: Seq<CandidateView>) -> Seq<usize> {
    Seq::new(items.len(), |k: int| items[k].position)
}

/// The menu of tasks offers each of the listed tasks once, under its label
/// and with its place in the list; no task stands before one of a smaller
/// rank, and tasks of one rank stand as they were listed.
pub proof fn lemma_task_menu_in_order(action: Action, listed: Seq<TaskView>)
    requires
        listed.len() <= usize::MAX,
    ensures
        task_menu(action, listed).0 matches StageView::Task { action: a, labels, items } && {
            &&& a == action
            &&& in_order(places(items), listed.len(), rank_after(ranks(listed)))
            &&& labels.len() == listed.len()
            &&& forall|k: int|
                0 <= k < listed.len() ==> (#[trigger] items[k]).task == listed[items[k].position as int]
            &&& forall|k: int|
                0 <= k < listed.len() ==> #[trigger] labels[k] == task_label(items[k].task)
        },
        task_menu(action, listed).1 matches RequestView::Choose { labels, .. } && labels
            == task_menu(action, listed).0->Task_labels,
{
    let order = arranged(listed.len(), rank_after(ranks(listed)));
    lemma_rank_orders(ranks(listed));
    lemma_arranged_in_order(listed.len(), rank_after(ranks(listed)));
    let items = task_menu(action, listed).0->Task_items;
    assert(places(items) =~= order);
}

/// A session that is over stays over and asks for nothing more.
pub proof fn lemma_over_stays_over(reply: ReplyView, now: i64)
    ensures
        next(StageView::Over, reply, now) == finished(),
{
}

/// A session asks for nothing more exactly when it is over.
pub proof fn lemma_stops_when_over(stage: StageView, reply: ReplyView, now: i64)
    ensures
        next(stage, reply, now).1 is Stop <==> next(stage, reply, now).0 is Over,
{
}

/// Whatever a session waits for, the reply that it could not be done ends
/// the session, and the user is shown an error.
pub proof fn lemma_failure_ends_the_session(stage: StageView, message: Seq<char>, now: i64)
    requires
        !(stage is Over),
    ensures
        next(stage, ReplyView::Failed { message }, now).0 is Over,
        next(stage, ReplyView::Failed { message }, now).1 matches RequestView::Stop {
            notice: Some(text),
        } && "Error: "@.is_prefix_of(text),
{
    let r = next(stage, ReplyView::Failed { message }, now);
    assert(r.1 matches RequestView::Stop { notice: Some(text) } && text.subrange(
        0,
        "Error: "@.len() as int,
    ) =~= "Error: "@);
}

/// Whether a session that stands at `stage` waits for the picker.
pub open spec fn waits_for_picker(stage: StageView) -> bool {
    stage is Action || stage is AddText || stage is Task || stage is ModText || stage is NoteText
        || stage is WaitText || stage is Link
}

/// A user who closes the picker is never shown an error: the session ends
/// without a word, or goes back to the main menu where the tasks were only
/// listed.
pub proof fn lemma_interruption_is_quiet(stage: StageView, now: i64)
    requires
        waits_for_picker(stage),
    ensures
        next(stage, ReplyView::Interrupted, now) == (if stage matches StageView::Task {
            action: Action::List,
            ..
        } {
            main_menu()
        } else {
            finished()
        }),
{
}

fn fail(e: MenuError) -> (r: (Stage, Request))
    ensures
        (r.0@, r.1@) == failed(e@),
{
    let notice = e.notice();
    (Stage::Over, Request::Stop { notice })
}

fn finish() -> (r: (Stage, Request))
    ensures
        (r.0@, r.1@) == finished(),
{
    (Stage::Over, Request::Stop { notice: None })
}

/// The beginning of a session: the main menu is shown.
pub fn begin() -> (r: (Stage, Request))
    ensures
        (r.0@, r.1@) == main_menu(),
{
    let items = action_menu();
    let lines = labels_of(&items);
    (Stage::Action, Request::Choose { prompt: String::from_str("Choose an action"), labels: lines })
}

fn picker_error(reply: Reply) -> (e: MenuError)
    ensures
        e@ == picker_failure(reply@),
{
    match reply {
        Reply::Interrupted => MenuError::Interrupted,
        Reply::Failed { message } => MenuError::Picker { message },
        _ => MenuError::OutOfTurn,
    }
}

fn command_error(reply: Reply, context: MenuError) -> (e: MenuError)
    ensures
        e@ == command_failure(reply@, context@),
{
    match reply {
        Reply::Output { .. } => context,
        Reply::Failed { .. } => context,
        _ => MenuError::OutOfTurn,
    }
}

fn setting_error(reply: Reply) -> (e: MenuError)
    ensures
        e@ == setting_failure(reply@),
{
    match reply {
        Reply::Output { success, stdout, stderr } => {
            if success {
                MenuError::MissingSetting
            } else {
                MenuError::CommandFailed { stdout, stderr }
            }
        },
        Reply::Failed { message } => MenuError::Command { message },
        _ => MenuError::OutOfTurn,
    }
}

fn store_error(reply: Reply) -> (e: MenuError)
    ensures
        e@ == store_failure(reply@),
{
    match reply {
        Reply::Failed { message } => MenuError::Store { message },
        _ => MenuError::OutOfTurn,
    }
}

fn no_labels() -> (v: Vec<String>)
    ensures
        texts(v@) == Seq::<Seq<char>>::empty(),
{
    let v: Vec<String> = Vec::new();
    assert(texts(v@) =~= Seq::<Seq<char>>::empty());
    v
}

fn on_chosen_action(action: Action) -> (r: (Stage, Request))
    ensures
        (r.0@, r.1@) == chosen_action(action),
{
    match action {
        Action::Add => (
            Stage::AddText,
            Request::Ask { prompt: String::from_str("task -- annotation"), labels: no_labels() },
        ),
        Action::Exit => finish(),
        _ => (Stage::Default { action }, Request::Run { args: show_command("default.command") }),
    }
}

fn on_action(reply: Reply) -> (r: (Stage, Request))
    ensures
        (r.0@, r.1@) == after_action(reply@),
{
    match reply {
        Reply::Chosen { index } => {
            let items = action_menu();
            assert(forall|k: int|
                0 <= k < items@.len() ==> offered(items@)[k] == (#[trigger] items@[k]).item);
            match take_item(items, index) {
                Some(action) => on_chosen_action(action),
                None => fail(MenuError::OutOfTurn),
            }
        },
        other => fail(picker_error(other)),
    }
}

fn on_add_text(reply: Reply) -> (r: (Stage, Request))
    ensures
        (r.0@, r.1@) == after_add_text(reply@),
{
    match reply {
        Reply::Text { text } => {
            let (task_text, entered) = split_add_input(text.as_str());
            (Stage::AddRun { entered }, Request::Run { args: add_command(task_text.as_str()) })
        },
        other => fail(picker_error(other)),
    }
}

/// Notes with the texts `entered`, all made at the moment `now`.
pub fn date_notes(entered: &Vec<String>, now: i64) -> (r: Vec<Annotation>)
    ensures
        notes(r@) == dated_notes(texts(entered@), now),
{
    let mut r: Vec<Annotation> = Vec::new();
    let mut i: usize = 0;
    while i < entered.len()
        invariant
            i <= entered.len(),
            r@.len() == i,
            forall|k: int|
                0 <= k < i ==> (#[trigger] r@[k])@ == dated_notes(texts(entered@), now)[k],
        decreases entered.len() - i,
    {
        r.push(Annotation { entry: now, description: entered[i].clone() });
        i = i + 1;
    }
    assert(notes(r@) =~= dated_notes(texts(entered@), now));
    r
}

/// The notes of a task that had `existing` and gets `added`.
pub fn merge_notes(existing: Option<Vec<Annotation>>, added: Vec<Annotation>) -> (r: Vec<
    Annotation,
>)
    ensures
        notes(r@) == merged(opt_notes(existing), notes(added@)),
{
    let mut added = added;
    match existing {
        Some(mut all) => {
            proof {
                lemma_notes_add(all@, added@);
            }
            all.append(&mut added);
            all
        },
        None => added,
    }
}

fn on_add_run(entered: Vec<String>, reply: Reply, now: i64) -> (r: (Stage, Request))
    ensures
        (r.0@, r.1@) == after_add_run(texts(entered@), reply@, now),
{
    match reply {
        Reply::Output { success, stdout, stderr } => {
            if !success {
                return fail(MenuError::AddingTask);
            }
            match created_task(stdout.as_str(), stderr.as_str()) {
                Err(e) => fail(e),
                Ok(name) => {
                    if entered.len() == 0 {
                        begin()
                    } else {
                        (
                            Stage::AddFind { notes: date_notes(&entered, now) },
                            Request::List { filter: name },
                        )
                    }
                },
            }
        },
        other => fail(command_error(other, MenuError::AddingTask)),
    }
}

fn on_add_find(added: Vec<Annotation>, reply: Reply) -> (r: (Stage, Request))
    ensures
        (r.0@, r.1@) == after_add_find(notes(added@), reply@),
{
    match reply {
        Reply::Tasks { tasks: found } => {
            let mut found = found;
            if found.len() != 1 {
                return fail(MenuError::NotOneTask);
            }
            assert(tasks(found@)[0] == found@[0]@);
            let task = found.remove(0);
            (
                Stage::AddSave,
                Request::Save {
                    position: 0,
                    change: Change::Annotate { notes: merge_notes(task.annotations, added) },
                },
            )
        },
        other => fail(store_error(other)),
    }
}

fn on_add_save(reply: Reply) -> (r: (Stage, Request))
    ensures
        (r.0@, r.1@) == after_add_save(reply@),
{
    match reply {
        Reply::Done => begin(),
        Reply::Failed { .. } => fail(MenuError::SavingAnnotations),
        _ => fail(MenuError::OutOfTurn),
    }
}

fn read_setting(reply: &Reply, name: &str) -> (r: Option<String>)
    ensures
        match r {
            Some(v) => setting_reply(reply@, name@) == Some(v@),
            None => setting_reply(reply@, name@) is None,
        },
{
    match reply {
        Reply::Output { success, stdout, stderr } => {
            if *success {
                match get_config_var(stdout.as_str(), name) {
                    Ok(v) => Some(v),
                    Err(_) => None,
                }
            } else {
                None
            }
        },
        _ => None,
    }
}

fn on_default(action: Action, reply: Reply) -> (r: (Stage, Request))
    ensures
        (r.0@, r.1@) == after_default(action, reply@),
{
    match read_setting(&reply, "default.command") {
        Some(report) => {
            let name = filter_setting_name(report.as_str());
            (Stage::Filter { action, report }, Request::Run { args: show_command(name.as_str()) })
        },
        None => fail(setting_error(reply)),
    }
}

fn on_filter(action: Action, report: String, reply: Reply) -> (r: (Stage, Request))
    ensures
        (r.0@, r.1@) == after_filter(action, report@, reply@),
{
    let name = filter_setting_name(report.as_str());
    match read_setting(&reply, name.as_str()) {
        Some(filter) => (Stage::Tasks { action }, Request::List { filter }),
        None => fail(setting_error(reply)),
    }
}

fn ranks_of(listed: &Vec<TaskRecord>) -> (r: Vec<Option<i32>>)
    ensures
        r@ == ranks(tasks(listed@)),
{
    let mut r: Vec<Option<i32>> = Vec::new();
    let mut i: usize = 0;
    while i < listed.len()
        invariant
            i <= listed.len(),
            r@.len() == i,
            forall|k: int| 0 <= k < i ==> #[trigger] r@[k] == ranks(tasks(listed@))[k],
        decreases listed.len() - i,
    {
        r.push(
            match listed[i].urgency {
                Some(u) => Some(u.rank),
                None => None,
            },
        );
        i = i + 1;
    }
    assert(r@ =~= ranks(tasks(listed@)));
    r
}

/// The question above the menu of tasks that is shown for `action`.
pub fn prompt_for(action: Action) -> (r: String)
    ensures
        r@ == task_prompt(action),
{
    match action {
        Action::List => String::from_str("Press enter to go back"),
        _ => String::from_str("Choose a task"),
    }
}

/// The menu of the tasks `listed` for `action`.
pub fn show_tasks(action: Action, listed: &Vec<TaskRecord>) -> (r: (Stage, Request))
    ensures
        (r.0@, r.1@) == task_menu(action, tasks(listed@)),
{
    let n = listed.len();
    let order = rank_order(&ranks_of(listed));
    let ghost want = task_menu(action, tasks(listed@));
    let mut items: Vec<LabeledItem<Candidate>> = Vec::new();
    let mut k: usize = 0;
    while k < n
        invariant
            k <= n,
            n == listed.len(),
            items@.len() == k,
            order@ == arranged(n as nat, rank_after(ranks(tasks(listed@)))),
            in_order(order@, n as nat, rank_after(ranks(tasks(listed@)))),
            want == task_menu(action, tasks(listed@)),
            forall|j: int| 0 <= j < k ==> (#[trigger] items@[j]).label@ == want.0->Task_labels[j],
            forall|j: int| 0 <= j < k ==> (#[trigger] items@[j]).item@ == want.0->Task_items[j],
        decreases n - k,
    {
        let at = order[k];
        assert(order@[k as int] < n);
        assert(listed@[at as int]@ == tasks(listed@)[at as int]);
        let label = format_task(&listed[at]);
        let item = Candidate { position: at, task: listed[at].copy() };
        items.push(LabeledItem { label, item });
        k = k + 1;
    }
    proof {
        assert(labels(items@) =~= want.0->Task_labels);
        assert(candidates(items@) =~= want.0->Task_items);
    }
    let lines = labels_of(&items);
    (Stage::Task { action, items }, Request::Choose { prompt: prompt_for(action), labels: lines })
}

fn on_tasks(action: Action, reply: Reply) -> (r: (Stage, Request))
    ensures
        (r.0@, r.1@) == after_tasks(action, reply@),
{
    match reply {
        Reply::Tasks { tasks: listed } => show_tasks(action, &listed),
        other => fail(store_error(other)),
    }
}

fn save(position: usize, change: Change) -> (r: (Stage, Request))
    ensures
        (r.0@, r.1@) == saving(position, change@),
{
    (Stage::Save, Request::Save { position, change })
}

fn open_link(annotations: &Option<Vec<Annotation>>) -> (r: (Stage, Request))
    ensures
        (r.0@, r.1@) == opening(opt_notes(*annotations)),
{
    match choose_link(annotations) {
        Err(e) => fail(e),
        Ok(LinkChoice::Only { target }) => (Stage::Opening, Request::Open { target }),
        Ok(LinkChoice::Among { items }) => {
            let lines = labels_of(&items);
            (
                Stage::Link { links: items },
                Request::Choose { prompt: String::from_str("Choose annotation"), labels: lines },
            )
        },
    }
}

fn on_chosen_task(action: Action, chosen: Candidate, now: i64) -> (r: (Stage, Request))
    ensures
        (r.0@, r.1@) == chosen_task(action, chosen@, now),
{
    match action {
        Action::List => begin(),
        Action::Mod => {
            let prompt = mod_prompt(&chosen.task);
            (Stage::ModText { task: chosen.task }, Request::Ask { prompt, labels: no_labels() })
        },
        Action::Done => save(chosen.position, Change::Complete),
        Action::Delete => save(chosen.position, Change::Delete),
        Action::Start => save(chosen.position, Change::Start { at: now }),
        Action::Stop => save(chosen.position, Change::Stop),
        Action::Open => open_link(&chosen.task.annotations),
        Action::Annotate => (
            Stage::NoteText { position: chosen.position, task: chosen.task },
            Request::Ask { prompt: String::from_str("annotation"), labels: no_labels() },
        ),
        Action::Wait => (
            Stage::WaitText { position: chosen.position, task: chosen.task },
            Request::Ask { prompt: String::from_str("Wait until?"), labels: wait_suggestions() },
        ),
        Action::Add => fail(MenuError::OutOfTurn),
        Action::Exit => fail(MenuError::OutOfTurn),
    }
}

fn on_task(action: Action, items: Vec<LabeledItem<Candidate>>, reply: Reply, now: i64) -> (r: (
    Stage,
    Request,
))
    ensures
        (r.0@, r.1@) == after_task(action, candidates(items@), reply@, now),
{
    match reply {
        Reply::Chosen { index } => {
            assert(forall|k: int|
                0 <= k < items@.len() ==> candidates(items@)[k] == (#[trigger] items@[k]).item@);
            match take_item(items, index) {
                Some(chosen) => on_chosen_task(action, chosen, now),
                None => fail(MenuError::OutOfTurn),
            }
        },
        Reply::Interrupted => {
            match action {
                Action::List => begin(),
                _ => fail(MenuError::Interrupted),
            }
        },
        other => fail(picker_error(other)),
    }
}

fn on_mod_text(task: TaskRecord, reply: Reply) -> (r: (Stage, Request))
    ensures
        (r.0@, r.1@) == after_mod_text(task@, reply@),
{
    match reply {
        Reply::Text { text } => (
            Stage::ModRun,
            Request::Run { args: mod_command(&task, text.as_str()) },
        ),
        other => fail(picker_error(other)),
    }
}

fn on_mod_run(reply: Reply) -> (r: (Stage, Request))
    ensures
        (r.0@, r.1@) == after_mod_run(reply@),
{
    match reply {
        Reply::Output { success, stdout, stderr } => {
            if success {
                begin()
            } else {
                fail(MenuError::ModifyingTask)
            }
        },
        other => fail(command_error(other, MenuError::ModifyingTask)),
    }
}

fn on_note_text(position: usize, task: TaskRecord, reply: Reply, now: i64) -> (r: (Stage, Request))
    ensures
        (r.0@, r.1@) == after_note_text(position, task@, reply@, now),
{
    match reply {
        Reply::Text { text } => {
            let added = vec![Annotation { entry: now, description: text }];
            assert(notes(added@) =~= seq![AnnotationView { entry: now, description: text@ }]);
            save(position, Change::Annotate { notes: merge_notes(task.annotations, added) })
        },
        other => fail(picker_error(other)),
    }
}

fn on_wait_text(position: usize, task: TaskRecord, reply: Reply) -> (r: (Stage, Request))
    ensures
        (r.0@, r.1@) == after_wait_text(position, task@, reply@),
{
    match reply {
        Reply::Text { text } => (
            Stage::WaitRun { position },
            Request::Run { args: wait_command(&task, text.as_str()) },
        ),
        other => fail(picker_error(other)),
    }
}

fn on_wait_run(position: usize, reply: Reply) -> (r: (Stage, Request))
    ensures
        (r.0@, r.1@) == after_wait_run(position, reply@),
{
    match reply {
        Reply::Output { success, stdout, stderr } => {
            if success {
                save(position, Change::Keep)
            } else {
                fail(MenuError::ModifyingWait)
            }
        },
        other => fail(command_error(other, MenuError::ModifyingWait)),
    }
}

fn on_save(reply: Reply) -> (r: (Stage, Request))
    ensures
        (r.0@, r.1@) == after_save(reply@),
{
    match reply {
        Reply::Done => begin(),
        other => fail(store_error(other)),
    }
}

fn on_link(items: Vec<LabeledItem<String>>, reply: Reply) -> (r: (Stage, Request))
    ensures
        (r.0@, r.1@) == after_link(targets(items@), reply@),
{
    match reply {
        Reply::Chosen { index } => {
            assert(forall|k: int|
                0 <= k < items@.len() ==> targets(items@)[k] == (#[trigger] items@[k]).item@);
            match take_item(items, index) {
                Some(target) => (Stage::Opening, Request::Open { target }),
                None => fail(MenuError::OutOfTurn),
            }
        },
        Reply::Interrupted => fail(MenuError::Interrupted),
        Reply::Failed { .. } => fail(MenuError::ChoosingAnnotation),
        _ => fail(MenuError::OutOfTurn),
    }
}

fn on_opening(reply: Reply) -> (r: (Stage, Request))
    ensures
        (r.0@, r.1@) == after_opening(reply@),
{
    match reply {
        Reply::Done => finish(),
        Reply::Failed { .. } => fail(MenuError::OpeningLink),
        _ => fail(MenuError::OutOfTurn),
    }
}

/// Takes a session that stands at `stage` one step on: `reply` has come at
/// the moment `now`, in seconds since 1970-01-01 00:00:00 by the local
/// clock.
pub fn advance_at(stage: Stage, reply: Reply, now: i64) -> (r: (Stage, Request))
    ensures
        (r.0@, r.1@) == next(stage@, reply@, now),
{
    match stage {
        Stage::Action => on_action(reply),
        Stage::AddText => on_add_text(reply),
        Stage::AddRun { entered } => on_add_run(entered, reply, now),
        Stage::AddFind { notes } => on_add_find(notes, reply),
        Stage::AddSave => on_add_save(reply),
        Stage::Default { action } => on_default(action, reply),
        Stage::Filter { action, report } => on_filter(action, report, reply),
        Stage::Tasks { action } => on_tasks(action, reply),
        Stage::Task { action, items } => on_task(action, items, reply, now),
        Stage::ModText { task } => on_mod_text(task, reply),
        Stage::ModRun => on_mod_run(reply),
        Stage::NoteText { position, task } => on_note_text(position, task, reply, now),
        Stage::WaitText { position, task } => on_wait_text(position, task, reply),
        Stage::WaitRun { position } => on_wait_run(position, reply),
        Stage::Save => on_save(reply),
        Stage::Link { links } => on_link(links, reply),
        Stage::Opening => on_opening(reply),
        Stage::Over => finish(),
    }
}

/// The moment by the local clock, in seconds since 1970-01-01 00:00:00,
/// from `chrono`: `Local::now` and `DateTime::naive_local`, counted by
/// `NaiveDateTime::and_utc` and `DateTime::timestamp`. It hangs on the clock
/// and the time zone of the machine, so nothing is stated of it. `Local::now`
/// does not return where the clock stands before 1970.
#[verifier::external_body]
fn local_now() -> (now: i64) {
    chrono::Local::now().naive_local().and_utc().timestamp()
}

/// Takes a session that stands at `stage` one step on, at the present
/// moment: whatever the clock says, the step is the one for that moment.
pub fn advance(stage: Stage, reply: Reply) -> (r: (Stage, Request))
    ensures
        exists|now: i64| (r.0@, r.1@) == #[trigger] next(stage@, reply@, now),
{
    let now = local_now();
    advance_at(stage, reply, now)
}

} // verus!
