//! What a session asks of the program that runs it, what it is told in
//! return, and where it stands between the two.

use vstd::prelude::*;
use vstd::string::*;
use crate::action::Action;
use crate::links::targets;
use crate::menu::{labels, LabeledItem};
use crate::task::{notes, opt_text, tasks, Annotation, AnnotationView, TaskRecord, TaskView};
use crate::text::texts;

verus! {

/// What is to be changed in a task before it is saved.
#[derive(Debug)]
pub enum Change {
    /// Nothing: the task is saved as it was listed.
    Keep,
    /// The task is done.
    Complete,
    /// The task is deleted.
    Delete,
    /// Work on the task began at the moment `at`.
    Start { at: i64 },
    /// Work on the task has stopped: it has no start any more.
    Stop,
    /// The task has the notes `notes` and no others.
    Annotate { notes: Vec<Annotation> },
}

/// A change with its texts as sequences of characters.
pub enum ChangeView {
    Keep,
    Complete,
    Delete,
    Start { at: i64 },
    Stop,
    Annotate { notes: Seq<AnnotationView> },
}

impl View for Change {
    type V = ChangeView;

    open spec fn view(&self) -> ChangeView {
        match *self {
            Change::Keep => ChangeView::Keep,
            Change::Complete => ChangeView::Complete,
            Change::Delete => ChangeView::Delete,
            Change::Start { at } => ChangeView::Start { at },
            Change::Stop => ChangeView::Stop,
            Change::Annotate { notes: n } => ChangeView::Annotate { notes: notes(n@) },
        }
    }
}

/// What the session asks for next.
#[derive(Debug)]
pub enum Request {
    /// Show `labels` in the picker under `prompt`. The answer is the number
    /// of the line that the user chose, counted from zero.
    Choose { prompt: String, labels: Vec<String> },
    /// Show `labels` in the picker under `prompt`. The answer is the text
    /// that the user entered or chose.
    Ask { prompt: String, labels: Vec<String> },
    /// Run the task store's command with the arguments `args`. The answer
    /// is what it printed and whether it reported success.
    Run { args: Vec<String> },
    /// List the tasks that `filter` selects. The answer is the tasks.
    List { filter: String },
    /// Make `change` to the task at `position` of the tasks listed last,
    /// and save that task.
    Save { position: usize, change: Change },
    /// Open `target` with the program that the desktop has for it.
    Open { target: String },
    /// Nothing more: the session is over. Where there is a `notice`, it is
    /// shown to the user first.
    Stop { notice: Option<String> },
}

/// A request with its texts as sequences of characters.
pub enum RequestView {
    Choose { prompt: Seq<char>, labels: Seq<Seq<char>> },
    Ask { prompt: Seq<char>, labels: Seq<Seq<char>> },
    Run { args: Seq<Seq<char>> },
    List { filter: Seq<char> },
    Save { position: usize, change: ChangeView },
    Open { target: Seq<char> },
    Stop { notice: Option<Seq<char>> },
}

impl View for Request {
    type V = RequestView;

    open spec fn view(&self) -> RequestView {
        match *self {
            Request::Choose { prompt, labels } => RequestView::Choose {
                prompt: prompt@,
                labels: texts(labels@),
            },
            Request::Ask { prompt, labels } => RequestView::Ask {
                prompt: prompt@,
                labels: texts(labels@),
            },
            Request::Run { args } => RequestView::Run { args: texts(args@) },
            Request::List { filter } => RequestView::List { filter: filter@ },
            Request::Save { position, change } => RequestView::Save { position, change: change@ },
            Request::Open { target } => RequestView::Open { target: target@ },
            Request::Stop { notice } => RequestView::Stop { notice: opt_text(notice) },
        }
    }
}

/// What came of a request.
#[derive(Debug)]
pub enum Reply {
    /// The user chose the line with the number `index`.
    Chosen { index: usize },
    /// The user entered or chose `text`.
    Text { text: String },
    /// The user closed the picker without an answer.
    Interrupted,
    /// What was asked for could not be done; `message` says why.
    Failed { message: String },
    /// The command ran to its end.
    Output { success: bool, stdout: String, stderr: String },
    /// The tasks that were listed.
    Tasks { tasks: Vec<TaskRecord> },
    /// The task was saved, or the link was opened.
    Done,
}

/// A reply with its texts as sequences of characters.
pub enum ReplyView {
    Chosen { index: usize },
    Text { text: Seq<char> },
    Interrupted,
    Failed { message: Seq<char> },
    Output { success: bool, stdout: Seq<char>, stderr: Seq<char> },
    Tasks { tasks: Seq<TaskView> },
    Done,
}

impl View for Reply {
    type V = ReplyView;

    open spec fn view(&self) -> ReplyView {
        match *self {
            Reply::Chosen { index } => ReplyView::Chosen { index },
            Reply::Text { text } => ReplyView::Text { text: text@ },
            Reply::Interrupted => ReplyView::Interrupted,
            Reply::Failed { message } => ReplyView::Failed { message: message@ },
            Reply::Output { success, stdout, stderr } => ReplyView::Output {
                success,
                stdout: stdout@,
                stderr: stderr@,
            },
            Reply::Tasks { tasks: t } => ReplyView::Tasks { tasks: tasks(t@) },
            Reply::Done => ReplyView::Done,
        }
    }
}

/// A task that a menu offers, with its place among the tasks listed.
#[derive(Debug)]
pub struct Candidate {
    pub position: usize,
    pub task: TaskRecord,
}

/// A candidate with its texts as sequences of characters.
pub struct CandidateView {
    pub position: usize,
    pub task: TaskView,
}

impl View for Candidate {
    type V = CandidateView;

    open spec fn view(&self) -> CandidateView {
        CandidateView { position: self.position, task: self.task@ }
    }
}

/// The views of the tasks that the entries `items` offer.
pub open spec fn candidates(items: Seq<LabeledItem<Candidate>>) -> Seq<CandidateView> {
    Seq::new(items.len(), |k: int| items[k].item@)
}

/// Where a session stands: what it asked for last, and what it has to keep
/// in mind for the answer.
#[derive(Debug)]
pub enum Stage {
    /// The main menu is shown.
    Action,
    /// The user is entering a new task.
    AddText,
    /// The command that adds the task runs; the notes with the texts
    /// `entered` are to be added to it.
    AddRun { entered: Vec<String> },
    /// The new task is looked up; `notes` are to be added to it.
    AddFind { notes: Vec<Annotation> },
    /// The new task is saved with its notes.
    AddSave,
    /// For `action`, the name of the default report is asked for.
    Default { action: Action },
    /// For `action`, the filter of the default report `report` is asked for.
    Filter { action: Action, report: String },
    /// For `action`, the tasks are listed.
    Tasks { action: Action },
    /// The menu of the tasks `items` is shown, for `action`.
    Task { action: Action, items: Vec<LabeledItem<Candidate>> },
    /// The user is entering modifications for `task`.
    ModText { task: TaskRecord },
    /// The command that modifies the task runs.
    ModRun,
    /// The user is entering a note for `task`.
    NoteText { position: usize, task: TaskRecord },
    /// The user is choosing until when `task` waits.
    WaitText { position: usize, task: TaskRecord },
    /// The command that defers the task at `position` runs.
    WaitRun { position: usize },
    /// A task is saved.
    Save,
    /// The menu of the links `links` is shown.
    Link { links: Vec<LabeledItem<String>> },
    /// A link is opened.
    Opening,
    /// The session is over.
    Over,
}

/// A stage with its texts as sequences of characters.
pub enum StageView {
    Action,
    AddText,
    AddRun { entered: Seq<Seq<char>> },
    AddFind { notes: Seq<AnnotationView> },
    AddSave,
    Default { action: Action },
    Filter { action: Action, report: Seq<char> },
    Tasks { action: Action },
    Task { action: Action, labels: Seq<Seq<char>>, items: Seq<CandidateView> },
    ModText { task: TaskView },
    ModRun,
    NoteText { position: usize, task: TaskView },
    WaitText { position: usize, task: TaskView },
    WaitRun { position: usize },
    Save,
    Link { labels: Seq<Seq<char>>, targets: Seq<Seq<char>> },
    Opening,
    Over,
}

impl View for Stage {
    type V = StageView;

    open spec fn view(&self) -> StageView {
        match *self {
            Stage::Action => StageView::Action,
            Stage::AddText => StageView::AddText,
            Stage::AddRun { entered } => StageView::AddRun { entered: texts(entered@) },
            Stage::AddFind { notes: n } => StageView::AddFind { notes: notes(n@) },
            Stage::AddSave => StageView::AddSave,
            Stage::Default { action } => StageView::Default { action },
            Stage::Filter { action, report } => StageView::Filter { action, report: report@ },
            Stage::Tasks { action } => StageView::Tasks { action },
            Stage::Task { action, items } => StageView::Task {
                action,
                labels: labels(items@),
                items: candidates(items@),
            },
            Stage::ModText { task } => StageView::ModText { task: task@ },
            Stage::ModRun => StageView::ModRun,
            Stage::NoteText { position, task } => StageView::NoteText { position, task: task@ },
            Stage::WaitText { position, task } => StageView::WaitText { position, task: task@ },
            Stage::WaitRun { position } => StageView::WaitRun { position },
            Stage::Save => StageView::Save,
            Stage::Link { links } => StageView::Link {
                labels: labels(links@),
                targets: targets(links@),
            },
            Stage::Opening => StageView::Opening,
            Stage::Over => StageView::Over,
        }
    }
}

} // verus!
