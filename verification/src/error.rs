//! What can go wrong in a session, and the words shown for it.

use vstd::prelude::*;
use vstd::string::*;

verus! {

/// A failure that ends the session.
#[derive(Debug)]
pub enum MenuError {
    /// The user closed the picker without choosing.
    Interrupted,
    /// The picker failed in another way; its own words.
    Picker { message: String },
    /// A task command could not be run, or its output could not be read.
    Command { message: String },
    /// A task command ran and reported failure.
    CommandFailed { stdout: String, stderr: String },
    /// The command that adds a task failed.
    AddingTask,
    /// The command that modifies a task failed.
    ModifyingTask,
    /// The command that defers a task failed.
    ModifyingWait,
    /// The command that adds a task did not answer with the new task.
    UnexpectedAddOutput { stdout: String, stderr: String },
    /// No line of the settings shown names the setting asked for.
    MissingSetting,
    /// Looking a new task up gave no task or several.
    NotOneTask,
    /// The task store failed to list or to save; its own words.
    Store { message: String },
    /// The notes of a new task could not be saved.
    SavingAnnotations,
    /// The task has no annotations at all.
    NoAnnotations,
    /// None of the task's annotations is a link.
    NoLinks,
    /// The picker failed while a link was to be chosen.
    ChoosingAnnotation,
    /// The link could not be opened.
    OpeningLink,
    /// A link is dated with a moment for which the calendar has no day.
    UnknownDate,
    /// A reply came that answers no request of the session, or a choice
    /// that was not on offer.
    OutOfTurn,
}

/// A failure with its texts as sequences of characters.
pub enum MenuErrorView {
    Interrupted,
    Picker { message: Seq<char> },
    Command { message: Seq<char> },
    CommandFailed { stdout: Seq<char>, stderr: Seq<char> },
    AddingTask,
    ModifyingTask,
    ModifyingWait,
    UnexpectedAddOutput { stdout: Seq<char>, stderr: Seq<char> },
    MissingSetting,
    NotOneTask,
    Store { message: Seq<char> },
    SavingAnnotations,
    NoAnnotations,
    NoLinks,
    ChoosingAnnotation,
    OpeningLink,
    UnknownDate,
    OutOfTurn,
}

impl View for MenuError {
    type V = MenuErrorView;

    open spec fn view(&self) -> MenuErrorView {
        match *self {
            MenuError::Interrupted => MenuErrorView::Interrupted,
            MenuError::Picker { message } => MenuErrorView::Picker { message: message@ },
            MenuError::Command { message } => MenuErrorView::Command { message: message@ },
            MenuError::CommandFailed { stdout, stderr } => MenuErrorView::CommandFailed {
                stdout: stdout@,
                stderr: stderr@,
            },
            MenuError::AddingTask => MenuErrorView::AddingTask,
            MenuError::ModifyingTask => MenuErrorView::ModifyingTask,
            MenuError::ModifyingWait => MenuErrorView::ModifyingWait,
            MenuError::UnexpectedAddOutput { stdout, stderr } => MenuErrorView::UnexpectedAddOutput {
                stdout: stdout@,
                stderr: stderr@,
            },
            MenuError::MissingSetting => MenuErrorView::MissingSetting,
            MenuError::NotOneTask => MenuErrorView::NotOneTask,
            MenuError::Store { message } => MenuErrorView::Store { message: message@ },
            MenuError::SavingAnnotations => MenuErrorView::SavingAnnotations,
            MenuError::NoAnnotations => MenuErrorView::NoAnnotations,
            MenuError::NoLinks => MenuErrorView::NoLinks,
            MenuError::ChoosingAnnotation => MenuErrorView::ChoosingAnnotation,
            MenuError::OpeningLink => MenuErrorView::OpeningLink,
            MenuError::UnknownDate => MenuErrorView::UnknownDate,
            MenuError::OutOfTurn => MenuErrorView::OutOfTurn,
        }
    }
}

/// The words for a failure.
pub open spec fn message_of(e: MenuErrorView) -> Seq<char> {
    match e {
        MenuErrorView::Interrupted => "User interrupted the action"@,
        MenuErrorView::Picker { message } => message,
        MenuErrorView::Command { message } => message,
        MenuErrorView::CommandFailed { stdout, stderr } => "stdout: "@ + stdout + " / stderr: "@
            + stderr,
        MenuErrorView::AddingTask => "adding task"@,
        MenuErrorView::ModifyingTask => "modifying task"@,
        MenuErrorView::ModifyingWait => "modifying wait"@,
        MenuErrorView::UnexpectedAddOutput { stdout, stderr } =>
            "Unexpected output from add command: `"@ + stdout + "` / stderr: `"@ + stderr + "`"@,
        MenuErrorView::MissingSetting => "Could not find default command"@,
        MenuErrorView::NotOneTask => "Querying by ID should return exactly one task"@,
        MenuErrorView::Store { message } => "tw error: "@ + message,
        MenuErrorView::SavingAnnotations => "Failed to save annotations"@,
        MenuErrorView::NoAnnotations => "No annotations found"@,
        MenuErrorView::NoLinks => "No annotation links found"@,
        MenuErrorView::ChoosingAnnotation => "Couldn't choose an annotation"@,
        MenuErrorView::OpeningLink => "Could not open item specified by annotation"@,
        MenuErrorView::UnknownDate => "Annotation date is out of range"@,
        MenuErrorView::OutOfTurn => "Unexpected reply"@,
    }
}

/// What the user is shown when the session ends on `e`: nothing when the
/// user closed the picker, else the words for `e` behind `Error: `.
pub open spec fn notice_of(e: MenuErrorView) -> Option<Seq<char>> {
    match e {
        MenuErrorView::Interrupted => None,
        _ => Some("Error: "@ + message_of(e)),
    }
}

impl MenuError {
    /// The words for this failure.
    pub fn message(&self) -> (r: String)
        ensures
            r@ == message_of(self@),
    {
        match self {
            MenuError::Interrupted => String::from_str("User interrupted the action"),
            MenuError::Picker { message } => message.clone(),
            MenuError::Command { message } => message.clone(),
            MenuError::CommandFailed { stdout, stderr } => {
                let mut r = String::from_str("stdout: ");
                r.append(stdout.as_str());
                r.append(" / stderr: ");
                r.append(stderr.as_str());
                r
            },
            MenuError::AddingTask => String::from_str("adding task"),
            MenuError::ModifyingTask => String::from_str("modifying task"),
            MenuError::ModifyingWait => String::from_str("modifying wait"),
            MenuError::UnexpectedAddOutput { stdout, stderr } => {
                let mut r = String::from_str("Unexpected output from add command: `");
                r.append(stdout.as_str());
                r.append("` / stderr: `");
                r.append(stderr.as_str());
                r.append("`");
                r
            },
            MenuError::MissingSetting => String::from_str("Could not find default command"),
            MenuError::NotOneTask => String::from_str(
                "Querying by ID should return exactly one task",
            ),
            MenuError::Store { message } => {
                let mut r = String::from_str("tw error: ");
                r.append(message.as_str());
                r
            },
            MenuError::SavingAnnotations => String::from_str("Failed to save annotations"),
            MenuError::NoAnnotations => String::from_str("No annotations found"),
            MenuError::NoLinks => String::from_str("No annotation links found"),
            MenuError::ChoosingAnnotation => String::from_str("Couldn't choose an annotation"),
            MenuError::OpeningLink => String::from_str(
                "Could not open item specified by annotation",
            ),
            MenuError::UnknownDate => String::from_str("Annotation date is out of range"),
            MenuError::OutOfTurn => String::from_str("Unexpected reply"),
        }
    }

    /// What to show the user when the session ends on this failure.
    pub fn notice(&self) -> (r: Option<String>)
        ensures
            match r {
                Some(t) => notice_of(self@) == Some(t@),
                None => notice_of(self@) is None,
            },
    {
        match self {
            MenuError::Interrupted => None,
            _ => {
                let mut r = String::from_str("Error: ");
                let m = self.message();
                r.append(m.as_str());
                Some(r)
            },
        }
    }
}

} // verus!
