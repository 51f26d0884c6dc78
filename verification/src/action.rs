//! The actions of the main menu.

use vstd::prelude::*;
use vstd::string::*;

verus! {

/// What the user can ask for in the main menu.
#[derive(Clone, Copy, Debug, PartialEq, Eq, Structural)]
pub enum Action {
    Add,
    Delete,
    Done,
    List,
    Start,
    Stop,
    Open,
    Mod,
    Wait,
    Annotate,
    Exit,
}

impl Action {
    /// The actions in the order in which the main menu shows them.
    pub open spec fn menu() -> Seq<Action> {
        seq![
            Action::List,
            Action::Add,
            Action::Done,
            Action::Start,
            Action::Stop,
            Action::Delete,
            Action::Open,
            Action::Mod,
            Action::Wait,
            Action::Annotate,
            Action::Exit,
        ]
    }

    /// The words that the main menu shows for an action.
    pub open spec fn name(self) -> Seq<char> {
        match self {
            Action::Add => "Add"@,
            Action::Delete => "Delete"@,
            Action::Done => "Done"@,
            Action::List => "List"@,
            Action::Start => "Start"@,
            Action::Stop => "Stop"@,
            Action::Open => "Open"@,
            Action::Mod => "Mod"@,
            Action::Wait => "Wait"@,
            Action::Annotate => "Annotate"@,
            Action::Exit => "Exit (Escape)"@,
        }
    }

    /// The lines of the main menu.
    pub open spec fn names() -> Seq<Seq<char>> {
        Seq::new(Action::menu().len(), |k: int| Action::menu()[k].name())
    }

    /// Every action, in the order of the main menu.
    pub fn all() -> (v: Vec<Action>)
        ensures
            v@ == Action::menu(),
    {
        let v = vec![
            Action::List,
            Action::Add,
            Action::Done,
            Action::Start,
            Action::Stop,
            Action::Delete,
            Action::Open,
            Action::Mod,
            Action::Wait,
            Action::Annotate,
            Action::Exit,
        ];
        assert(v@ =~= Action::menu());
        v
    }

    /// The words that the main menu shows for this action.
    pub fn label(&self) -> (r: String)
        ensures
            r@ == self.name(),
    {
        String::from_str(
            match self {
                Action::Add => "Add",
                Action::Delete => "Delete",
                Action::Done => "Done",
                Action::List => "List",
                Action::Start => "Start",
                Action::Stop => "Stop",
                Action::Open => "Open",
                Action::Mod => "Mod",
                Action::Wait => "Wait",
                Action::Annotate => "Annotate",
                Action::Exit => "Exit (Escape)",
            },
        )
    }
}

} // verus!
