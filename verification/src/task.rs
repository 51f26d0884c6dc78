//! The part of a task record that the menus read and change.

use vstd::prelude::*;
use vstd::string::*;

verus! {

/// How urgent the task store rates a task, in whole numbers.
#[derive(Clone, Copy, Debug, PartialEq, Eq, Structural)]
pub struct Urgency {
    /// Whether the rating is below zero.
    pub negative: bool,
    /// The size of the rating in hundredths, rounded.
    pub hundredths: u64,
    /// The place of the task in a menu: the smaller, the earlier.
    pub rank: i32,
}

/// A dated note on a task.
#[derive(Debug)]
pub struct Annotation {
    /// When the note was made, in seconds since 1970-01-01 00:00:00.
    pub entry: i64,
    /// The note.
    pub description: String,
}

/// A note with its text as a sequence of characters.
pub struct AnnotationView {
    pub entry: i64,
    pub description: Seq<char>,
}

impl View for Annotation {
    type V = AnnotationView;

    open spec fn view(&self) -> AnnotationView {
        AnnotationView { entry: self.entry, description: self.description@ }
    }
}

/// The views of a sequence of notes.
pub open spec fn notes(v: Seq<Annotation>) -> Seq<AnnotationView> {
    Seq::new(v.len(), |k: int| v[k]@)
}

/// The views of two sequences of notes in a row are the views of the first
/// and then those of the second.
pub proof fn lemma_notes_add(a: Seq<Annotation>, b: Seq<Annotation>)
    ensures
        notes(a + b) == notes(a) + notes(b),
{
    assert(notes(a + b) =~= notes(a) + notes(b));
}

impl Annotation {
    /// A note with the same date and text.
    pub fn copy(&self) -> (r: Annotation)
        ensures
            r@ == self@,
    {
        Annotation { entry: self.entry, description: self.description.clone() }
    }
}

/// A task as the menus see it.
#[derive(Debug)]
pub struct TaskRecord {
    /// The short number of the task, where it has one.
    pub id: Option<u64>,
    /// The lasting identifier of the task.
    pub uuid: String,
    /// What the task is.
    pub description: String,
    /// The rating of the task, where the store gave one.
    pub urgency: Option<Urgency>,
    /// The project of the task, where it has one.
    pub project: Option<String>,
    /// The notes on the task, where it has any.
    pub annotations: Option<Vec<Annotation>>,
}

/// A task with its texts as sequences of characters.
pub struct TaskView {
    pub id: Option<u64>,
    pub uuid: Seq<char>,
    pub description: Seq<char>,
    pub urgency: Option<Urgency>,
    pub project: Option<Seq<char>>,
    pub annotations: Option<Seq<AnnotationView>>,
}

impl View for TaskRecord {
    type V = TaskView;

    open spec fn view(&self) -> TaskView {
        TaskView {
            id: self.id,
            uuid: self.uuid@,
            description: self.description@,
            urgency: self.urgency,
            project: match self.project {
                Some(p) => Some(p@),
                None => None,
            },
            annotations: match self.annotations {
                Some(a) => Some(notes(a@)),
                None => None,
            },
        }
    }
}

/// The view of a text that may be missing.
pub open spec fn opt_text(o: Option<String>) -> Option<Seq<char>> {
    match o {
        Some(t) => Some(t@),
        None => None,
    }
}

/// The views of notes that may be missing.
pub open spec fn opt_notes(o: Option<Vec<Annotation>>) -> Option<Seq<AnnotationView>> {
    match o {
        Some(a) => Some(notes(a@)),
        None => None,
    }
}

impl TaskRecord {
    /// A task with the same contents.
    pub fn copy(&self) -> (r: TaskRecord)
        ensures
            r@ == self@,
    {
        TaskRecord {
            id: self.id,
            uuid: self.uuid.clone(),
            description: self.description.clone(),
            urgency: self.urgency,
            project: match &self.project {
                Some(p) => Some(p.clone()),
                None => None,
            },
            annotations: match &self.annotations {
                Some(a) => Some(copy_notes(a)),
                None => None,
            },
        }
    }
}

/// The views of a sequence of tasks.
pub open spec fn tasks(v: Seq<TaskRecord>) -> Seq<TaskView> {
    Seq::new(v.len(), |k: int| v[k]@)
}

/// Copies of the notes `v`.
pub fn copy_notes(v: &Vec<Annotation>) -> (r: Vec<Annotation>)
    ensures
        notes(r@) == notes(v@),
{
    let mut r: Vec<Annotation> = Vec::new();
    let mut i: usize = 0;
    while i < v.len()
        invariant
            i <= v.len(),
            r@.len() == i,
            notes(r@) == notes(v@).take(i as int),
        decreases v.len() - i,
    {
        let a = v[i].copy();
        proof {
            assert forall|k: int| 0 <= k < i + 1 implies notes(r@.push(a))[k] == notes(v@).take(
                i + 1,
            )[k] by {
                if k < i {
                    assert(notes(r@)[k] == notes(v@).take(i as int)[k]);
                }
            }
            assert(notes(r@.push(a)) =~= notes(v@).take(i + 1));
        }
        r.push(a);
        i = i + 1;
    }
    assert(notes(v@).take(v.len() as int) =~= notes(v@));
    r
}

} // verus!
