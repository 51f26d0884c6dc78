//! The links among the notes of a task, and the menu that offers them.

use vstd::prelude::*;
use vstd::string::*;
use crate::error::{MenuError, MenuErrorView};
use crate::menu::{labels, offered, LabeledItem};
use crate::order::{
    arranged, in_order, label_after, label_order, lemma_arranged_in_order, lemma_label_orders, rows,
};
use crate::task::{notes, Annotation, AnnotationView};
use crate::text::{chars_of, precedes, starts_with, texts};

verus! {

/// Whether a note is a link: its text begins with `https://` or `http://`.
pub open spec fn is_link(description: Seq<char>) -> bool {
    "https://"@.is_prefix_of(description) || "http://"@.is_prefix_of(description)
}

/// Whether the note with the text `description` is a link.
pub fn link(description: &str) -> (b: bool)
    ensures
        b == is_link(description@),
{
    starts_with(description, "https://") || starts_with(description, "http://")
}

/// The notes among `all` that are links, in their order.
pub open spec fn links(all: Seq<AnnotationView>) -> Seq<AnnotationView>
    decreases all.len(),
{
    if all.len() == 0 {
        Seq::empty()
    } else if is_link(all.last().description) {
        links(all.drop_last()).push(all.last())
    } else {
        links(all.drop_last())
    }
}

/// Copies of the notes among `all` that are links, in their order.
pub fn find_links(all: &Vec<Annotation>) -> (found: Vec<Annotation>)
    ensures
        notes(found@) == links(notes(all@)),
{
    let mut found: Vec<Annotation> = Vec::new();
    let mut i: usize = 0;
    while i < all.len()
        invariant
            i <= all.len(),
            notes(found@) == links(notes(all@).take(i as int)),
        decreases all.len() - i,
    {
        proof {
            assert(notes(all@).take(i + 1).drop_last() =~= notes(all@).take(i as int));
            assert(notes(all@).take(i + 1).last() == all@[i as int]@);
        }
        if link(all[i].description.as_str()) {
            let a = all[i].copy();
            proof {
                assert(notes(found@.push(a)) =~= notes(found@).push(a@));
            }
            found.push(a);
        }
        i = i + 1;
    }
    assert(notes(all@).take(all.len() as int) =~= notes(all@));
    found
}

/// The day of the moment `seconds` after 1970-01-01 00:00:00, written as
/// year, month and day with hyphens between them, or nothing where the
/// calendar has no day for it.
pub uninterp spec fn calendar_day(seconds: int) -> Option<Seq<char>>;

/// The day of a moment, from `chrono`: `DateTime::from_timestamp`, which has
/// no moment for seconds outside its calendar, and `NaiveDateTime::format`
/// with `%Y-%m-%d`. What it gives for given seconds is always the same; it
/// is known here only by its name, `calendar_day`.
#[verifier::external_body]
fn day_text(seconds: i64) -> (r: Option<String>)
    ensures
        match r {
            Some(day) => calendar_day(seconds as int) == Some(day@),
            None => calendar_day(seconds as int) is None,
        },
{
    match chrono::DateTime::from_timestamp(seconds, 0) {
        Some(moment) => Some(moment.naive_utc().format("%Y-%m-%d").to_string()),
        None => None,
    }
}

/// The line that shows a link: the day of the note, a blank, and its text.
pub open spec fn link_label(day: Seq<char>, description: Seq<char>) -> Seq<char> {
    day + " "@ + description
}

/// The line that shows the link `description` made on `day`.
pub fn label_link(day: &str, description: &str) -> (r: String)
    ensures
        r@ == link_label(day@, description@),
{
    let mut r = String::from_str(day);
    r.append(" ");
    r.append(description);
    r
}

/// Whether the calendar has a day for each of the notes.
pub open spec fn all_dated(all: Seq<AnnotationView>) -> bool {
    forall|k: int| 0 <= k < all.len() ==> calendar_day(#[trigger] all[k].entry as int) is Some
}

/// The lines that show the notes `all`, each with its day.
pub open spec fn link_labels(all: Seq<AnnotationView>) -> Seq<Seq<char>> {
    Seq::new(
        all.len(),
        |k: int| link_label(calendar_day(all[k].entry as int).unwrap(), all[k].description),
    )
}

/// The lines that show the notes `all`, where the calendar has a day for
/// each of them.
pub fn label_links(all: &Vec<Annotation>) -> (r: Option<Vec<String>>)
    ensures
        match r {
            Some(lines) => all_dated(notes(all@)) && lines@.len() == all@.len() && texts(lines@)
                == link_labels(notes(all@)),
            None => !all_dated(notes(all@)),
        },
{
    let mut lines: Vec<String> = Vec::new();
    let mut i: usize = 0;
    while i < all.len()
        invariant
            i <= all.len(),
            lines@.len() == i,
            forall|k: int| 0 <= k < i ==> calendar_day(#[trigger] notes(all@)[k].entry as int) is Some,
            forall|k: int| 0 <= k < i ==> (#[trigger] lines@[k])@ == link_labels(notes(all@))[k],
        decreases all.len() - i,
    {
        match day_text(all[i].entry) {
            Some(day) => {
                lines.push(label_link(day.as_str(), all[i].description.as_str()));
            },
            None => {
                assert(calendar_day(notes(all@)[i as int].entry as int) is None);
                return None;
            },
        }
        i = i + 1;
    }
    assert(texts(lines@) =~= link_labels(notes(all@)));
    Some(lines)
}

/// The characters of each of `lines`.
pub fn char_rows(lines: &Vec<String>) -> (r: Vec<Vec<char>>)
    ensures
        r@.len() == lines@.len(),
        rows(r@) == texts(lines@),
{
    let mut r: Vec<Vec<char>> = Vec::new();
    let mut i: usize = 0;
    while i < lines.len()
        invariant
            i <= lines.len(),
            r@.len() == i,
            forall|k: int| 0 <= k < i ==> (#[trigger] r@[k])@ == lines@[k]@,
        decreases lines.len() - i,
    {
        r.push(chars_of(lines[i].as_str()));
        i = i + 1;
    }
    assert(rows(r@) =~= texts(lines@));
    r
}

/// What there is to choose among the links of a task.
#[derive(Debug)]
pub enum LinkChoice {
    /// The task has one link.
    Only { target: String },
    /// The task has several links: a menu of them.
    Among { items: Vec<LabeledItem<String>> },
}

/// What there is to choose among the links of a task, with texts as
/// sequences of characters.
pub enum LinkChoiceView {
    Only { target: Seq<char> },
    Among { labels: Seq<Seq<char>>, targets: Seq<Seq<char>> },
}

/// The views of a sequence of targets.
pub open spec fn targets(items: Seq<LabeledItem<String>>) -> Seq<Seq<char>> {
    Seq::new(items.len(), |k: int| items[k].item@)
}

impl View for LinkChoice {
    type V = LinkChoiceView;

    open spec fn view(&self) -> LinkChoiceView {
        match *self {
            LinkChoice::Only { target } => LinkChoiceView::Only { target: target@ },
            LinkChoice::Among { items } => LinkChoiceView::Among {
                labels: labels(items@),
                targets: targets(items@),
            },
        }
    }
}

/// The menu of the links `found`, of which there are several: the link
/// whose line comes last in a dictionary first, so that of two links with
/// different days the later one stands higher.
pub open spec fn link_menu(found: Seq<AnnotationView>) -> LinkChoiceView {
    let lines = link_labels(found);
    let order = arranged(found.len(), label_after(lines));
    LinkChoiceView::Among {
        labels: Seq::new(found.len(), |k: int| lines[order[k] as int]),
        targets: Seq::new(found.len(), |k: int| found[order[k] as int].description),
    }
}

/// The menu of links shows a line for each link, and no line stands before
/// one that comes after it in a dictionary.
pub proof fn lemma_link_menu_in_order(found: Seq<AnnotationView>)
    requires
        found.len() <= usize::MAX,
    ensures
        link_menu(found) matches LinkChoiceView::Among { labels, targets } && {
            &&& labels.len() == found.len()
            &&& targets.len() == found.len()
            &&& forall|i: int, j: int|
                0 <= i < j < labels.len() ==> !precedes(#[trigger] labels[i], #[trigger] labels[j])
            &&& forall|k: int|
                0 <= k < labels.len() ==> exists|m: int|
                    0 <= m < found.len() && #[trigger] labels[k] == link_labels(found)[m]
                        && targets[k] == #[trigger] found[m].description
        },
{
    let lines = link_labels(found);
    let order = arranged(found.len(), label_after(lines));
    lemma_label_orders(lines);
    lemma_arranged_in_order(found.len(), label_after(lines));
    let labels = link_menu(found)->labels;
    let targets = link_menu(found)->targets;
    assert forall|i: int, j: int| 0 <= i < j < labels.len() implies !precedes(
        #[trigger] labels[i],
        #[trigger] labels[j],
    ) by {
        assert(!label_after(lines)(order[i] as int, order[j] as int));
    }
    assert forall|k: int| 0 <= k < labels.len() implies exists|m: int|
        0 <= m < found.len() && #[trigger] labels[k] == link_labels(found)[m] && targets[k]
            == #[trigger] found[m].description by {
        let m = order[k] as int;
        assert(0 <= m < found.len() && labels[k] == link_labels(found)[m] && targets[k]
            == found[m].description);
    }
}

/// What a task with the notes `annotations` offers to open. It is a failure
/// to have no notes, to have no link among them, or to have several links
/// one of which has no day in the calendar.
pub open spec fn link_choice(annotations: Option<Seq<AnnotationView>>) -> Result<
    LinkChoiceView,
    MenuErrorView,
> {
    match annotations {
        None => Err(MenuErrorView::NoAnnotations),
        Some(all) => {
            let found = links(all);
            if found.len() == 0 {
                Err(MenuErrorView::NoLinks)
            } else if found.len() == 1 {
                Ok(LinkChoiceView::Only { target: found[0].description })
            } else if !all_dated(found) {
                Err(MenuErrorView::UnknownDate)
            } else {
                Ok(link_menu(found))
            }
        },
    }
}

/// The view of a choice or of the failure to offer one.
pub open spec fn choice_view(r: Result<LinkChoice, MenuError>) -> Result<
    LinkChoiceView,
    MenuErrorView,
> {
    match r {
        Ok(c) => Ok(c@),
        Err(e) => Err(e@),
    }
}

/// Decides what a task with the notes `annotations` offers to open.
pub fn choose_link(annotations: &Option<Vec<Annotation>>) -> (r: Result<LinkChoice, MenuError>)
    ensures
        choice_view(r) == link_choice(
            match *annotations {
                Some(all) => Some(notes(all@)),
                None => None,
            },
        ),
{
    let all = match annotations {
        Some(all) => all,
        None => {
            return Err(MenuError::NoAnnotations);
        },
    };
    let found = find_links(all);
    if found.len() == 0 {
        return Err(MenuError::NoLinks);
    }
    if found.len() == 1 {
        assert(found@[0]@ == notes(found@)[0]);
        return Ok(LinkChoice::Only { target: found[0].description.clone() });
    }
    let lines = match label_links(&found) {
        Some(lines) => lines,
        None => {
            return Err(MenuError::UnknownDate);
        },
    };
    let order = label_order(&char_rows(&lines));
    let n = found.len();
    let ghost want = link_menu(notes(found@));
    let mut items: Vec<LabeledItem<String>> = Vec::new();
    let mut k: usize = 0;
    while k < n
        invariant
            k <= n,
            n == found.len(),
            n == lines.len(),
            items@.len() == k,
            texts(lines@) == link_labels(notes(found@)),
            order@ == arranged(n as nat, label_after(texts(lines@))),
            in_order(order@, n as nat, label_after(texts(lines@))),
            want == link_menu(notes(found@)),
            forall|j: int| 0 <= j < k ==> (#[trigger] items@[j]).label@ == want->labels[j],
            forall|j: int| 0 <= j < k ==> (#[trigger] items@[j]).item@ == want->targets[j],
        decreases n - k,
    {
        let at = order[k];
        assert(order@[k as int] < n);
        let label = lines[at].clone();
        let item = found[at].description.clone();
        proof {
            assert(lines@[at as int]@ == texts(lines@)[at as int]);
            assert(found@[at as int]@ == notes(found@)[at as int]);
        }
        items.push(LabeledItem { label, item });
        k = k + 1;
    }
    proof {
        assert(labels(items@) =~= want->labels);
        assert(targets(items@) =~= want->targets);
    }
    Ok(LinkChoice::Among { items })
}

} // verus!
