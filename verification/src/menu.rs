//! Entries of a menu: something to choose, and the line that shows it.

use vstd::prelude::*;
use vstd::string::*;
use crate::action::Action;
use crate::text::{lemma_texts_push, texts};

verus! {

/// Something that a menu offers, with its line in the menu.
#[derive(Debug)]
pub struct LabeledItem<T> {
    pub label: String,
    pub item: T,
}

impl LabeledItem<Action> {
    /// The entry of the main menu for `action`.
    pub fn from(action: Action) -> (r: Self)
        ensures
            r.label@ == action.name(),
            r.item == action,
    {
        LabeledItem { label: action.label(), item: action }
    }
}

/// The lines of the entries `items`.
pub open spec fn labels<T>(items: Seq<LabeledItem<T>>) -> Seq<Seq<char>> {
    Seq::new(items.len(), |k: int| items[k].label@)
}

/// What the entries `items` offer.
pub open spec fn offered<T>(items: Seq<LabeledItem<T>>) -> Seq<T> {
    Seq::new(items.len(), |k: int| items[k].item)
}

/// The lines to show for `items`, in their order.
pub fn labels_of<T>(items: &Vec<LabeledItem<T>>) -> (r: Vec<String>)
    ensures
        texts(r@) == labels(items@),
{
    let mut r: Vec<String> = Vec::new();
    let mut i: usize = 0;
    while i < items.len()
        invariant
            i <= items.len(),
            texts(r@) == labels(items@).take(i as int),
        decreases items.len() - i,
    {
        let label = items[i].label.clone();
        proof {
            lemma_texts_push(r@, label);
            assert(texts(r@).push(label@) =~= labels(items@).take(i + 1));
        }
        r.push(label);
        i = i + 1;
    }
    assert(labels(items@).take(items.len() as int) =~= labels(items@));
    r
}

/// What the entry at `index` offers, where there is such an entry.
pub fn take_item<T>(items: Vec<LabeledItem<T>>, index: usize) -> (r: Option<T>)
    ensures
        r == (if index < items@.len() {
            Some(items@[index as int].item)
        } else {
            None
        }),
{
    let mut items = items;
    if index < items.len() {
        Some(items.swap_remove(index).item)
    } else {
        None
    }
}

/// The entries of the main menu.
pub fn action_menu() -> (r: Vec<LabeledItem<Action>>)
    ensures
        offered(r@) == Action::menu(),
        labels(r@) == Action::names(),
{
    let actions = Action::all();
    let mut r: Vec<LabeledItem<Action>> = Vec::new();
    let mut i: usize = 0;
    while i < actions.len()
        invariant
            i <= actions.len(),
            actions@ == Action::menu(),
            r@.len() == i,
            forall|k: int| 0 <= k < i ==> (#[trigger] r@[k]).item == actions@[k],
            forall|k: int| 0 <= k < i ==> (#[trigger] r@[k]).label@ == actions@[k].name(),
        decreases actions.len() - i,
    {
        r.push(LabeledItem::from(actions[i]));
        i = i + 1;
    }
    assert(offered(r@) =~= Action::menu());
    assert(labels(r@) =~= Action::names());
    r
}

} // verus!
