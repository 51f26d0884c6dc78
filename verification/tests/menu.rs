use taskmenu::action::Action;
use taskmenu::menu::{action_menu, labels_of, take_item, LabeledItem};

#[test]
fn action_entry_shows_the_name_of_the_action() {
    let entry = LabeledItem::from(Action::Exit);
    assert_eq!(entry.label, "Exit (Escape)");
    assert_eq!(entry.item, Action::Exit);
}

#[test]
fn every_action_has_its_own_label() {
    let expected = [
        (Action::Add, "Add"),
        (Action::Delete, "Delete"),
        (Action::Done, "Done"),
        (Action::List, "List"),
        (Action::Start, "Start"),
        (Action::Stop, "Stop"),
        (Action::Open, "Open"),
        (Action::Mod, "Mod"),
        (Action::Wait, "Wait"),
        (Action::Annotate, "Annotate"),
        (Action::Exit, "Exit (Escape)"),
    ];
    for (action, label) in expected {
        assert_eq!(action.label(), label);
    }
}

#[test]
fn action_menu_offers_all_actions() {
    let menu = action_menu();
    let offered: Vec<Action> = menu.iter().map(|e| e.item).collect();
    assert_eq!(offered, Action::all());
    assert_eq!(labels_of(&menu)[0], "List");
    assert_eq!(labels_of(&menu).len(), 11);
}

#[test]
fn labels_of_keeps_the_order() {
    let items = vec![
        LabeledItem { label: "one".to_string(), item: 1 },
        LabeledItem { label: "two".to_string(), item: 2 },
        LabeledItem { label: "three".to_string(), item: 3 },
    ];
    assert_eq!(labels_of(&items), vec!["one", "two", "three"]);
}

#[test]
fn take_item_gives_the_entry_at_the_index() {
    for index in 0..3 {
        let items = vec![
            LabeledItem { label: "one".to_string(), item: 1 },
            LabeledItem { label: "two".to_string(), item: 2 },
            LabeledItem { label: "three".to_string(), item: 3 },
        ];
        assert_eq!(take_item(items, index), Some(index + 1));
    }
}

#[test]
fn take_item_gives_nothing_past_the_end() {
    let items = vec![LabeledItem { label: "one".to_string(), item: 1 }];
    assert_eq!(take_item(items, 1), None);
    let none: Vec<LabeledItem<u8>> = vec![];
    assert_eq!(take_item(none, 0), None);
}
