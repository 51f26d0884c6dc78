use taskmenu::action::Action;

#[test]
fn main_menu_lists_every_action_in_order() {
    let all = Action::all();
    let names: Vec<String> = all.iter().map(|a| a.label()).collect();
    assert_eq!(
        names,
        vec![
            "List",
            "Add",
            "Done",
            "Start",
            "Stop",
            "Delete",
            "Open",
            "Mod",
            "Wait",
            "Annotate",
            "Exit (Escape)"
        ]
    );
}
