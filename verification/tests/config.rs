use taskmenu::config::get_config_var;
use taskmenu::error::MenuError;

const SHOWN: &str = "\nConfig Variable Value\ndefault.command next\nreport.next.filter status:pending -WAITING limit:page\n\nSome of your .taskrc variables differ from the default values.\n";

#[test]
fn get_config_var_finds_the_value() {
    assert_eq!(get_config_var(SHOWN, "default.command").unwrap(), "next");
}

#[test]
fn get_config_var_keeps_the_blanks_of_the_value() {
    assert_eq!(
        get_config_var(SHOWN, "report.next.filter").unwrap(),
        "status:pending -WAITING limit:page"
    );
    assert_eq!(get_config_var("a  b  c", "a").unwrap(), " b  c");
    assert_eq!(get_config_var("a ", "a").unwrap(), "");
}

#[test]
fn get_config_var_takes_the_first_line_that_names_the_setting() {
    assert_eq!(get_config_var("x 1\nx 2\n", "x").unwrap(), "1");
    assert_eq!(get_config_var("xy 1\nx 2\n", "x").unwrap(), "2");
}

#[test]
fn get_config_var_wants_the_whole_name() {
    assert!(matches!(
        get_config_var("default.commands next\n", "default.command"),
        Err(MenuError::MissingSetting)
    ));
    assert!(matches!(
        get_config_var(" default.command next\n", "default.command"),
        Err(MenuError::MissingSetting)
    ));
    assert!(matches!(
        get_config_var("default.command\n", "default.command"),
        Err(MenuError::MissingSetting)
    ));
    assert!(matches!(
        get_config_var("default.command\tnext\n", "default.command"),
        Err(MenuError::MissingSetting)
    ));
}

#[test]
fn get_config_var_fails_on_empty_output() {
    let e = get_config_var("", "default.command").unwrap_err();
    assert_eq!(e.message(), "Could not find default command");
}

#[test]
fn get_config_var_finds_no_name_with_a_blank_in_it() {
    assert!(matches!(get_config_var("a b c\n", "a b"), Err(MenuError::MissingSetting)));
}

#[test]
fn get_config_var_with_an_empty_name_reads_lines_that_begin_with_a_blank() {
    assert_eq!(get_config_var("x 1\n y z\n", "").unwrap(), "y z");
}

#[test]
fn get_config_var_reads_lines_that_end_in_carriage_return_and_line_feed() {
    assert_eq!(get_config_var("a 1\r\nb 2\r\n", "b").unwrap(), "2");
}

fn reference(output: &str, name: &str) -> Option<String> {
    output
        .lines()
        .filter_map(|line| {
            let parts: Vec<_> = line.split(' ').collect();
            if parts.len() > 1 && parts[0] == name {
                Some(parts[1..].join(" "))
            } else {
                None
            }
        })
        .next()
}

#[test]
fn get_config_var_agrees_with_splitting_each_line_at_blanks() {
    let outputs = [
        "",
        SHOWN,
        "a b\nb c\n",
        "a\nb\n",
        " a b\n",
        "a  b\na c",
        "a b c d\r\n",
        "\u{e9}t\u{e9} chaud\n",
        "x\u{a0}y z\n",
    ];
    let names = ["", "a", "b", "a b", "default.command", "report.next.filter", "\u{e9}t\u{e9}", "x"];
    for output in outputs {
        for name in names {
            assert_eq!(get_config_var(output, name).ok(), reference(output, name));
        }
    }
}
