use chrono::NaiveDate;
use taskmenu::error::MenuError;
use taskmenu::links::{char_rows, choose_link, find_links, label_link, label_links, link, LinkChoice};
use taskmenu::task::Annotation;

fn seconds(year: i32, month: u32, day: u32, hour: u32) -> i64 {
    NaiveDate::from_ymd_opt(year, month, day)
        .unwrap()
        .and_hms_opt(hour, 30, 15)
        .unwrap()
        .and_utc()
        .timestamp()
}

fn note(entry: i64, description: &str) -> Annotation {
    Annotation { entry, description: description.to_string() }
}

#[test]
fn link_begins_with_http_or_https() {
    assert!(link("https://example.org"));
    assert!(link("http://example.org"));
    assert!(link("https://"));
    assert!(!link("ftp://example.org"));
    assert!(!link(" https://example.org"));
    assert!(!link("HTTPS://example.org"));
    assert!(!link("http:/example.org"));
    assert!(!link(""));
}

#[test]
fn find_links_keeps_the_order() {
    let all = vec![
        note(1, "call back"),
        note(2, "http://a.example"),
        note(3, "see https://b.example"),
        note(4, "https://c.example"),
    ];
    let found = find_links(&all);
    assert_eq!(found.len(), 2);
    assert_eq!((found[0].entry, found[0].description.as_str()), (2, "http://a.example"));
    assert_eq!((found[1].entry, found[1].description.as_str()), (4, "https://c.example"));
}

#[test]
fn label_link_is_day_blank_text() {
    assert_eq!(label_link("2020-01-02", "https://a.example"), "2020-01-02 https://a.example");
}

#[test]
fn label_links_shows_the_day_of_each_note() {
    let all = vec![
        note(0, "https://epoch.example"),
        note(seconds(2021, 3, 9, 23), "https://late.example"),
        note(seconds(1969, 12, 31, 0), "https://before.example"),
        note(86_399, "https://end.example"),
        note(86_400, "https://next.example"),
    ];
    assert_eq!(
        label_links(&all).unwrap(),
        vec![
            "1970-01-01 https://epoch.example",
            "2021-03-09 https://late.example",
            "1969-12-31 https://before.example",
            "1970-01-01 https://end.example",
            "1970-01-02 https://next.example",
        ]
    );
}

#[test]
fn label_links_fails_where_the_calendar_ends() {
    assert!(label_links(&vec![note(i64::MAX, "https://a.example")]).is_none());
    assert!(label_links(&vec![note(0, "https://a.example"), note(i64::MIN, "x")]).is_none());
}

#[test]
fn char_rows_are_the_characters_of_each_line() {
    let lines = vec!["ab".to_string(), String::new(), "é".to_string()];
    assert_eq!(char_rows(&lines), vec![vec!['a', 'b'], vec![], vec!['é']]);
}

#[test]
fn choice_without_notes_fails() {
    let e = choose_link(&None).unwrap_err();
    assert!(matches!(e, MenuError::NoAnnotations));
    assert_eq!(e.message(), "No annotations found");
}

#[test]
fn choice_without_links_fails() {
    let e = choose_link(&Some(vec![note(1, "call back")])).unwrap_err();
    assert!(matches!(e, MenuError::NoLinks));
    assert_eq!(e.message(), "No annotation links found");
    assert!(matches!(choose_link(&Some(vec![])), Err(MenuError::NoLinks)));
}

#[test]
fn choice_of_one_link_is_that_link() {
    let all = vec![note(1, "call back"), note(i64::MAX, "https://only.example")];
    match choose_link(&Some(all)).unwrap() {
        LinkChoice::Only { target } => assert_eq!(target, "https://only.example"),
        other => panic!("{:?}", other),
    }
}

#[test]
fn choice_of_several_links_shows_the_latest_first() {
    let all = vec![
        note(seconds(2020, 5, 1, 8), "https://may.example"),
        note(seconds(2020, 1, 1, 8), "not a link"),
        note(seconds(2021, 1, 1, 8), "http://january.example"),
        note(seconds(2020, 5, 1, 9), "https://zebra.example"),
        note(seconds(2020, 5, 1, 10), "https://may.example"),
    ];
    match choose_link(&Some(all)).unwrap() {
        LinkChoice::Among { items } => {
            let labels: Vec<&str> = items.iter().map(|i| i.label.as_str()).collect();
            let targets: Vec<&str> = items.iter().map(|i| i.item.as_str()).collect();
            assert_eq!(
                labels,
                vec![
                    "2021-01-01 http://january.example",
                    "2020-05-01 https://zebra.example",
                    "2020-05-01 https://may.example",
                    "2020-05-01 https://may.example",
                ]
            );
            assert_eq!(
                targets,
                vec![
                    "http://january.example",
                    "https://zebra.example",
                    "https://may.example",
                    "https://may.example",
                ]
            );
        }
        other => panic!("{:?}", other),
    }
}

#[test]
fn choice_of_several_links_fails_on_a_date_outside_the_calendar() {
    let all = vec![note(0, "https://a.example"), note(i64::MAX, "https://b.example")];
    let e = choose_link(&Some(all)).unwrap_err();
    assert!(matches!(e, MenuError::UnknownDate));
}
