use taskmenu::label::format_task;
use taskmenu::task::{TaskRecord, Urgency};

fn task(id: Option<u64>, description: &str) -> TaskRecord {
    TaskRecord {
        id,
        uuid: String::from("2f1c0c4e-5d3a-4a58-9d0b-6c1a3f0e9b11"),
        description: description.to_string(),
        urgency: None,
        project: None,
        annotations: None,
    }
}

fn rating(value: f64) -> Urgency {
    let shown = format!("{:.2}", value.abs());
    let digits: String = shown.chars().filter(|c| *c != '.').collect();
    Urgency {
        negative: value.is_sign_negative(),
        hundredths: digits.parse().unwrap(),
        rank: (-value * 10_000f64) as i32,
    }
}

fn expected_label(
    id: Option<u64>,
    description: &str,
    urgency: Option<f64>,
    project: Option<&str>,
) -> String {
    let mut parts = vec![];
    if let Some(id) = id {
        parts.push(format!("[{:>2}]", id));
    } else {
        parts.push("[--]".to_string());
    }
    if description.len() <= 60 {
        parts.push(format!("{:<width$}", description, width = 60));
    } else {
        parts.push(format!("{}...", &description[..57]));
    }
    if let Some(urgency) = urgency {
        parts.push(format!("(u={:+.2})", urgency));
    }
    if let Some(project) = project {
        parts.push(format!("proj:{}", project));
    }
    parts.join(" ")
}

#[test]
fn label_of_a_plain_task() {
    let t = task(Some(7), "buy milk");
    assert_eq!(format_task(&t), format!("[ 7] buy milk{}", " ".repeat(52)));
}

#[test]
fn label_without_a_number_shows_hyphens() {
    let t = task(None, "buy milk");
    assert_eq!(format_task(&t), format!("[--] buy milk{}", " ".repeat(52)));
}

#[test]
fn label_pads_the_number_to_two_characters() {
    assert!(format_task(&task(Some(0), "x")).starts_with("[ 0] "));
    assert!(format_task(&task(Some(9), "x")).starts_with("[ 9] "));
    assert!(format_task(&task(Some(10), "x")).starts_with("[10] "));
    assert!(format_task(&task(Some(123), "x")).starts_with("[123] "));
}

#[test]
fn label_keeps_a_description_of_sixty_bytes() {
    let description = "d".repeat(60);
    assert_eq!(format_task(&task(Some(1), &description)), format!("[ 1] {}", description));
}

#[test]
fn label_cuts_a_description_of_sixty_one_bytes() {
    let description = "d".repeat(61);
    assert_eq!(
        format_task(&task(Some(1), &description)),
        format!("[ 1] {}...", "d".repeat(57))
    );
}

#[test]
fn label_counts_bytes_to_cut_and_characters_to_fill() {
    let description = "é".repeat(30);
    assert_eq!(description.len(), 60);
    assert_eq!(
        format_task(&task(Some(1), &description)),
        format!("[ 1] {}{}", description, " ".repeat(30))
    );
    let longer = "é".repeat(31);
    assert_eq!(longer.len(), 62);
    assert_eq!(format_task(&task(Some(1), &longer)), format!("[ 1] {}...", "é".repeat(28)));
}

#[test]
fn label_cuts_at_the_fifty_seventh_byte_where_a_character_ends_there() {
    let description = format!("{}{}", "x".repeat(55), "é".repeat(10));
    assert!(description.is_char_boundary(57));
    assert_eq!(
        format_task(&task(Some(1), &description)),
        format!("[ 1] {}é...", "x".repeat(55))
    );
}

#[test]
fn label_shows_the_rating_with_sign_and_two_decimals() {
    let mut t = task(Some(3), "x");
    t.urgency = Some(Urgency { negative: false, hundredths: 583, rank: -58300 });
    assert!(format_task(&t).ends_with(" (u=+5.83)"));
    t.urgency = Some(Urgency { negative: true, hundredths: 50, rank: 5000 });
    assert!(format_task(&t).ends_with(" (u=-0.50)"));
    t.urgency = Some(Urgency { negative: false, hundredths: 0, rank: 0 });
    assert!(format_task(&t).ends_with(" (u=+0.00)"));
    t.urgency = Some(Urgency { negative: false, hundredths: 123_407, rank: -12_340_700 });
    assert!(format_task(&t).ends_with(" (u=+1234.07)"));
}

#[test]
fn label_shows_the_project_last() {
    let mut t = task(Some(3), "x");
    t.project = Some("home.garden".to_string());
    assert!(format_task(&t).ends_with(&format!("x{} proj:home.garden", " ".repeat(59))));
    t.urgency = Some(Urgency { negative: false, hundredths: 1200, rank: -120_000 });
    assert!(format_task(&t).ends_with(" (u=+12.00) proj:home.garden"));
}

#[test]
fn label_agrees_with_the_formatting_of_std() {
    let descriptions = [
        String::new(),
        "buy milk".to_string(),
        "d".repeat(59),
        "d".repeat(60),
        "d".repeat(61),
        "d".repeat(200),
        "é".repeat(30),
        format!("{}{}", "x".repeat(55), "é".repeat(10)),
        format!("{}{}", "日本語".repeat(19), "abc"),
    ];
    let ratings = [0.0, 0.583562, 5.3, -5.0, 23.0, 12.345, 0.125, 0.375, 99.995, -0.001, 1234.5678];
    for id in [None, Some(0u64), Some(9), Some(10), Some(4711)] {
        for description in descriptions.iter() {
            for urgency in [None, Some(ratings[0])].into_iter().chain(ratings.iter().map(|r| Some(*r))) {
                for project in [None, Some("inbox")] {
                    let t = TaskRecord {
                        id,
                        uuid: String::new(),
                        description: description.clone(),
                        urgency: urgency.map(rating),
                        project: project.map(|p| p.to_string()),
                        annotations: None,
                    };
                    assert_eq!(
                        format_task(&t),
                        expected_label(id, description, urgency, project)
                    );
                }
            }
        }
    }
}

#[test]
fn the_description_takes_sixty_characters_or_fewer() {
    for description in ["", "x", &"x".repeat(60), &"x".repeat(61), &"é".repeat(31), &"😀".repeat(20)] {
        let label = format_task(&task(Some(1), description));
        let shown: String = label.chars().skip(5).collect();
        assert!(shown.chars().count() <= 60, "{:?}", shown);
        if description.len() <= 60 {
            assert_eq!(shown.chars().count(), 60);
            assert!(shown.starts_with(description));
        } else {
            assert!(shown.ends_with("..."));
            assert!(shown.len() <= 60);
        }
    }
}
