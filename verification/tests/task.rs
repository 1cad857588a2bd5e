use rusty_journal::task::{render_line, State, Task};

fn stamp(seconds: i64) -> String {
    chrono::DateTime::from_timestamp(seconds, 0)
        .unwrap()
        .with_timezone(&chrono::Local)
        .format("%d/%m/%Y %H:%M")
        .to_string()
}

#[test]
fn new_task_is_active_and_created_now() {
    let before = chrono::Utc::now().timestamp();
    let made = Task::new("buy milk".to_string(), Some(vec!["errand".to_string()]), None);
    let after = chrono::Utc::now().timestamp();
    assert_eq!(made.name(), "buy milk");
    assert_eq!(made.state(), State::Active);
    assert_eq!(made.tags(), &vec!["errand".to_string()]);
    assert_eq!(made.notes(), &None);
    assert!(before <= made.created_at() && made.created_at() <= after);
}

#[test]
fn new_task_without_tags_has_none() {
    let made = Task::new("x".to_string(), None, Some("remember".to_string()));
    assert!(made.tags().is_empty());
    assert_eq!(made.notes(), &Some("remember".to_string()));
}

#[test]
fn new_task_may_have_an_empty_name() {
    let made = Task::new(String::new(), Some(Vec::new()), None);
    assert_eq!(made.name(), "");
    assert!(made.tags().is_empty());
}

#[test]
fn restore_keeps_every_part() {
    let made = Task::restore(
        "n".to_string(),
        State::Complete,
        vec!["a".to_string(), "b".to_string()],
        Some("m".to_string()),
        1_431_648_000,
    )
    .unwrap();
    assert_eq!(made.name(), "n");
    assert_eq!(made.state(), State::Complete);
    assert_eq!(made.tags(), &vec!["a".to_string(), "b".to_string()]);
    assert_eq!(made.notes(), &Some("m".to_string()));
    assert_eq!(made.created_at(), 1_431_648_000);
}

#[test]
fn restore_refuses_seconds_that_are_no_instant() {
    for seconds in [
        i64::MAX,
        i64::MIN,
        9_000_000_000_000,
        -9_000_000_000_000,
        8_210_266_876_800,
        -8_334_601_228_801,
    ] {
        assert!(Task::restore(String::new(), State::Active, Vec::new(), None, seconds).is_none());
    }
    for seconds in [0, -1, 1, 8_210_266_876_799, -8_334_601_228_800] {
        assert!(Task::restore(String::new(), State::Active, Vec::new(), None, seconds).is_some());
    }
}

#[test]
fn has_tag_matches_whole_tags_only() {
    let made = Task::restore(
        String::new(),
        State::Active,
        vec!["errand".to_string(), "Home".to_string()],
        None,
        0,
    )
    .unwrap();
    assert!(made.has_tag(&"errand".to_string()));
    assert!(made.has_tag(&"Home".to_string()));
    assert!(!made.has_tag(&"home".to_string()));
    assert!(!made.has_tag(&"err".to_string()));
    assert!(!made.has_tag(&"errands".to_string()));
    assert!(!made.has_tag(&String::new()));
}

#[test]
fn short_name_is_padded_to_the_column() {
    let line = render_line("buy milk", "01/02/2024 10:30");
    let mut expected = String::from("Task: buy milk");
    for _ in 0..42 {
        expected.push(' ');
    }
    expected.push_str(" Created at: 01/02/2024 10:30");
    assert_eq!(line, expected);
    assert_eq!(line, format!("Task: {:<50} Created at: {}", "buy milk", "01/02/2024 10:30"));
}

#[test]
fn empty_name_is_all_padding() {
    assert_eq!(render_line("", "s"), format!("Task: {} Created at: s", " ".repeat(50)));
}

#[test]
fn name_of_column_width_gets_no_padding() {
    let name = "x".repeat(50);
    assert_eq!(render_line(&name, "s"), format!("Task: {name} Created at: s"));
    let shorter = "x".repeat(49);
    assert_eq!(render_line(&shorter, "s"), format!("Task: {shorter}  Created at: s"));
}

#[test]
fn long_name_is_cut_to_the_column() {
    let name = format!("{}{}", "y".repeat(50), "z".repeat(23));
    assert_eq!(render_line(&name, "s"), format!("Task: {} Created at: s", "y".repeat(50)));
    let one_more = format!("{}!", "x".repeat(50));
    assert_eq!(render_line(&one_more, "s"), format!("Task: {} Created at: s", "x".repeat(50)));
}

#[test]
fn the_instant_starts_at_the_same_column_for_every_name() {
    for name in ["", "a", &"b".repeat(49), &"c".repeat(50), &"d".repeat(51), &"\u{e9}".repeat(200)] {
        let line = render_line(name, "01/02/2024 10:30");
        let shown: Vec<char> = line.chars().collect();
        assert_eq!(shown.len(), 6 + 50 + 13 + 16);
        assert_eq!(shown[6 + 50..6 + 50 + 13].iter().collect::<String>(), " Created at: ");
        assert_eq!(shown[6 + 50 + 13..].iter().collect::<String>(), "01/02/2024 10:30");
    }
}

#[test]
fn cutting_counts_characters_not_bytes() {
    let name = format!("{}tail", "\u{1F600}".repeat(50));
    assert_eq!(render_line(&name, "s"), format!("Task: {} Created at: s", "\u{1F600}".repeat(50)));
}

#[test]
fn padding_counts_characters_not_bytes() {
    let name = "caf\u{e9} \u{1F600}";
    let line = render_line(name, "s");
    assert_eq!(line, format!("Task: {:<50} Created at: {}", name, "s"));
    assert_eq!(line.chars().count(), 6 + 50 + 13 + 1);
}

#[test]
fn render_shows_the_name_and_the_local_instant() {
    for seconds in [0, 1_700_000_000, -1, 253_402_300_799] {
        let made =
            Task::restore("write report".to_string(), State::Active, Vec::new(), None, seconds)
                .unwrap();
        assert_eq!(
            made.render(),
            format!("Task: {:<50} Created at: {}", "write report", stamp(seconds))
        );
    }
}

#[test]
fn render_at_shows_the_instant_at_the_offset() {
    let made = Task::at("write report".to_string(), None, None, 1_700_000_000);
    let head = format!("Task: {:<50} Created at: ", "write report");
    assert_eq!(made.render_at(0), format!("{head}14/11/2023 22:13"));
    assert_eq!(made.render_at(3_600), format!("{head}14/11/2023 23:13"));
    assert_eq!(made.render_at(2 * 3_600), format!("{head}15/11/2023 00:13"));
    assert_eq!(made.render_at(-5 * 3_600), format!("{head}14/11/2023 17:13"));
    assert_eq!(made.render_at(86_399), format!("{head}15/11/2023 22:13"));
    assert_eq!(made.render_at(-86_399), format!("{head}13/11/2023 22:13"));
    let start = Task::at(String::new(), None, None, 0);
    assert_eq!(start.render_at(0), format!("Task: {:<50} Created at: 01/01/1970 00:00", ""));
    assert_eq!(start.render_at(-60), format!("Task: {:<50} Created at: 31/12/1969 23:59", ""));
}

#[test]
fn render_at_writes_the_first_and_last_instant() {
    let first = Task::at("f".to_string(), None, None, -8_334_601_228_800);
    let last = Task::at("l".to_string(), None, None, 8_210_266_876_799);
    for offset in [-86_399, 0, 86_399] {
        assert!(first.render_at(offset).starts_with("Task: f"));
        assert!(last.render_at(offset).starts_with("Task: l"));
    }
    assert_eq!(last.render_at(0), format!("Task: {:<50} Created at: 31/12/+262142 23:59", "l"));
}

#[test]
fn render_is_render_at_the_local_offset() {
    for seconds in [0, 1_700_000_000, 1_720_000_000] {
        let made = Task::at("n".to_string(), None, None, seconds);
        let offset = chrono::DateTime::from_timestamp(seconds, 0)
            .unwrap()
            .with_timezone(&chrono::Local)
            .offset()
            .local_minus_utc();
        assert_eq!(made.render(), made.render_at(offset));
    }
}

#[test]
fn task_made_at_a_reading_is_created_then() {
    let made = Task::at(
        "buy milk".to_string(),
        Some(vec!["errand".to_string()]),
        Some("2 l".to_string()),
        1_700_000_123,
    );
    assert_eq!(made.name(), "buy milk");
    assert_eq!(made.state(), State::Active);
    assert_eq!(made.tags(), &vec!["errand".to_string()]);
    assert_eq!(made.notes(), &Some("2 l".to_string()));
    assert_eq!(made.created_at(), 1_700_000_123);
    let bare = Task::at(String::new(), None, None, -1);
    assert_eq!(bare.name(), "");
    assert!(bare.tags().is_empty());
    assert_eq!(bare.notes(), &None);
    assert_eq!(bare.created_at(), -1);
}

#[test]
fn rendered_instant_has_day_month_year_hour_minute() {
    let made = Task::restore("n".to_string(), State::Active, Vec::new(), None, 1_700_000_000)
        .unwrap();
    let line = made.render();
    let shown: Vec<char> = line.chars().skip(6 + 50 + 13).collect();
    assert_eq!(shown.len(), 16);
    for (i, c) in shown.iter().enumerate() {
        match i {
            2 | 5 => assert_eq!(*c, '/'),
            10 => assert_eq!(*c, ' '),
            13 => assert_eq!(*c, ':'),
            _ => assert!(c.is_ascii_digit()),
        }
    }
    assert_eq!(shown[6..10].iter().collect::<String>(), "2023");
}

fn made(name: &str, state: State, tags: &[&str], notes: Option<&str>, created_at: i64) -> Task {
    Task::restore(
        name.to_string(),
        state,
        tags.iter().map(|tag| tag.to_string()).collect(),
        notes.map(|text| text.to_string()),
        created_at,
    )
    .unwrap()
}

#[test]
fn tasks_with_equal_parts_are_equal() {
    let a = made("n", State::Active, &["x", "y"], Some("m"), 7);
    let b = made("n", State::Active, &["x", "y"], Some("m"), 7);
    assert_eq!(a, b);
    assert_eq!(made("", State::Complete, &[], None, 0), made("", State::Complete, &[], None, 0));
}

#[test]
fn tasks_that_differ_in_one_part_are_not_equal() {
    let a = made("n", State::Active, &["x", "y"], Some("m"), 7);
    assert_ne!(a, made("N", State::Active, &["x", "y"], Some("m"), 7));
    assert_ne!(a, made("n", State::Complete, &["x", "y"], Some("m"), 7));
    assert_ne!(a, made("n", State::Active, &["y", "x"], Some("m"), 7));
    assert_ne!(a, made("n", State::Active, &["x"], Some("m"), 7));
    assert_ne!(a, made("n", State::Active, &["x", "y", "z"], Some("m"), 7));
    assert_ne!(a, made("n", State::Active, &["x", "y"], None, 7));
    assert_ne!(a, made("n", State::Active, &["x", "y"], Some("M"), 7));
    assert_ne!(a, made("n", State::Active, &["x", "y"], Some("m"), 8));
}
