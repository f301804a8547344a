use bhcli::message::{parse_timestamp, Message, MessageType};
use bhcli::reconcile::update_messages;
use bhcli::styled::StyledText;

fn msg(date: &str, text: &str) -> Message {
    Message::new(
        None,
        MessageType::UserMsg,
        date.to_string(),
        None,
        StyledText::Text(text.to_string()),
    )
}

fn date(t: u64) -> String {
    format!("01-01 00:{:02}:{:02}", t / 60, t % 60)
}

#[test]
fn timestamps_parse_and_order() {
    let a = parse_timestamp("01-01 00:00:01");
    let b = parse_timestamp("01-01 00:00:02");
    let c = parse_timestamp("02-01 00:00:00");
    assert!(a < b && b < c);
    assert_eq!(parse_timestamp("not a date"), 0);
    assert_eq!(parse_timestamp("13-01 00:00:00"), 0);
}

#[test]
fn ordering_tombstones_and_inserts() {
    // History [(t=2,"b"),(t=1,"a")], snapshot [(t=3,"c"),(t=1,"a")]:
    // "b" is tombstoned, "c" inserted, "a" untouched.
    let mut history = vec![msg(&date(2), "b"), msg(&date(1), "a")];
    let snapshot = vec![msg(&date(3), "c"), msg(&date(1), "a")];
    update_messages(snapshot, &mut history);
    assert_eq!(history.len(), 3);
    assert_eq!(history[0].text.text(), "c");
    assert!(!history[0].deleted);
    assert_eq!(history[1].text.text(), "b");
    assert!(history[1].deleted);
    assert_eq!(history[2].text.text(), "a");
    assert!(!history[2].deleted);
}

#[test]
fn same_snapshot_twice_changes_nothing() {
    let base = || vec![msg(&date(2), "b"), msg(&date(1), "a")];
    let snap = || vec![msg(&date(3), "c"), msg(&date(1), "a")];
    let mut once = base();
    update_messages(snap(), &mut once);
    let mut twice = base();
    update_messages(snap(), &mut twice);
    update_messages(snap(), &mut twice);
    assert_eq!(once, twice);
}

#[test]
fn history_is_capped_at_one_thousand() {
    let mut history: Vec<Message> = Vec::new();
    let mut snapshot: Vec<Message> = Vec::new();
    for i in 0..1100u64 {
        snapshot.push(msg(&date(1100 - i), &format!("m{}", i)));
    }
    update_messages(snapshot, &mut history);
    assert_eq!(history.len(), 1000);
    assert_eq!(history[0].text.text(), "m0");
}

#[test]
fn same_second_flood_is_not_reinserted() {
    let mut history = vec![msg(&date(5), "x"), msg(&date(5), "y")];
    let snapshot = vec![msg(&date(5), "y")];
    update_messages(snapshot, &mut history);
    assert_eq!(history.len(), 2);
    assert_eq!(history[0].text.text(), "x");
    assert_eq!(history[1].text.text(), "y");
}

#[test]
fn duplicate_timestamp_distinct_content_is_inserted() {
    let mut history = vec![msg(&date(5), "x")];
    let snapshot = vec![msg(&date(5), "z")];
    update_messages(snapshot, &mut history);
    assert_eq!(history.len(), 2);
    assert_eq!(history[0].text.text(), "z");
    assert_eq!(history[1].text.text(), "x");
    assert!(!history[1].deleted);
}
