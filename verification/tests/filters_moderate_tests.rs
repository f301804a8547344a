use bhcli::dispatch::PostType;
use bhcli::filters::{
    list_exact_filters, list_filters, matches_substring, new_guest_kicks, remove_filter, FilterSet,
};
use bhcli::message::{Message, MessageType, Users};
use bhcli::moderate::process_new_messages;
use bhcli::styled::{Color, StyledText};

fn guest(name: &str) -> (Color, String) {
    (Color::White, name.to_string())
}

#[test]
fn exact_ban_kicks_new_guest() {
    let guests = vec![guest("alice"), guest("Mallory")];
    let prev = vec![guest("alice")];
    let exact = vec!["Mallory".to_string()];
    let subs: Vec<String> = Vec::new();
    let kicks = new_guest_kicks(&guests, &prev, &exact, &subs);
    assert_eq!(kicks, vec![PostType::Kick(String::new(), "Mallory".to_string())]);
}

#[test]
fn substring_ban_kicks_new_guest() {
    let guests = vec![guest("alice"), guest("EvilTwin99")];
    let prev = vec![guest("alice")];
    let exact: Vec<String> = Vec::new();
    let subs = vec!["eviltwin".to_string()];
    let kicks = new_guest_kicks(&guests, &prev, &exact, &subs);
    assert_eq!(kicks, vec![PostType::Kick(String::new(), "EvilTwin99".to_string())]);
}

#[test]
fn returning_guest_is_not_swept() {
    let guests = vec![guest("Mallory")];
    let prev = vec![guest("Mallory")];
    let exact = vec!["Mallory".to_string()];
    let subs: Vec<String> = Vec::new();
    let kicks = new_guest_kicks(&guests, &prev, &exact, &subs);
    assert!(kicks.is_empty());
}

#[test]
fn substring_matching_ignores_case() {
    let filters = vec!["badguy".to_string()];
    assert!(matches_substring(&filters, "TheBADGUYHere"));
    assert!(!matches_substring(&filters, "goodguy"));
}

#[test]
fn remove_filter_searches_both_username_lists() {
    let mut fs = FilterSet::new();
    fs.bad_usernames.push("troll".to_string());
    fs.bad_exact_usernames.push("Mallory".to_string());
    assert!(remove_filter(&mut fs, "Mallory", true));
    assert!(fs.bad_exact_usernames.is_empty());
    assert!(remove_filter(&mut fs, "troll", true));
    assert!(fs.bad_usernames.is_empty());
    assert!(!remove_filter(&mut fs, "troll", true));
}

#[test]
fn listing_joins_with_commas() {
    let mut fs = FilterSet::new();
    assert_eq!(list_filters(&fs, true), "(empty)");
    fs.bad_usernames.push("a".to_string());
    fs.bad_usernames.push("b".to_string());
    assert_eq!(list_filters(&fs, true), "a, b");
    assert_eq!(list_exact_filters(&fs), "(empty)");
}

// A scraped message tree whose sender is `from` and whose body is `msg`,
// shaped as a members-channel line when `tagged` is set. Children are
// stored in reverse display order.
fn tree(from: &str, msg: &str, tag: &str, tagged: bool) -> StyledText {
    let mut children = vec![
        StyledText::Text(msg.to_string()),
        StyledText::Styled(Color::Red, vec![StyledText::Text(from.to_string())]),
    ];
    if tagged {
        children.push(StyledText::Text(tag.to_string()));
    }
    StyledText::Styled(Color::White, children)
}

// A private-message tree from `from` to `to` with body `msg`.
fn pm_tree(from: &str, to: &str, msg: &str) -> StyledText {
    StyledText::Styled(
        Color::White,
        vec![
            StyledText::Text(msg.to_string()),
            StyledText::Text(" ".to_string()),
            StyledText::Styled(Color::Red, vec![StyledText::Text(to.to_string())]),
            StyledText::Styled(Color::Red, vec![StyledText::Text(from.to_string())]),
            StyledText::Text("[".to_string()),
        ],
    )
}

fn message(date: &str, text: StyledText) -> Message {
    Message::new(None, MessageType::UserMsg, date.to_string(), None, text)
}

fn roster(members: Vec<&str>, guests: Vec<&str>) -> Users {
    let mut u = Users::default();
    for m in members {
        u.members.push((Color::White, m.to_string()));
    }
    for g in guests {
        u.guests.push((Color::White, g.to_string()));
    }
    u
}

#[test]
fn member_kick_command_via_members_channel() {
    let users = roster(vec!["mod"], vec!["troll"]);
    let mut fs = FilterSet::new();
    let history = vec![message("01-01 00:00:01", tree("x", "old", "[M] ", false))];
    let new = vec![message("01-01 00:00:02", tree("mod", "#kick @troll", "[M] ", true))];
    let (acts, _notify) = process_new_messages(&new, &history, "[M] ", "me", &users, &mut fs);
    assert_eq!(acts, vec![PostType::Kick(String::new(), "troll".to_string())]);
}

#[test]
fn ban_command_extends_the_filters() {
    let users = roster(vec!["mod"], vec![]);
    let mut fs = FilterSet::new();
    let history = vec![message("01-01 00:00:01", tree("x", "old", "[M] ", false))];
    let new = vec![message("01-01 00:00:02", tree("mod", "#ban troll", "[M] ", true))];
    let (acts, _) = process_new_messages(&new, &history, "[M] ", "me", &users, &mut fs);
    assert_eq!(acts, vec![PostType::Kick(String::new(), "troll".to_string())]);
    assert_eq!(fs.bad_usernames, vec!["troll".to_string()]);
}

#[test]
fn unauthorized_command_gets_a_refusal() {
    let users = roster(vec![], vec!["guestie"]);
    let mut fs = FilterSet::new();
    let history = vec![message("01-01 00:00:01", tree("x", "old", "[M] ", false))];
    let new = vec![message("01-01 00:00:02", pm_tree("guestie", "me", "#kick bob"))];
    let (acts, _) = process_new_messages(&new, &history, "[M] ", "me", &users, &mut fs);
    assert_eq!(
        acts,
        vec![PostType::Post(
            "You don't have permission to do that.".to_string(),
            Some("guestie".to_string()),
        )]
    );
}

#[test]
fn allowlisted_guest_may_kick() {
    let users = roster(vec![], vec!["helper"]);
    let mut fs = FilterSet::new();
    fs.allowlist.push("helper".to_string());
    let history = vec![message("01-01 00:00:01", tree("x", "old", "[M] ", false))];
    let new = vec![message("01-01 00:00:02", pm_tree("helper", "me", "#kick bob"))];
    let (acts, _) = process_new_messages(&new, &history, "[M] ", "me", &users, &mut fs);
    assert_eq!(acts, vec![PostType::Kick(String::new(), "bob".to_string())]);
}

#[test]
fn guest_slur_earns_a_public_warning() {
    let users = roster(vec![], vec!["troll"]);
    let mut fs = FilterSet::new();
    let history = vec![message("01-01 00:00:01", tree("x", "old", "[M] ", false))];
    let new = vec![message("01-01 00:00:02", tree("troll", "that nigga", "[M] ", false))];
    let (acts, _) = process_new_messages(&new, &history, "[M] ", "me", &users, &mut fs);
    assert_eq!(acts.len(), 1);
    match &acts[0] {
        PostType::Post(text, to) => {
            assert!(text.contains("@troll's message was flagged for using a racial slur"));
            assert_eq!(to, &Some("0".to_string()));
        }
        other => panic!("unexpected action {:?}", other),
    }
}

#[test]
fn filtered_message_kicks_without_scoring() {
    let users = roster(vec![], vec!["troll"]);
    let mut fs = FilterSet::new();
    fs.bad_messages.push("spam".to_string());
    let history = vec![message("01-01 00:00:01", tree("x", "old", "[M] ", false))];
    let new = vec![message("01-01 00:00:02", tree("troll", "buy SPAM now", "[M] ", false))];
    let (acts, _) = process_new_messages(&new, &history, "[M] ", "me", &users, &mut fs);
    assert_eq!(acts, vec![PostType::Kick(String::new(), "troll".to_string())]);
}

#[test]
fn mention_notifies_the_operator() {
    let users = roster(vec!["mod"], vec![]);
    let mut fs = FilterSet::new();
    let history = vec![message("01-01 00:00:01", tree("x", "old", "[M] ", false))];
    let new = vec![message("01-01 00:00:02", tree("mod", "hi @me !", "[M] ", false))];
    let (_, notify) = process_new_messages(&new, &history, "[M] ", "me", &users, &mut fs);
    assert!(notify);
}

#[test]
fn empty_history_moderates_nothing() {
    let users = roster(vec![], vec!["troll"]);
    let mut fs = FilterSet::new();
    let history: Vec<Message> = Vec::new();
    let new = vec![message("01-01 00:00:02", tree("troll", "you nigga", "[M] ", false))];
    let (acts, notify) = process_new_messages(&new, &history, "[M] ", "me", &users, &mut fs);
    assert!(acts.is_empty());
    assert!(!notify);
}
