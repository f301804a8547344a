use bhcli::config::{get_guest_color, next_cycle_color, LeChatPHPConfig};
use bhcli::message::autocomplete_username;
use bhcli::message::Users;
use bhcli::strutil::{
    byte_pos, contains_str, default_empty_str, remove_at, remove_prefix, remove_suffix,
    replace_newline_escape, str_eq, trim_newline,
};
use bhcli::styled::{get_message, get_username, Color, StyledText};

#[test]
fn byte_positions_respect_utf8() {
    let s = "a\u{1F493}b";
    assert_eq!(byte_pos(s, 0), Some(0));
    assert_eq!(byte_pos(s, 1), Some(1));
    assert_eq!(byte_pos(s, 2), Some(5));
    assert_eq!(byte_pos(s, 3), Some(6));
    assert_eq!(byte_pos(s, 4), None);
}

#[test]
fn remove_at_is_character_based() {
    assert_eq!(remove_at("abc", 1), "ac");
    assert_eq!(remove_at("a\u{1F493}b", 1), "ab");
    assert_eq!(remove_at("abc", 9), "abc");
}

#[test]
fn trim_newline_strips_one_line_ending() {
    let mut s = "x\r\n".to_string();
    trim_newline(&mut s);
    assert_eq!(s, "x");
    let mut t = "y\n".to_string();
    trim_newline(&mut t);
    assert_eq!(t, "y");
    let mut u = "z".to_string();
    trim_newline(&mut u);
    assert_eq!(u, "z");
}

#[test]
fn newline_escapes_become_newlines() {
    assert_eq!(replace_newline_escape("a\\nb\\nc"), "a\nb\nc");
    assert_eq!(replace_newline_escape("plain"), "plain");
}

#[test]
fn prefix_and_suffix_removal() {
    assert_eq!(remove_prefix("foobar", "foo"), "bar");
    assert_eq!(remove_prefix("foobar", "bar"), "foobar");
    assert_eq!(remove_suffix("foobar", "bar"), "foo");
    assert_eq!(remove_suffix("foobar", "foo"), "foobar");
}

#[test]
fn small_string_helpers() {
    assert_eq!(default_empty_str(), "");
    assert!(contains_str("hello world", "lo wo"));
    assert!(!contains_str("hello", "world"));
    assert!(str_eq("abc", "abc"));
    assert!(!str_eq("abc", "abd"));
}

#[test]
fn guest_colors_resolve() {
    assert_eq!(get_guest_color(Some("red".to_string())), "FF0000");
    assert_eq!(get_guest_color(Some("light-green".to_string())), "90EE90");
    assert_eq!(get_guest_color(Some("#A1b2C3".to_string())), "A1b2C3");
    assert_eq!(get_guest_color(Some("#XYZXYZ".to_string())), "");
    assert_eq!(get_guest_color(Some("no-such-color".to_string())), "");
    assert_eq!(get_guest_color(None), "");
}

#[test]
fn default_config_matches_the_site() {
    let c = LeChatPHPConfig::new_black_hat_chat_config();
    assert_eq!(c.datetime_fmt, "%m-%d %H:%M:%S");
    assert_eq!(c.page_php, "chat.php");
    assert_eq!(c.members_tag, "[M] ");
    assert_eq!(c.staffs_tag, "[Staff] ");
    assert_eq!(c.keepalive_send_to, "0");
}

#[test]
fn cycle_palette_wraps_around() {
    let (i1, c1) = next_cycle_color(0);
    assert_eq!(i1, 1);
    assert_eq!(c1, "#ff6633");
    let (i2, c2) = next_cycle_color(9);
    assert_eq!(i2, 0);
    assert_eq!(c2, "#ff3366");
}

#[test]
fn flattening_walks_children_in_reverse() {
    // Children are stored in reverse display order.
    let t = StyledText::Styled(
        Color::White,
        vec![
            StyledText::Text("world".to_string()),
            StyledText::Text("hello ".to_string()),
        ],
    );
    assert_eq!(t.text(), "hello world");
    let spans = t.colored_text();
    assert_eq!(
        spans,
        vec![
            (Color::White, "hello ".to_string()),
            (Color::White, "world".to_string()),
        ]
    );
}

#[test]
fn styled_nodes_hand_their_color_down() {
    let t = StyledText::Styled(
        Color::Rgb(1, 2, 3),
        vec![StyledText::Text("x".to_string()), StyledText::Empty],
    );
    assert_eq!(t.colored_text(), vec![(Color::Rgb(1, 2, 3), "x".to_string())]);
}

#[test]
fn message_extraction_reads_the_tree_shapes() {
    // A public message: the sender span is the first displayed child.
    let public = StyledText::Styled(
        Color::White,
        vec![
            StyledText::Text("hi all".to_string()),
            StyledText::Styled(Color::Red, vec![StyledText::Text("alice".to_string())]),
        ],
    );
    assert_eq!(
        get_message(&public, "[M] "),
        Some(("alice".to_string(), None, "hi all".to_string()))
    );

    // A private message: bracketed from/to spans.
    let private = StyledText::Styled(
        Color::White,
        vec![
            StyledText::Text("psst".to_string()),
            StyledText::Text(" ".to_string()),
            StyledText::Styled(Color::Red, vec![StyledText::Text("me".to_string())]),
            StyledText::Styled(Color::Red, vec![StyledText::Text("bob".to_string())]),
            StyledText::Text("[".to_string()),
        ],
    );
    assert_eq!(
        get_message(&private, "[M] "),
        Some(("bob".to_string(), Some("me".to_string()), "psst".to_string()))
    );
    assert_eq!(get_username("me", &private, "[M] "), Some("bob".to_string()));
    assert_eq!(get_username("bob", &private, "[M] "), Some("me".to_string()));

    assert_eq!(get_message(&StyledText::Empty, "[M] "), None);
}

#[test]
fn roster_concatenates_in_role_order() {
    let mut u = Users::default();
    u.admin.push((Color::White, "root".to_string()));
    u.guests.push((Color::White, "visitor".to_string()));
    let all = u.all();
    assert_eq!(all.len(), 2);
    assert_eq!(all[0].1, "root");
    assert_eq!(all[1].1, "visitor");
}

#[test]
fn notifier_response_defaults_to_silence() {
    let r = bhcli::DkfNotifierResp::default();
    assert!(!r.new_message_sound && !r.tagged_sound && !r.pm_sound);
    assert_eq!(r.inbox_count, 0);
    assert_eq!(r.last_message_created_at, "");
}

#[test]
fn events_carry_their_input() {
    let e: bhcli::Event<u8> = bhcli::Event::Input(7);
    match e {
        bhcli::Event::Input(x) => assert_eq!(x, 7),
        _ => panic!("wrong variant"),
    }
    assert!(matches!(bhcli::Event::<u8>::Tick, bhcli::Event::Tick));
}

#[test]
fn autocomplete_prefers_roster_order() {
    let mut u = Users::default();
    u.members.push((Color::White, "Alice".to_string()));
    u.guests.push((Color::White, "alfred".to_string()));
    assert_eq!(autocomplete_username(&u, "al"), Some("Alice".to_string()));
    assert_eq!(autocomplete_username(&u, "alf"), Some("alfred".to_string()));
    assert_eq!(autocomplete_username(&u, "zz"), None);
}
