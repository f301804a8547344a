use bhcli::command::{parse_command, process_command, Command, CycleCmd};
use bhcli::dispatch::{
    find_clean_target, keepalive_actions, needs_profile, plan_request, resets_keepalive,
    send_retry_decision, CleanLookup, PostType, ProfileInfo, RequestPlan, RetryErr, SendOutcome,
};
use bhcli::filters::FilterSet;
use bhcli::message::{Message, MessageType, Users};
use bhcli::styled::{Color, StyledText};

fn no_users() -> Users {
    Users::default()
}

fn pairs(v: &[(&str, &str)]) -> Vec<(String, String)> {
    v.iter().map(|(k, val)| (k.to_string(), val.to_string())).collect()
}

#[test]
fn parse_basic_commands() {
    assert_eq!(parse_command("/dl"), Some(Command::DeleteLastOne));
    assert_eq!(parse_command("/dl3"), Some(Command::DeleteLastN(3)));
    assert_eq!(parse_command("/dall"), Some(Command::DeleteAllCmd));
    assert_eq!(parse_command("/kall"), Some(Command::KickAll));
    assert_eq!(parse_command("/cycles"), Some(Command::Cycles));
    assert_eq!(parse_command("hello"), None);
    assert_eq!(parse_command("/dlx"), None);
}

#[test]
fn parse_pm_and_kick() {
    assert_eq!(
        parse_command("/pm bob hi there"),
        Some(Command::Pm("bob".to_string(), "hi there".to_string()))
    );
    assert_eq!(parse_command("/pm bob"), None);
    assert_eq!(
        parse_command("/kick troll bye"),
        Some(Command::KickUser("troll".to_string(), "bye".to_string()))
    );
    assert_eq!(
        parse_command("/k troll"),
        Some(Command::KickUser("troll".to_string(), "".to_string()))
    );
}

#[test]
fn parse_ban_quoting() {
    assert_eq!(
        parse_command("/ban mal"),
        Some(Command::BanName("mal".to_string(), false))
    );
    assert_eq!(
        parse_command("/ban \"Mallory\""),
        Some(Command::BanName("Mallory".to_string(), true))
    );
    assert_eq!(
        parse_command("/banname \"X\""),
        Some(Command::BanName("X".to_string(), true))
    );
}

#[test]
fn parse_upload_scopes() {
    assert_eq!(
        parse_command("/u /tmp/f @members hello"),
        Some(Command::UploadCmd("/tmp/f".to_string(), "s ?".to_string(), "hello".to_string()))
    );
    assert_eq!(
        parse_command("/u /tmp/f hi"),
        Some(Command::UploadCmd("/tmp/f".to_string(), "s *".to_string(), "hi".to_string()))
    );
}

#[test]
fn delete_multiple_emits_that_many() {
    let mut fs = FilterSet::new();
    let (handled, out) = process_command("/dl3", &mut fs, &no_users());
    assert!(handled);
    assert_eq!(out.actions.len(), 3);
    assert!(out.actions.iter().all(|a| a == &PostType::DeleteLast));
}

#[test]
fn pm_overrides_the_input_box() {
    let mut fs = FilterSet::new();
    let (handled, out) = process_command("/pm bob hi", &mut fs, &no_users());
    assert!(handled);
    assert_eq!(out.actions, vec![PostType::Post("hi".to_string(), Some("bob".to_string()))]);
    assert_eq!(out.input_override, Some("/pm bob ".to_string()));
}

#[test]
fn ban_kicks_sweeps_and_announces() {
    let mut fs = FilterSet::new();
    let mut users = Users::default();
    users.guests.push((Color::White, "MalloryJr".to_string()));
    let (handled, out) = process_command("/ban mallory", &mut fs, &users);
    assert!(handled);
    assert!(out.save);
    assert_eq!(fs.bad_usernames, vec!["mallory".to_string()]);
    assert_eq!(
        out.actions,
        vec![
            PostType::Kick(String::new(), "mallory".to_string()),
            PostType::Kick(String::new(), "MalloryJr".to_string()),
            PostType::Post("Banned userfilter \"mallory\"".to_string(), Some("0".to_string())),
        ]
    );
}

#[test]
fn exact_ban_goes_to_the_exact_list() {
    let mut fs = FilterSet::new();
    let (_, out) = process_command("/ban \"Mallory\"", &mut fs, &no_users());
    assert_eq!(fs.bad_exact_usernames, vec!["Mallory".to_string()]);
    assert!(fs.bad_usernames.is_empty());
    assert_eq!(
        out.actions.last(),
        Some(&PostType::Post(
            "Banned exact user \"Mallory\"".to_string(),
            Some("0".to_string())
        ))
    );
}

#[test]
fn banlist_reports_both_lists() {
    let mut fs = FilterSet::new();
    fs.bad_usernames.push("a".to_string());
    let (_, out) = process_command("/banlist", &mut fs, &no_users());
    assert_eq!(
        out.actions,
        vec![PostType::Post(
            "Banned names: a\nBanned exact names: (empty)".to_string(),
            Some("0".to_string())
        )]
    );
}

#[test]
fn unban_only_posts_when_something_was_removed() {
    let mut fs = FilterSet::new();
    fs.bad_usernames.push("mal".to_string());
    let (_, out) = process_command("/unban mal", &mut fs, &no_users());
    assert!(out.save);
    assert_eq!(
        out.actions,
        vec![PostType::Post("Unbanned mal".to_string(), Some("0".to_string()))]
    );
    let (_, out2) = process_command("/unban mal", &mut fs, &no_users());
    assert!(!out2.save);
    assert!(out2.actions.is_empty());
}

#[test]
fn allow_and_revoke_manage_the_allowlist() {
    let mut fs = FilterSet::new();
    let (_, _) = process_command("/allow helper", &mut fs, &no_users());
    assert_eq!(fs.allowlist, vec!["helper".to_string()]);
    let (_, _) = process_command("/allow helper", &mut fs, &no_users());
    assert_eq!(fs.allowlist, vec!["helper".to_string()]);
    let (_, _) = process_command("/revoke helper", &mut fs, &no_users());
    assert!(fs.allowlist.is_empty());
}

#[test]
fn warn_command_builds_the_notice() {
    let mut fs = FilterSet::new();
    let (_, out) = process_command("!warn bob", &mut fs, &no_users());
    assert_eq!(
        out.actions,
        vec![PostType::Post(
            "This is your warning - @bob, will be kicked next. Please read the !-rules / https://4-0-4.io/bhc-rules"
                .to_string(),
            None
        )]
    );
}

#[test]
fn cycle_commands_steer_the_cycler() {
    let mut fs = FilterSet::new();
    assert_eq!(process_command("/cycles", &mut fs, &no_users()).1.cycle, Some(CycleCmd::StopCycles));
    assert_eq!(process_command("/cycle1", &mut fs, &no_users()).1.cycle, Some(CycleCmd::ColorOnly));
    assert_eq!(process_command("/cycle2", &mut fs, &no_users()).1.cycle, Some(CycleCmd::Full));
}

#[test]
fn post_plan_has_the_exact_fields() {
    let prof = ProfileInfo { bold: false, italic: false, small: false, font: String::new() };
    let plan = plan_request(
        PostType::Post("hello".to_string(), None),
        "N1",
        "P1",
        "S1",
        prof,
    );
    match plan {
        RequestPlan::Form(fields) => assert_eq!(
            fields,
            pairs(&[
                ("lang", "en"),
                ("nc", "N1"),
                ("session", "S1"),
                ("action", "post"),
                ("postid", "P1"),
                ("multi", "on"),
                ("message", "hello"),
                ("sendto", "s *"),
            ])
        ),
        other => panic!("unexpected plan {:?}", other),
    }
}

#[test]
fn kick_plan_purges() {
    let prof = ProfileInfo { bold: false, italic: false, small: false, font: String::new() };
    let plan = plan_request(
        PostType::Kick("bye".to_string(), "troll".to_string()),
        "N",
        "P",
        "S",
        prof,
    );
    match plan {
        RequestPlan::Form(fields) => assert_eq!(
            fields,
            pairs(&[
                ("lang", "en"),
                ("nc", "N"),
                ("session", "S"),
                ("action", "post"),
                ("postid", "P"),
                ("message", "bye"),
                ("sendto", "troll"),
                ("kick", "kick"),
                ("what", "purge"),
            ])
        ),
        other => panic!("unexpected plan {:?}", other),
    }
}

#[test]
fn profile_plan_echoes_the_flags() {
    let prof = ProfileInfo { bold: true, italic: false, small: true, font: "arial".to_string() };
    assert!(needs_profile(&PostType::NewColor("x".to_string())));
    let plan = plan_request(PostType::NewColor("#123456".to_string()), "N", "P", "S", prof);
    match plan {
        RequestPlan::Form(fields) => assert_eq!(
            fields,
            pairs(&[
                ("lang", "en"),
                ("nc", "N"),
                ("session", "S"),
                ("action", "profile"),
                ("bold", "on"),
                ("small", "on"),
                ("font", "arial"),
                ("do", "save"),
                ("timestamps", "on"),
                ("colour", "#123456"),
            ])
        ),
        other => panic!("unexpected plan {:?}", other),
    }
}

#[test]
fn upload_plan_is_multipart() {
    let prof = ProfileInfo { bold: false, italic: false, small: false, font: String::new() };
    let plan = plan_request(
        PostType::Upload("/tmp/f".to_string(), "s *".to_string(), "here".to_string()),
        "N",
        "P",
        "S",
        prof,
    );
    match plan {
        RequestPlan::Upload(fields, path) => {
            assert_eq!(path, "/tmp/f");
            assert_eq!(fields.len(), 8);
        }
        other => panic!("unexpected plan {:?}", other),
    }
}

#[test]
fn dispatcher_retries_only_timeouts() {
    assert_eq!(send_retry_decision(SendOutcome::TimedOut), RetryErr::Retry);
    assert_eq!(send_retry_decision(SendOutcome::Failed), RetryErr::Exit);
    assert_eq!(send_retry_decision(SendOutcome::Sent), RetryErr::Exit);
}

#[test]
fn only_posts_reset_the_keepalive() {
    assert!(resets_keepalive(&PostType::Post("x".to_string(), None)));
    assert!(!resets_keepalive(&PostType::DeleteLast));
    assert!(!resets_keepalive(&PostType::Kick(String::new(), "x".to_string())));
}

#[test]
fn keepalive_posts_then_deletes() {
    let acts = keepalive_actions("0");
    assert_eq!(
        acts,
        vec![
            PostType::Post("keep alive".to_string(), Some("0".to_string())),
            PostType::DeleteLast,
        ]
    );
}

#[test]
fn clean_lookup_finds_the_first_match() {
    let mk = |id: Option<usize>, date: &str, text: &str| {
        Message::new(
            id,
            MessageType::UserMsg,
            date.to_string(),
            None,
            StyledText::Text(text.to_string()),
        )
    };
    let msgs = vec![
        mk(Some(7), "01-01 00:00:01", "x"),
        mk(Some(8), "01-01 00:00:02", "y"),
        mk(None, "01-01 00:00:03", "z"),
    ];
    assert_eq!(find_clean_target(&msgs, "01-01 00:00:02", "y"), CleanLookup::Found(8));
    assert_eq!(find_clean_target(&msgs, "01-01 00:00:03", "z"), CleanLookup::FoundWithoutId);
    assert_eq!(find_clean_target(&msgs, "01-01 00:00:04", "w"), CleanLookup::NotFound);
}
