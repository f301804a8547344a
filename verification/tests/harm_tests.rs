use bhcli::harm::{action_from_score, score_message, Action, Reason};

#[test]
fn directed_slur_scores_high() {
    let r = score_message("you nigga");
    assert!(r.score >= 70);
    assert_eq!(r.reason, Some(Reason::RacialSlur));
}

#[test]
fn non_directed_slur_scores_mid() {
    let r = score_message("that nigga");
    assert!(r.score >= 40 && r.score < 70);
    assert_eq!(r.reason, Some(Reason::RacialSlur));
}

#[test]
fn csam_request_scores_highest() {
    let r = score_message("anyone has cp");
    assert!(r.score >= 90);
    assert_eq!(r.reason, Some(Reason::CsabRequest));
}

#[test]
fn csam_talk_scores_mid() {
    let r = score_message("cp is bad");
    assert!(r.score >= 50 && r.score < 90);
    assert_eq!(r.reason, Some(Reason::CsabTalk));
}

#[test]
fn slur_reason_wins_when_both_detectors_fire() {
    // The score is the maximum across detectors; the reason is the first
    // detector that fired, and the slur detector runs first.
    let r = score_message("you nigga anyone has cp");
    assert!(r.score >= 90);
    assert_eq!(r.reason, Some(Reason::RacialSlur));
}

#[test]
fn score_is_always_in_range() {
    let samples = [
        "",
        "hello world",
        "you nigga anyone has cp",
        "NIGGER",
        "n1gg3r",
        "chees pizza",
        "childsexualabuse link",
    ];
    for s in samples.iter() {
        let r = score_message(s);
        assert!(r.score <= 100);
    }
}

#[test]
fn uppercase_is_lowercased_before_detection() {
    let r = score_message("NIGGER");
    assert_eq!(r.score, 40);
    assert_eq!(r.reason, Some(Reason::RacialSlur));
}

#[test]
fn leetspeak_is_normalized() {
    // The raw text never matches; only the digit-substituted form does.
    let r = score_message("you n1gg3r");
    assert_eq!(r.score, 40);
    assert_eq!(r.reason, Some(Reason::RacialSlur));
}

#[test]
fn punctuation_is_stripped_before_detection() {
    // Only the collapsed, substituted form reveals the slur.
    let r = score_message("n-i-g-g-e-r");
    assert_eq!(r.score, 40);
    assert_eq!(r.reason, Some(Reason::RacialSlur));
}

#[test]
fn request_verb_must_be_whole_word() {
    // "anyones" holds no word boundary after "anyone".
    let r = score_message("cp anyones");
    assert_eq!(r.score, 50);
    assert_eq!(r.reason, Some(Reason::CsabTalk));
}

#[test]
fn clean_text_scores_zero() {
    let r = score_message("good morning everyone... how is it going");
    // "anyone" appears but no detector term does, so nothing fires.
    assert_eq!(r.score, 0);
    assert_eq!(r.reason, None);
}

#[test]
fn action_boundaries_are_exact() {
    assert_eq!(action_from_score(0), None);
    assert_eq!(action_from_score(39), None);
    assert_eq!(action_from_score(40), Some(Action::Warn));
    assert_eq!(action_from_score(92), Some(Action::Warn));
    assert_eq!(action_from_score(93), Some(Action::Kick));
    assert_eq!(action_from_score(99), Some(Action::Kick));
    assert_eq!(action_from_score(100), Some(Action::Ban));
    assert_eq!(action_from_score(250), Some(Action::Ban));
}

#[test]
fn descriptions_carry_the_caveat() {
    assert!(Reason::RacialSlur.description().contains("sorry if this is false"));
    assert!(Reason::CsabTalk.description().contains("referencing"));
    assert!(Reason::CsabRequest.description().contains("requesting"));
}
