use bhcli::session::{after_cycle, needs_login, retry_step, LoginErr, RetryDecision};
use bhcli::signal::{ExitSignal, Sig};

#[test]
fn connection_refused_is_fatal_at_once() {
    // With maxRetries = 3, the first of four connection-refused failures
    // already stops the loop; no retry happens.
    let (d, a) = retry_step(0, 3, LoginErr::ConnectionRefused);
    assert_eq!(d, RetryDecision::Stop);
    assert_eq!(a, 0);
}

#[test]
fn four_timeouts_stop_after_attempt_three() {
    let mut attempt = 0u32;
    let mut decisions = Vec::new();
    for _ in 0..4 {
        let (d, a) = retry_step(attempt, 3, LoginErr::Timeout);
        attempt = a;
        decisions.push(d);
    }
    assert_eq!(
        decisions,
        vec![
            RetryDecision::RetryBackoff,
            RetryDecision::RetryBackoff,
            RetryDecision::RetryBackoff,
            RetryDecision::Stop,
        ]
    );
    assert_eq!(attempt, 4);
}

#[test]
fn captcha_races_do_not_count() {
    assert_eq!(retry_step(2, 3, LoginErr::CaptchaWg), (RetryDecision::RetryNow, 2));
    assert_eq!(retry_step(2, 3, LoginErr::CaptchaUsed), (RetryDecision::RetryNow, 2));
    assert_eq!(retry_step(2, 3, LoginErr::CaptchaFailedSolve), (RetryDecision::RetryNow, 2));
}

#[test]
fn fatal_classes_stop() {
    for e in [LoginErr::Kicked, LoginErr::Reg, LoginErr::Nickname, LoginErr::Unknown] {
        assert_eq!(retry_step(1, 0, e), (RetryDecision::Stop, 1));
    }
}

#[test]
fn server_errors_back_off_and_count() {
    assert_eq!(retry_step(0, 0, LoginErr::ServerDown), (RetryDecision::RetryBackoff, 1));
    assert_eq!(retry_step(0, 0, LoginErr::ServerDown500), (RetryDecision::RetryBackoff, 1));
    assert_eq!(retry_step(0, 0, LoginErr::Transport), (RetryDecision::RetryBackoff, 1));
}

#[test]
fn unlimited_retries_never_stop_on_timeouts() {
    let mut attempt = 0u32;
    for _ in 0..50 {
        let (d, a) = retry_step(attempt, 0, LoginErr::Timeout);
        assert_eq!(d, RetryDecision::RetryBackoff);
        attempt = a;
    }
    assert_eq!(attempt, 50);
}

#[test]
fn cycle_end_resets_the_counter() {
    assert_eq!(after_cycle(ExitSignal::Terminate, 3), (RetryDecision::Stop, 0));
    assert_eq!(after_cycle(ExitSignal::NeedLogin, 3), (RetryDecision::RetryBackoff, 1));
}

#[test]
fn resumed_session_skips_login() {
    assert!(needs_login(&None));
    assert!(!needs_login(&Some("token".to_string())));
}

#[test]
fn signal_reaches_every_subscriber_once() {
    let mut sig = Sig::new();
    let r1 = sig.clone();
    let r2 = sig.clone();
    let r3 = sig.clone();
    let sent = sig.signal(&ExitSignal::Terminate);
    assert_eq!(sent, 3);
    assert_eq!(r1.try_recv(), Ok(ExitSignal::Terminate));
    assert_eq!(r2.try_recv(), Ok(ExitSignal::Terminate));
    assert_eq!(r3.try_recv(), Ok(ExitSignal::Terminate));
    assert!(r1.try_recv().is_err());
}

#[test]
fn signal_without_subscribers_sends_nothing() {
    let sig = Sig::new();
    assert_eq!(sig.signal(&ExitSignal::NeedLogin), 0);
}

#[test]
fn need_login_fans_out_too() {
    let mut sig = Sig::new();
    let r1 = sig.clone();
    let r2 = sig.clone();
    assert_eq!(sig.signal(&ExitSignal::NeedLogin), 2);
    assert_eq!(r1.try_recv(), Ok(ExitSignal::NeedLogin));
    assert_eq!(r2.try_recv(), Ok(ExitSignal::NeedLogin));
}
