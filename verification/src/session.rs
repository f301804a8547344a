//! The login retry state machine: how each failure class is treated, how
//! the attempt counter moves, and when the outer loop gives up.

use vstd::prelude::*;
use crate::signal::ExitSignal;

verus! {

/// A classified login failure.
#[derive(Debug, Clone, Copy, PartialEq, Eq, Structural)]
pub enum LoginErr {
    /// The account was kicked: fatal.
    Kicked,
    /// The nickname is a registered member: fatal.
    Reg,
    /// The nickname is invalid: fatal.
    Nickname,
    /// The server answered something unrecognized: fatal.
    Unknown,
    /// The captcha could not be solved: retried at once, not counted.
    CaptchaFailedSolve,
    /// The captcha was wrong: an expected race, retried silently, not
    /// counted.
    CaptchaWg,
    /// The captcha was already used or timed out: an expected race,
    /// retried silently, not counted.
    CaptchaUsed,
    /// The server answered 500: retried after the backoff, counted.
    ServerDown500,
    /// The server answered 502: retried after the backoff, counted.
    ServerDown,
    /// The connection was refused, likely a missing local proxy: fatal.
    ConnectionRefused,
    /// The request timed out: retried after the backoff, counted.
    Timeout,
    /// Any other transport failure: retried after the backoff, counted.
    Transport,
}

/// What the retry loop does next.
#[derive(Debug, Clone, Copy, PartialEq, Eq, Structural)]
pub enum RetryDecision {
    /// Stop retrying and surface the failure to the operator.
    Stop,
    /// Retry at once, without clearing the session or sleeping.
    RetryNow,
    /// Clear the session, wait the fixed backoff, and retry.
    RetryBackoff,
}

/// Failures the operator must resolve: no retry can help.
pub open spec fn is_fatal(e: LoginErr) -> bool {
    e == LoginErr::Kicked || e == LoginErr::Reg || e == LoginErr::Nickname || e
        == LoginErr::Unknown || e == LoginErr::ConnectionRefused
}

/// Expected captcha races and solver failures: retried without counting
/// an attempt.
pub open spec fn is_uncounted(e: LoginErr) -> bool {
    e == LoginErr::CaptchaFailedSolve || e == LoginErr::CaptchaWg || e == LoginErr::CaptchaUsed
}

/// The retry loop gives up when a maximum is set and the attempts exceed
/// it; zero means unlimited.
pub open spec fn exhausted(attempt: int, max_retry: u32) -> bool {
    max_retry > 0 && attempt > max_retry
}

/// One step of the retry machine on a login failure: the decision and the
/// new attempt count. A fatal failure stops at once; an uncounted failure
/// retries immediately; anything else counts an attempt and retries after
/// the backoff until the attempts are exhausted.
pub fn retry_step(attempt: u32, max_retry: u32, e: LoginErr) -> (r: (RetryDecision, u32))
    requires
        attempt < u32::MAX,
    ensures
        is_fatal(e) ==> r == (RetryDecision::Stop, attempt),
        is_uncounted(e) ==> r == (RetryDecision::RetryNow, attempt),
        !is_fatal(e) && !is_uncounted(e) ==> r.1 == attempt + 1 && r.0 == (if exhausted(
            attempt + 1,
            max_retry,
        ) {
            RetryDecision::Stop
        } else {
            RetryDecision::RetryBackoff
        }),
{
    match e {
        LoginErr::Kicked
        | LoginErr::Reg
        | LoginErr::Nickname
        | LoginErr::Unknown
        | LoginErr::ConnectionRefused => (RetryDecision::Stop, attempt),
        LoginErr::CaptchaFailedSolve | LoginErr::CaptchaWg | LoginErr::CaptchaUsed => (
            RetryDecision::RetryNow,
            attempt,
        ),
        _ => {
            let next = attempt + 1;
            if max_retry > 0 && next > max_retry {
                (RetryDecision::Stop, next)
            } else {
                (RetryDecision::RetryBackoff, next)
            }
        },
    }
}

/// One step of the retry machine after a login succeeded and the poll
/// cycle ended: the counter resets, then `Terminate` stops the loop and
/// `NeedLogin` counts as the first attempt of a fresh round.
pub fn after_cycle(sig: ExitSignal, max_retry: u32) -> (r: (RetryDecision, u32))
    ensures
        sig == ExitSignal::Terminate ==> r == (RetryDecision::Stop, 0u32),
        sig == ExitSignal::NeedLogin ==> r.1 == 1 && r.0 == (if exhausted(1, max_retry) {
            RetryDecision::Stop
        } else {
            RetryDecision::RetryBackoff
        }),
{
    match sig {
        ExitSignal::Terminate => (RetryDecision::Stop, 0),
        ExitSignal::NeedLogin => {
            if max_retry > 0 && 1 > max_retry {
                (RetryDecision::Stop, 1)
            } else {
                (RetryDecision::RetryBackoff, 1)
            }
        },
    }
}

/// Whether a login round-trip is owed: with a session token already in
/// hand, login is a no-op success.
pub fn needs_login(session: &Option<String>) -> (r: bool)
    ensures
        r == (session is None),
{
    match session {
        Some(_) => false,
        None => true,
    }
}

} // verus!
