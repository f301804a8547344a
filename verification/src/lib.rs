//! Core of a polling chat client: message reconciliation, content
//! moderation, filter-list policy, command parsing, the login retry
//! machine, the outbound-action dispatcher model, and a broadcast
//! shutdown signal.

use vstd::prelude::*;

pub mod strutil;
pub mod harm;
pub mod styled;
pub mod message;
pub mod reconcile;
pub mod signal;
pub mod session;
pub mod dispatch;
pub mod filters;
pub mod moderate;
pub mod config;
pub mod command;

verus! {

/// Events handed to the input loop: either a raw input event, a periodic
/// tick, or one of the two shutdown notices.
pub enum Event<I> {
    Input(I),
    Tick,
    Terminate,
    NeedLogin,
}

/// What the notifier endpoint answers: which sounds to play, the unread
/// count, and when the last message was written.
#[derive(Debug, Clone, PartialEq)]
pub struct DkfNotifierResp {
    pub new_message_sound: bool,
    pub tagged_sound: bool,
    pub pm_sound: bool,
    pub inbox_count: i64,
    pub last_message_created_at: String,
}

impl Default for DkfNotifierResp {
    /// No sounds, nothing unread, no last message.
    fn default() -> (r: DkfNotifierResp)
        ensures
            r.new_message_sound == false,
            r.tagged_sound == false,
            r.pm_sound == false,
            r.inbox_count == 0,
            r.last_message_created_at@ == Seq::<char>::empty(),
    {
        DkfNotifierResp {
            new_message_sound: false,
            tagged_sound: false,
            pm_sound: false,
            inbox_count: 0,
            last_message_created_at: String::new(),
        }
    }
}

} // verus!
