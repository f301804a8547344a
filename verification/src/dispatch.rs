//! The outbound-action model: the closed sum of mutating actions, the
//! exact request each action turns into, the dispatcher's retry rule, and
//! the keepalive actions.

use vstd::prelude::*;
use crate::message::Message;
use crate::styled::text_of;

verus! {

/// A mutating action sent through the dispatcher, one variant per
/// operation.
#[derive(Debug, Clone, PartialEq)]
pub enum PostType {
    /// A message and who receives it (everyone when unset).
    Post(String, Option<String>),
    /// A goodbye message and the username to kick.
    Kick(String, String),
    /// A file path, the recipient scope, and the accompanying message.
    Upload(String, String, String),
    DeleteLast,
    DeleteAll,
    NewNickname(String),
    NewColor(String),
    /// A new color and a new nickname together.
    Profile(String, String),
    Ignore(String),
    Unignore(String),
    /// Moderated delete of one past message, found by (timestamp, text).
    Clean(String, String),
}

/// The view of an action: each string by its characters.
pub enum PostView {
    Post(Seq<char>, Option<Seq<char>>),
    Kick(Seq<char>, Seq<char>),
    Upload(Seq<char>, Seq<char>, Seq<char>),
    DeleteLast,
    DeleteAll,
    NewNickname(Seq<char>),
    NewColor(Seq<char>),
    Profile(Seq<char>, Seq<char>),
    Ignore(Seq<char>),
    Unignore(Seq<char>),
    Clean(Seq<char>, Seq<char>),
}

impl View for PostType {
    type V = PostView;

    open spec fn view(&self) -> PostView {
        match self {
            PostType::Post(m, to) => PostView::Post(
                m@,
                match to {
                    Some(t) => Some(t@),
                    None => None,
                },
            ),
            PostType::Kick(m, u) => PostView::Kick(m@, u@),
            PostType::Upload(p, s, m) => PostView::Upload(p@, s@, m@),
            PostType::DeleteLast => PostView::DeleteLast,
            PostType::DeleteAll => PostView::DeleteAll,
            PostType::NewNickname(n) => PostView::NewNickname(n@),
            PostType::NewColor(c) => PostView::NewColor(c@),
            PostType::Profile(c, n) => PostView::Profile(c@, n@),
            PostType::Ignore(u) => PostView::Ignore(u@),
            PostType::Unignore(u) => PostView::Unignore(u@),
            PostType::Clean(d, t) => PostView::Clean(d@, t@),
        }
    }
}

/// The views of a produced action list.
pub open spec fn posts_view(r: Seq<PostType>) -> Seq<PostView> {
    r.map_values(|p: PostType| p@)
}

/// The views of a form-field list.
pub open spec fn params_view(r: Seq<(String, String)>) -> Seq<(Seq<char>, Seq<char>)> {
    r.map_values(|p: (String, String)| (p.0@, p.1@))
}

/// The profile flags read back from the profile page before a profile
/// mutation; the form must echo them so they are not lost.
#[derive(Debug, Clone, PartialEq)]
pub struct ProfileInfo {
    pub bold: bool,
    pub italic: bool,
    pub small: bool,
    pub font: String,
}

/// The request an action turns into: an ordinary form, a multipart upload
/// of a file with its fields, or the clean flow with its own round-trip.
#[derive(Debug, PartialEq)]
pub enum RequestPlan {
    Form(Vec<(String, String)>),
    Upload(Vec<(String, String)>, String),
    Clean(String, String),
}

/// The view of a request plan.
pub enum PlanView {
    Form(Seq<(Seq<char>, Seq<char>)>),
    Upload(Seq<(Seq<char>, Seq<char>)>, Seq<char>),
    Clean(Seq<char>, Seq<char>),
}

impl View for RequestPlan {
    type V = PlanView;

    open spec fn view(&self) -> PlanView {
        match self {
            RequestPlan::Form(v) => PlanView::Form(params_view(v@)),
            RequestPlan::Upload(v, p) => PlanView::Upload(params_view(v@), p@),
            RequestPlan::Clean(d, t) => PlanView::Clean(d@, t@),
        }
    }
}

/// The fields every mutating form starts with: the language, the fresh
/// anti-forgery token, and the session.
pub open spec fn base_params_spec(nc: Seq<char>, session: Seq<char>) -> Seq<
    (Seq<char>, Seq<char>),
> {
    seq![("lang"@, "en"@), ("nc"@, nc), ("session"@, session)]
}

/// The fields echoing the profile flags, as the profile form wants them.
pub open spec fn profile_params_spec(p: ProfileInfo) -> Seq<(Seq<char>, Seq<char>)> {
    seq![("action"@, "profile"@)] + (if p.bold {
        seq![("bold"@, "on"@)]
    } else {
        Seq::<(Seq<char>, Seq<char>)>::empty()
    }) + (if p.italic {
        seq![("italic"@, "on"@)]
    } else {
        Seq::<(Seq<char>, Seq<char>)>::empty()
    }) + (if p.small {
        seq![("small"@, "on"@)]
    } else {
        Seq::<(Seq<char>, Seq<char>)>::empty()
    }) + seq![("font"@, p.font@)]
}

/// The exact request of each action, given the fresh tokens, the session,
/// and (for profile mutations) the echoed profile flags.
pub open spec fn plan_spec(
    pt: PostView,
    nc: Seq<char>,
    postid: Seq<char>,
    session: Seq<char>,
    prof: ProfileInfo,
) -> PlanView {
    let base = base_params_spec(nc, session);
    match pt {
        PostView::Post(msg, send_to) => PlanView::Form(
            base + seq![
                ("action"@, "post"@),
                ("postid"@, postid),
                ("multi"@, "on"@),
                ("message"@, msg),
                (
                    "sendto"@,
                    match send_to {
                        Some(t) => t,
                        None => "s *"@,
                    },
                ),
            ],
        ),
        PostView::Kick(msg, send_to) => PlanView::Form(
            base + seq![
                ("action"@, "post"@),
                ("postid"@, postid),
                ("message"@, msg),
                ("sendto"@, send_to),
                ("kick"@, "kick"@),
                ("what"@, "purge"@),
            ],
        ),
        PostView::DeleteLast => PlanView::Form(
            base + seq![("action"@, "delete"@), ("sendto"@, ""@), ("what"@, "last"@)],
        ),
        PostView::DeleteAll => PlanView::Form(
            base + seq![
                ("action"@, "delete"@),
                ("sendto"@, "s *"@),
                ("confirm"@, "yes"@),
                ("what"@, "all"@),
            ],
        ),
        PostView::NewNickname(nn) => PlanView::Form(
            base + profile_params_spec(prof) + seq![
                ("do"@, "save"@),
                ("timestamps"@, "on"@),
                ("newnickname"@, nn),
            ],
        ),
        PostView::NewColor(c) => PlanView::Form(
            base + profile_params_spec(prof) + seq![
                ("do"@, "save"@),
                ("timestamps"@, "on"@),
                ("colour"@, c),
            ],
        ),
        PostView::Ignore(u) => PlanView::Form(
            base + profile_params_spec(prof) + seq![
                ("do"@, "save"@),
                ("timestamps"@, "on"@),
                ("ignore"@, u),
            ],
        ),
        PostView::Unignore(u) => PlanView::Form(
            base + profile_params_spec(prof) + seq![
                ("do"@, "save"@),
                ("timestamps"@, "on"@),
                ("unignore"@, u),
            ],
        ),
        PostView::Profile(c, nn) => PlanView::Form(
            base + profile_params_spec(prof) + seq![
                ("do"@, "save"@),
                ("timestamps"@, "on"@),
                ("colour"@, c),
                ("newnickname"@, nn),
            ],
        ),
        PostView::Upload(path, send_to, msg) => PlanView::Upload(
            seq![
                ("lang"@, "en"@),
                ("nc"@, nc),
                ("session"@, session),
                ("action"@, "post"@),
                ("postid"@, postid),
                ("message"@, msg),
                ("sendto"@, send_to),
                ("what"@, "purge"@),
            ],
            path,
        ),
        PostView::Clean(d, t) => PlanView::Clean(d, t),
    }
}

/// Whether building the action's request needs the profile flags first.
pub open spec fn needs_profile_spec(pt: PostView) -> bool {
    match pt {
        PostView::NewNickname(_) => true,
        PostView::NewColor(_) => true,
        PostView::Ignore(_) => true,
        PostView::Unignore(_) => true,
        PostView::Profile(_, _) => true,
        _ => false,
    }
}

/// Whether building the action's request needs the profile flags first.
pub fn needs_profile(pt: &PostType) -> (r: bool)
    ensures
        r == needs_profile_spec(pt@),
{
    match pt {
        PostType::NewNickname(_) => true,
        PostType::NewColor(_) => true,
        PostType::Ignore(_) => true,
        PostType::Unignore(_) => true,
        PostType::Profile(_, _) => true,
        _ => false,
    }
}

fn push_pair(v: &mut Vec<(String, String)>, k: &str, val: String)
    ensures
        params_view(final(v)@) == params_view(old(v)@) + seq![(k@, val@)],
{
    let ghost pre = v@;
    v.push((String::from_str(k), val));
    proof {
        assert(params_view(v@) =~= params_view(pre) + seq![(k@, val@)]);
    }
}

fn push_lit(v: &mut Vec<(String, String)>, k: &str, val: &str)
    ensures
        params_view(final(v)@) == params_view(old(v)@) + seq![(k@, val@)],
{
    push_pair(v, k, String::from_str(val));
}

fn base_params(nc: &str, session: &str) -> (r: Vec<(String, String)>)
    ensures
        params_view(r@) == base_params_spec(nc@, session@),
{
    let mut v: Vec<(String, String)> = Vec::new();
    proof {
        assert(params_view(v@) =~= Seq::<(Seq<char>, Seq<char>)>::empty());
    }
    push_lit(&mut v, "lang", "en");
    push_lit(&mut v, "nc", nc);
    push_lit(&mut v, "session", session);
    proof {
        assert(params_view(v@) =~= base_params_spec(nc@, session@));
    }
    v
}

fn push_profile_params(v: &mut Vec<(String, String)>, prof: ProfileInfo)
    ensures
        params_view(final(v)@) == params_view(old(v)@) + profile_params_spec(prof),
{
    push_lit(v, "action", "profile");
    if prof.bold {
        push_lit(v, "bold", "on");
    }
    if prof.italic {
        push_lit(v, "italic", "on");
    }
    if prof.small {
        push_lit(v, "small", "on");
    }
    let f = prof.font;
    push_pair(v, "font", f);
    proof {
        assert(params_view(v@) =~= params_view(old(v)@) + profile_params_spec(prof));
    }
}

/// Build the exact request of one action from the fresh tokens, the
/// session, and the echoed profile flags (only read where the action
/// needs them).
pub fn plan_request(pt: PostType, nc: &str, postid: &str, session: &str, prof: ProfileInfo) -> (r:
    RequestPlan)
    ensures
        r@ == plan_spec(pt@, nc@, postid@, session@, prof),
{
    let ghost pt0 = pt@;
    let ghost prof0 = prof;
    match pt {
        PostType::Post(msg, send_to) => {
            let mut v = base_params(nc, session);
            push_lit(&mut v, "action", "post");
            push_lit(&mut v, "postid", postid);
            push_lit(&mut v, "multi", "on");
            push_pair(&mut v, "message", msg);
            let st = match send_to {
                Some(t) => t,
                None => String::from_str("s *"),
            };
            push_pair(&mut v, "sendto", st);
            proof {
                assert(params_view(v@) =~= (match plan_spec(pt0, nc@, postid@, session@, prof0) {
                    PlanView::Form(f) => f,
                    _ => Seq::<(Seq<char>, Seq<char>)>::empty(),
                }));
            }
            RequestPlan::Form(v)
        },
        PostType::Kick(msg, send_to) => {
            let mut v = base_params(nc, session);
            push_lit(&mut v, "action", "post");
            push_lit(&mut v, "postid", postid);
            push_pair(&mut v, "message", msg);
            push_pair(&mut v, "sendto", send_to);
            push_lit(&mut v, "kick", "kick");
            push_lit(&mut v, "what", "purge");
            proof {
                assert(params_view(v@) =~= (match plan_spec(pt0, nc@, postid@, session@, prof0) {
                    PlanView::Form(f) => f,
                    _ => Seq::<(Seq<char>, Seq<char>)>::empty(),
                }));
            }
            RequestPlan::Form(v)
        },
        PostType::DeleteLast => {
            let mut v = base_params(nc, session);
            push_lit(&mut v, "action", "delete");
            push_lit(&mut v, "sendto", "");
            push_lit(&mut v, "what", "last");
            proof {
                assert(params_view(v@) =~= (match plan_spec(pt0, nc@, postid@, session@, prof0) {
                    PlanView::Form(f) => f,
                    _ => Seq::<(Seq<char>, Seq<char>)>::empty(),
                }));
            }
            RequestPlan::Form(v)
        },
        PostType::DeleteAll => {
            let mut v = base_params(nc, session);
            push_lit(&mut v, "action", "delete");
            push_lit(&mut v, "sendto", "s *");
            push_lit(&mut v, "confirm", "yes");
            push_lit(&mut v, "what", "all");
            proof {
                assert(params_view(v@) =~= (match plan_spec(pt0, nc@, postid@, session@, prof0) {
                    PlanView::Form(f) => f,
                    _ => Seq::<(Seq<char>, Seq<char>)>::empty(),
                }));
            }
            RequestPlan::Form(v)
        },
        PostType::NewNickname(nn) => {
            let mut v = base_params(nc, session);
            push_profile_params(&mut v, prof);
            push_lit(&mut v, "do", "save");
            push_lit(&mut v, "timestamps", "on");
            push_pair(&mut v, "newnickname", nn);
            proof {
                assert(params_view(v@) =~= (match plan_spec(pt0, nc@, postid@, session@, prof0) {
                    PlanView::Form(f) => f,
                    _ => Seq::<(Seq<char>, Seq<char>)>::empty(),
                }));
            }
            RequestPlan::Form(v)
        },
        PostType::NewColor(c) => {
            let mut v = base_params(nc, session);
            push_profile_params(&mut v, prof);
            push_lit(&mut v, "do", "save");
            push_lit(&mut v, "timestamps", "on");
            push_pair(&mut v, "colour", c);
            proof {
                assert(params_view(v@) =~= (match plan_spec(pt0, nc@, postid@, session@, prof0) {
                    PlanView::Form(f) => f,
                    _ => Seq::<(Seq<char>, Seq<char>)>::empty(),
                }));
            }
            RequestPlan::Form(v)
        },
        PostType::Ignore(u) => {
            let mut v = base_params(nc, session);
            push_profile_params(&mut v, prof);
            push_lit(&mut v, "do", "save");
            push_lit(&mut v, "timestamps", "on");
            push_pair(&mut v, "ignore", u);
            proof {
                assert(params_view(v@) =~= (match plan_spec(pt0, nc@, postid@, session@, prof0) {
                    PlanView::Form(f) => f,
                    _ => Seq::<(Seq<char>, Seq<char>)>::empty(),
                }));
            }
            RequestPlan::Form(v)
        },
        PostType::Unignore(u) => {
            let mut v = base_params(nc, session);
            push_profile_params(&mut v, prof);
            push_lit(&mut v, "do", "save");
            push_lit(&mut v, "timestamps", "on");
            push_pair(&mut v, "unignore", u);
            proof {
                assert(params_view(v@) =~= (match plan_spec(pt0, nc@, postid@, session@, prof0) {
                    PlanView::Form(f) => f,
                    _ => Seq::<(Seq<char>, Seq<char>)>::empty(),
                }));
            }
            RequestPlan::Form(v)
        },
        PostType::Profile(c, nn) => {
            let mut v = base_params(nc, session);
            push_profile_params(&mut v, prof);
            push_lit(&mut v, "do", "save");
            push_lit(&mut v, "timestamps", "on");
            push_pair(&mut v, "colour", c);
            push_pair(&mut v, "newnickname", nn);
            proof {
                assert(params_view(v@) =~= (match plan_spec(pt0, nc@, postid@, session@, prof0) {
                    PlanView::Form(f) => f,
                    _ => Seq::<(Seq<char>, Seq<char>)>::empty(),
                }));
            }
            RequestPlan::Form(v)
        },
        PostType::Upload(path, send_to, msg) => {
            let mut v: Vec<(String, String)> = Vec::new();
            proof {
                assert(params_view(v@) =~= Seq::<(Seq<char>, Seq<char>)>::empty());
            }
            push_lit(&mut v, "lang", "en");
            push_lit(&mut v, "nc", nc);
            push_lit(&mut v, "session", session);
            push_lit(&mut v, "action", "post");
            push_lit(&mut v, "postid", postid);
            push_pair(&mut v, "message", msg);
            push_pair(&mut v, "sendto", send_to);
            push_lit(&mut v, "what", "purge");
            proof {
                assert(params_view(v@) =~= (match plan_spec(pt0, nc@, postid@, session@, prof0) {
                    PlanView::Upload(f, _) => f,
                    _ => Seq::<(Seq<char>, Seq<char>)>::empty(),
                }));
            }
            RequestPlan::Upload(v, path)
        },
        PostType::Clean(d, t) => RequestPlan::Clean(d, t),
    }
}

/// What a send attempt came back as: delivered, timed out, or failed in
/// another way.
#[derive(Debug, Clone, Copy, PartialEq, Eq, Structural)]
pub enum SendOutcome {
    Sent,
    TimedOut,
    Failed,
}

/// What the dispatcher's retry loop does after a callback ran.
#[derive(Debug, Clone, Copy, PartialEq, Eq, Structural)]
pub enum RetryErr {
    Retry,
    Exit,
}

/// The dispatcher's rule for one send attempt: a timeout is retried (the
/// same action, indefinitely), a success or any other failure ends the
/// action — it is never resent, to avoid duplicate side effects.
pub fn send_retry_decision(outcome: SendOutcome) -> (r: RetryErr)
    ensures
        r == (if outcome == SendOutcome::TimedOut {
            RetryErr::Retry
        } else {
            RetryErr::Exit
        }),
{
    match outcome {
        SendOutcome::TimedOut => RetryErr::Retry,
        _ => RetryErr::Exit,
    }
}

/// Whether the action resets the keepalive window: only an ordinary post
/// counts as activity.
pub fn resets_keepalive(pt: &PostType) -> (r: bool)
    ensures
        r == (pt@ is Post),
{
    match pt {
        PostType::Post(_, _) => true,
        _ => false,
    }
}

/// The two actions the keepalive ticker issues when the window elapses: a
/// throwaway post to the configured recipient, then the deletion of that
/// post.
pub fn keepalive_actions(send_to: &str) -> (r: Vec<PostType>)
    ensures
        posts_view(r@) == seq![
            PostView::Post("keep alive"@, Some(send_to@)),
            PostView::DeleteLast,
        ],
{
    let mut r: Vec<PostType> = Vec::new();
    r.push(PostType::Post(String::from_str("keep alive"), Some(String::from_str(send_to))));
    r.push(PostType::DeleteLast);
    proof {
        assert(posts_view(r@) =~= seq![
            PostView::Post("keep alive"@, Some(send_to@)),
            PostView::DeleteLast,
        ]);
    }
    r
}

/// Whether a listed delete candidate is the message the clean action
/// names: same timestamp text and same flattened content.
pub open spec fn clean_match(m: Message, date: Seq<char>, text: Seq<char>) -> bool {
    m.date@ == date && text_of(m.text) == text
}

/// What looking the clean target up yields.
#[derive(Debug, Clone, Copy, PartialEq, Eq, Structural)]
pub enum CleanLookup {
    /// The matching entry and its remote identifier.
    Found(usize),
    /// A matching entry without a remote identifier: the flow fails and
    /// is retried.
    FoundWithoutId,
    /// No matching entry: the action is dropped without error.
    NotFound,
}

/// The first matching delete candidate decides the lookup.
pub open spec fn find_clean_spec(msgs: Seq<Message>, date: Seq<char>, text: Seq<char>) -> CleanLookup
    decreases msgs.len(),
{
    if msgs.len() == 0 {
        CleanLookup::NotFound
    } else if clean_match(msgs[0], date, text) {
        match msgs[0].id {
            Some(id) => CleanLookup::Found(id),
            None => CleanLookup::FoundWithoutId,
        }
    } else {
        find_clean_spec(msgs.drop_first(), date, text)
    }
}

/// Find the delete candidate a clean action names: the first entry with
/// the same timestamp and text, and its remote identifier.
pub fn find_clean_target(msgs: &Vec<Message>, date: &str, text: &str) -> (r: CleanLookup)
    ensures
        r == find_clean_spec(msgs@, date@, text@),
{
    let n: usize = msgs.len();
    let mut i: usize = 0;
    proof {
        assert(msgs@.skip(0) =~= msgs@);
    }
    while i < n
        invariant
            0 <= i <= n,
            n == msgs@.len(),
            find_clean_spec(msgs@, date@, text@) == find_clean_spec(
                msgs@.skip(i as int),
                date@,
                text@,
            ),
        decreases n - i,
    {
        proof {
            assert(msgs@.skip(i as int)[0] == msgs@[i as int]);
            assert(msgs@.skip(i as int).drop_first() =~= msgs@.skip(i + 1));
        }
        let date_ok = crate::strutil::str_eq(msgs[i].date.as_str(), date);
        if date_ok {
            let t = msgs[i].text.text();
            if crate::strutil::str_eq(t.as_str(), text) {
                match msgs[i].id {
                    Some(id) => {
                        return CleanLookup::Found(id);
                    },
                    None => {
                        return CleanLookup::FoundWithoutId;
                    },
                }
            }
        }
        i = i + 1;
    }
    proof {
        assert(msgs@.skip(n as int).len() == 0);
    }
    CleanLookup::NotFound
}

} // verus!
