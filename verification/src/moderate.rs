//! The moderation engine: per new message, the filter-list policy, the
//! remote moderation commands, and content scoring, each emitting outbound
//! actions; a ban appends to the username filters.

use vstd::prelude::*;
use vstd::string::StrSliceExecFns;
use vstd::string::StringExecFns;
use crate::strutil::{
    contains_seq, contains_str, prefix_of, starts_with, lower_of, str_eq, strings_view, trim_spec,
    strip_ats_spec, clean_target,
};
use crate::styled::text_of;
use crate::message::{Message, Users, ts_of, roster_has, roster_contains};
use crate::dispatch::{PostType, PostView, posts_view};
use crate::filters::{FilterSet, has_exact, has_substring, matches_exact, matches_substring};
use crate::harm::{
    Reason, description_spec, spec_score, spec_reason, action_spec, score_message,
    action_from_score, Action,
};

verus! {

/// The public notice posted for a warned message.
pub open spec fn warn_text_spec(me: Seq<char>, from: Seq<char>, reason: Option<Reason>) -> Seq<
    char,
> {
    seq!['@'] + me + " - @"@ + from + "'s message was flagged for "@ + (match reason {
        Some(r) => description_spec(r),
        None => "breaking the rules"@,
    }) + "."@
}

/// Whether a snapshot message is new for moderation purposes: at least as
/// recent as the newest known message and not identical to it.
pub open spec fn relevant(m: Message, first: Message) -> bool {
    ts_of(first) <= ts_of(m) && !(m.date@ == first.date@ && crate::styled::st_eq(
        m.text,
        first.text,
    ))
}

/// Whether the operator is notified of a message: it mentions them, or it
/// is a private message to them other than the throwaway "!up".
pub open spec fn notify_spec(msg: Seq<char>, to_opt: Option<Seq<char>>, me: Seq<char>) -> bool {
    contains_seq(msg, seq!['@'] + me) || (to_opt == Some(me) && msg != "!up"@)
}

/// Whether the sender may issue remote moderation commands: a member,
/// staff, an admin, or an allow-listed guest.
pub open spec fn permitted_spec(from: Seq<char>, users: Users, allow: Seq<Seq<char>>) -> bool {
    roster_has(users.members@, from) || roster_has(users.staff@, from) || roster_has(
        users.admin@,
        from,
    ) || has_exact(allow, from)
}

/// What the remote-moderation-command layer emits for one message: the
/// actions and the names appended to the username ban filters. An
/// authorized `#kick` kicks its target; an authorized `#ban` also bans it;
/// an unauthorized command directed at the operator earns a refusal note.
pub open spec fn cmd_spec(
    m: Message,
    from: Seq<char>,
    to_opt: Option<Seq<char>>,
    msg: Seq<char>,
    tag: Seq<char>,
    me: Seq<char>,
    users: Users,
    allow: Seq<Seq<char>>,
) -> (Seq<PostView>, Seq<Seq<char>>) {
    let has_permission = permitted_spec(from, users, allow);
    let directed = to_opt == Some(me);
    let via_members = prefix_of(text_of(m.text), tag);
    if prefix_of(msg, "#kick "@) || prefix_of(msg, "#ban "@) {
        if has_permission && (directed || via_members) {
            if prefix_of(msg, "#kick "@) {
                let user = strip_ats_spec(trim_spec(msg.skip("#kick "@.len() as int)));
                if user.len() > 0 {
                    (seq![PostView::Kick(Seq::<char>::empty(), user)], Seq::<Seq<char>>::empty())
                } else {
                    (Seq::<PostView>::empty(), Seq::<Seq<char>>::empty())
                }
            } else {
                let user = strip_ats_spec(trim_spec(msg.skip("#ban "@.len() as int)));
                if user.len() > 0 {
                    (seq![PostView::Kick(Seq::<char>::empty(), user)], seq![user])
                } else {
                    (Seq::<PostView>::empty(), Seq::<Seq<char>>::empty())
                }
            }
        } else if directed && !has_permission {
            (
                seq![PostView::Post("You don't have permission to do that."@, Some(from))],
                Seq::<Seq<char>>::empty(),
            )
        } else {
            (Seq::<PostView>::empty(), Seq::<Seq<char>>::empty())
        }
    } else {
        (Seq::<PostView>::empty(), Seq::<Seq<char>>::empty())
    }
}

/// What the filter-list policy and the content scorer emit for one
/// message from a guest other than the operator: a filter hit kicks at
/// once; otherwise the score decides between nothing, a public warning
/// (withheld for private messages), a kick, and a kick plus ban.
pub open spec fn scoring_spec(
    from: Seq<char>,
    to_opt: Option<Seq<char>>,
    msg: Seq<char>,
    me: Seq<char>,
    users: Users,
    exact: Seq<Seq<char>>,
    subs: Seq<Seq<char>>,
    badmsgs: Seq<Seq<char>>,
) -> (Seq<PostView>, Seq<Seq<char>>) {
    if from != me && roster_has(users.guests@, from) {
        if has_exact(exact, from) || has_substring(subs, from) || has_substring(badmsgs, msg) {
            (seq![PostView::Kick(Seq::<char>::empty(), from)], Seq::<Seq<char>>::empty())
        } else {
            let sc = spec_score(lower_of(msg));
            match action_spec(sc as u32) {
                None => (Seq::<PostView>::empty(), Seq::<Seq<char>>::empty()),
                Some(Action::Warn) => if to_opt is None {
                    (
                        seq![
                            PostView::Post(
                                warn_text_spec(me, from, spec_reason(lower_of(msg))),
                                Some("0"@),
                            ),
                        ],
                        Seq::<Seq<char>>::empty(),
                    )
                } else {
                    (Seq::<PostView>::empty(), Seq::<Seq<char>>::empty())
                },
                Some(Action::Kick) => (
                    seq![PostView::Kick(Seq::<char>::empty(), from)],
                    Seq::<Seq<char>>::empty(),
                ),
                Some(Action::Ban) => (
                    seq![PostView::Kick(Seq::<char>::empty(), from)],
                    seq![from],
                ),
            }
        }
    } else {
        (Seq::<PostView>::empty(), Seq::<Seq<char>>::empty())
    }
}

/// What moderating one message yields: the actions to emit, the names
/// appended to the username ban filters, and whether the operator is
/// notified. The command layer runs first; the scorer sees the filters as
/// the command layer left them.
pub open spec fn step_spec(
    m: Message,
    tag: Seq<char>,
    me: Seq<char>,
    users: Users,
    exact: Seq<Seq<char>>,
    subs: Seq<Seq<char>>,
    badmsgs: Seq<Seq<char>>,
    allow: Seq<Seq<char>>,
) -> (Seq<PostView>, Seq<Seq<char>>, bool) {
    match crate::styled::get_message_spec(m.text, tag) {
        None => (Seq::<PostView>::empty(), Seq::<Seq<char>>::empty(), false),
        Some((from, to_opt, msg)) => {
            let cmd = cmd_spec(m, from, to_opt, msg, tag, me, users, allow);
            let scoring = scoring_spec(from, to_opt, msg, me, users, exact, subs + cmd.1, badmsgs);
            (cmd.0 + scoring.0, cmd.1 + scoring.1, notify_spec(msg, to_opt, me))
        },
    }
}

fn build_warn(me: &str, from: &str, reason: Option<Reason>) -> (r: String)
    ensures
        r@ == warn_text_spec(me@, from@, reason),
{
    let mut s = String::from_str("@");
    s.append(me);
    s.append(" - @");
    s.append(from);
    s.append("'s message was flagged for ");
    match reason {
        Some(rr) => {
            s.append(rr.description());
        },
        None => {
            s.append("breaking the rules");
        },
    }
    s.append(".");
    proof {
        assert("@"@ =~= seq!['@']) by {
            reveal_strlit("@");
        }
        assert(s@ =~= warn_text_spec(me@, from@, reason));
    }
    s
}

/// Moderate one new message: filter-list policy, then remote moderation
/// commands, then content scoring for guest authors; the returned pair is
/// the actions to emit and whether the operator is notified, and a ban
/// appends the offender to the username filters.
pub fn moderate_message(
    m: &Message,
    members_tag: &str,
    username: &str,
    users: &Users,
    filters: &mut FilterSet,
) -> (r: (Vec<PostType>, bool))
    ensures
        ({
            let step = step_spec(
                *m,
                members_tag@,
                username@,
                *users,
                strings_view(old(filters).bad_exact_usernames@),
                strings_view(old(filters).bad_usernames@),
                strings_view(old(filters).bad_messages@),
                strings_view(old(filters).allowlist@),
            );
            &&& posts_view(r.0@) == step.0
            &&& strings_view(final(filters).bad_usernames@) == strings_view(
                old(filters).bad_usernames@,
            ) + step.1
            &&& r.1 == step.2
            &&& final(filters).bad_exact_usernames == old(filters).bad_exact_usernames
            &&& final(filters).bad_messages == old(filters).bad_messages
            &&& final(filters).allowlist == old(filters).allowlist
        }),
{
    let ghost step = step_spec(
        *m,
        members_tag@,
        username@,
        *users,
        strings_view(old(filters).bad_exact_usernames@),
        strings_view(old(filters).bad_usernames@),
        strings_view(old(filters).bad_messages@),
        strings_view(old(filters).allowlist@),
    );
    let mut acts: Vec<PostType> = Vec::new();
    let extracted = crate::styled::get_message(&m.text, members_tag);
    match extracted {
        None => {
            proof {
                assert(posts_view(acts@) =~= step.0);
                assert(strings_view(filters.bad_usernames@) + Seq::<Seq<char>>::empty()
                    =~= strings_view(filters.bad_usernames@));
            }
            (acts, false)
        },
        Some((from, to_opt, msg)) => {
            let ghost tov: Option<Seq<char>> = match to_opt {
                Some(ref t) => Some(t@),
                None => None,
            };
            proof {
                assert(crate::styled::get_message_spec(m.text, members_tag@) == Some(
                    (from@, tov, msg@),
                ));
            }
            let ghost c = cmd_spec(
                *m,
                from@,
                tov,
                msg@,
                members_tag@,
                username@,
                *users,
                strings_view(old(filters).allowlist@),
            );
            let mut mention = String::from_str("@");
            mention.append(username);
            proof {
                assert("@"@ =~= seq!['@']) by {
                    reveal_strlit("@");
                }
                assert(mention@ =~= seq!['@'] + username@);
            }
            let mut notify = contains_str(msg.as_str(), mention.as_str());
            let directed = match &to_opt {
                Some(t) => str_eq(t.as_str(), username),
                None => false,
            };
            proof {
                assert(directed == (tov == Some(username@)));
            }
            if directed && !str_eq(msg.as_str(), "!up") {
                notify = true;
            }
            proof {
                assert(notify == notify_spec(msg@, tov, username@));
            }
            let has_permission = roster_contains(&users.members, from.as_str())
                || roster_contains(&users.staff, from.as_str()) || roster_contains(
                &users.admin,
                from.as_str(),
            ) || matches_exact(&filters.allowlist, from.as_str());
            proof {
                assert(has_permission == permitted_spec(
                    from@,
                    *users,
                    strings_view(old(filters).allowlist@),
                ));
            }
            let full_text = m.text.text();
            let via_members = starts_with(full_text.as_str(), members_tag);
            let ghost bans_before = strings_view(filters.bad_usernames@);
            let is_kick_cmd = starts_with(msg.as_str(), "#kick ");
            let is_ban_cmd = starts_with(msg.as_str(), "#ban ");
            if is_kick_cmd || is_ban_cmd {
                if has_permission && (directed || via_members) {
                    if is_kick_cmd {
                        let target = crate::strutil::remove_prefix(msg.as_str(), "#kick ");
                        let user = clean_target(target);
                        let ghost userv = strip_ats_spec(
                            trim_spec(msg@.skip("#kick "@.len() as int)),
                        );
                        proof {
                            assert(user@ == userv);
                        }
                        if !user.as_str().is_empty() {
                            acts.push(PostType::Kick(String::new(), user));
                            proof {
                                assert(posts_view(acts@) =~= seq![
                                    PostView::Kick(Seq::<char>::empty(), userv),
                                ]);
                            }
                        }
                    } else {
                        let target = crate::strutil::remove_prefix(msg.as_str(), "#ban ");
                        let user = clean_target(target);
                        let ghost userv = strip_ats_spec(
                            trim_spec(msg@.skip("#ban "@.len() as int)),
                        );
                        proof {
                            assert(user@ == userv);
                        }
                        if !user.as_str().is_empty() {
                            acts.push(PostType::Kick(String::new(), user.clone()));
                            filters.bad_usernames.push(user);
                            proof {
                                assert(posts_view(acts@) =~= seq![
                                    PostView::Kick(Seq::<char>::empty(), userv),
                                ]);
                                assert(strings_view(filters.bad_usernames@) =~= bans_before + seq![
                                    userv,
                                ]);
                            }
                        }
                    }
                } else if directed && !has_permission {
                    acts.push(
                        PostType::Post(
                            String::from_str("You don't have permission to do that."),
                            Some(from.clone()),
                        ),
                    );
                    proof {
                        assert(posts_view(acts@) =~= seq![
                            PostView::Post(
                                "You don't have permission to do that."@,
                                Some(from@),
                            ),
                        ]);
                    }
                }
            }
            proof {
                assert(posts_view(acts@) =~= c.0);
                assert(strings_view(filters.bad_usernames@) =~= bans_before + c.1);
            }
            let ghost cmd_acts = posts_view(acts@);
            let ghost sc = scoring_spec(
                from@,
                tov,
                msg@,
                username@,
                *users,
                strings_view(old(filters).bad_exact_usernames@),
                bans_before + c.1,
                strings_view(old(filters).bad_messages@),
            );
            let ghost bans_mid = strings_view(filters.bad_usernames@);
            let ghost acts_mid = acts@;
            let is_guest = roster_contains(&users.guests, from.as_str());
            if !str_eq(from.as_str(), username) && is_guest {
                let bad_name = matches_substring(&filters.bad_usernames, from.as_str());
                let bad_name_exact = matches_exact(&filters.bad_exact_usernames, from.as_str());
                let bad_msg = matches_substring(&filters.bad_messages, msg.as_str());
                if bad_name_exact || bad_name || bad_msg {
                    acts.push(PostType::Kick(String::new(), from.clone()));
                    proof {
                        assert(posts_view(acts@) =~= posts_view(acts_mid) + seq![
                            PostView::Kick(Seq::<char>::empty(), from@),
                        ]);
                    }
                } else {
                    let res = score_message(msg.as_str());
                    match action_from_score(res.score) {
                        None => {},
                        Some(Action::Warn) => {
                            match &to_opt {
                                None => {
                                    let warn = build_warn(username, from.as_str(), res.reason);
                                    acts.push(PostType::Post(warn, Some(String::from_str("0"))));
                                    proof {
                                        assert(posts_view(acts@) =~= posts_view(acts_mid) + seq![
                                            PostView::Post(
                                                warn_text_spec(
                                                    username@,
                                                    from@,
                                                    spec_reason(lower_of(msg@)),
                                                ),
                                                Some("0"@),
                                            ),
                                        ]);
                                    }
                                },
                                Some(_) => {},
                            }
                        },
                        Some(Action::Kick) => {
                            acts.push(PostType::Kick(String::new(), from.clone()));
                            proof {
                                assert(posts_view(acts@) =~= posts_view(acts_mid) + seq![
                                    PostView::Kick(Seq::<char>::empty(), from@),
                                ]);
                            }
                        },
                        Some(Action::Ban) => {
                            acts.push(PostType::Kick(String::new(), from.clone()));
                            filters.bad_usernames.push(from.clone());
                            proof {
                                assert(posts_view(acts@) =~= posts_view(acts_mid) + seq![
                                    PostView::Kick(Seq::<char>::empty(), from@),
                                ]);
                                assert(strings_view(filters.bad_usernames@) =~= bans_mid + seq![
                                    from@,
                                ]);
                            }
                        },
                    }
                }
            }
            proof {
                assert(posts_view(acts@) =~= cmd_acts + sc.0);
                assert(strings_view(filters.bad_usernames@) =~= bans_mid + sc.1);
                assert(posts_view(acts@) =~= step.0);
                assert(strings_view(filters.bad_usernames@) =~= bans_before + step.1);
            }
            (acts, notify)
        },
    }
}

/// What moderating a whole snapshot yields, message by message in order,
/// each message checked against the filters as already extended by the
/// earlier ones.
pub open spec fn run_spec(
    new: Seq<Message>,
    first: Message,
    tag: Seq<char>,
    me: Seq<char>,
    users: Users,
    exact: Seq<Seq<char>>,
    subs: Seq<Seq<char>>,
    badmsgs: Seq<Seq<char>>,
    allow: Seq<Seq<char>>,
) -> (Seq<PostView>, Seq<Seq<char>>, bool)
    decreases new.len(),
{
    if new.len() == 0 {
        (Seq::<PostView>::empty(), Seq::<Seq<char>>::empty(), false)
    } else {
        let head: (Seq<PostView>, Seq<Seq<char>>, bool) = if relevant(new[0], first) {
            step_spec(new[0], tag, me, users, exact, subs, badmsgs, allow)
        } else {
            (Seq::<PostView>::empty(), Seq::<Seq<char>>::empty(), false)
        };
        let rest = run_spec(
            new.drop_first(),
            first,
            tag,
            me,
            users,
            exact,
            subs + head.1,
            badmsgs,
            allow,
        );
        (head.0 + rest.0, head.1 + rest.1, head.2 || rest.2)
    }
}

/// Moderate the new snapshot against the known history: each snapshot
/// message at least as recent as the newest known message (and not
/// identical to it) runs through the engine in order; with no history yet,
/// nothing is moderated. Returns the actions to emit and whether the
/// operator is notified; bans extend the username filters.
pub fn process_new_messages(
    new_messages: &Vec<Message>,
    messages: &Vec<Message>,
    members_tag: &str,
    username: &str,
    users: &Users,
    filters: &mut FilterSet,
) -> (r: (Vec<PostType>, bool))
    ensures
        final(filters).bad_exact_usernames == old(filters).bad_exact_usernames,
        final(filters).bad_messages == old(filters).bad_messages,
        final(filters).allowlist == old(filters).allowlist,
        messages@.len() == 0 ==> r.0@.len() == 0 && r.1 == false && *final(filters) == *old(
            filters,
        ),
        messages@.len() > 0 ==> ({
            let full = run_spec(
                new_messages@,
                messages@[0],
                members_tag@,
                username@,
                *users,
                strings_view(old(filters).bad_exact_usernames@),
                strings_view(old(filters).bad_usernames@),
                strings_view(old(filters).bad_messages@),
                strings_view(old(filters).allowlist@),
            );
            &&& posts_view(r.0@) == full.0
            &&& strings_view(final(filters).bad_usernames@) == strings_view(
                old(filters).bad_usernames@,
            ) + full.1
            &&& r.1 == full.2
        }),
{
    let mut acts: Vec<PostType> = Vec::new();
    let mut notify = false;
    if messages.len() == 0 {
        return (acts, notify);
    }
    let first = &messages[0];
    let first_ts = crate::message::parse_timestamp(first.date.as_str());
    let ghost subs0 = strings_view(old(filters).bad_usernames@);
    let ghost full = run_spec(
        new_messages@,
        messages@[0],
        members_tag@,
        username@,
        *users,
        strings_view(old(filters).bad_exact_usernames@),
        subs0,
        strings_view(old(filters).bad_messages@),
        strings_view(old(filters).allowlist@),
    );
    let n: usize = new_messages.len();
    let mut i: usize = 0;
    proof {
        assert(new_messages@.skip(0) =~= new_messages@);
        assert(strings_view(filters.bad_usernames@).skip(subs0.len() as int) =~= Seq::<
            Seq<char>,
        >::empty());
        assert(subs0 + Seq::<Seq<char>>::empty() =~= subs0);
    }
    while i < n
        invariant
            0 <= i <= n,
            n == new_messages@.len(),
            messages@.len() > 0,
            first_ts == ts_of(messages@[0]),
            filters.bad_exact_usernames == old(filters).bad_exact_usernames,
            filters.bad_messages == old(filters).bad_messages,
            filters.allowlist == old(filters).allowlist,
            subs0 == strings_view(old(filters).bad_usernames@),
            full == run_spec(
                new_messages@,
                messages@[0],
                members_tag@,
                username@,
                *users,
                strings_view(old(filters).bad_exact_usernames@),
                subs0,
                strings_view(old(filters).bad_messages@),
                strings_view(old(filters).allowlist@),
            ),
            strings_view(filters.bad_usernames@) == subs0 + strings_view(
                filters.bad_usernames@,
            ).skip(subs0.len() as int),
            ({
                let done = strings_view(filters.bad_usernames@).skip(subs0.len() as int);
                let rest = run_spec(
                    new_messages@.skip(i as int),
                    messages@[0],
                    members_tag@,
                    username@,
                    *users,
                    strings_view(old(filters).bad_exact_usernames@),
                    strings_view(filters.bad_usernames@),
                    strings_view(old(filters).bad_messages@),
                    strings_view(old(filters).allowlist@),
                );
                &&& full.0 == posts_view(acts@) + rest.0
                &&& full.1 == done + rest.1
                &&& full.2 == (notify || rest.2)
            }),
        decreases n - i,
    {
        let ghost acts_pre = acts@;
        let ghost subs_pre = strings_view(filters.bad_usernames@);
        let ghost done_pre = subs_pre.skip(subs0.len() as int);
        proof {
            assert(new_messages@.skip(i as int)[0] == new_messages@[i as int]);
            assert(new_messages@.skip(i as int).drop_first() =~= new_messages@.skip(i + 1));
        }
        let m = &new_messages[i];
        let m_ts = crate::message::parse_timestamp(m.date.as_str());
        let is_relevant = first_ts <= m_ts && !(str_eq(m.date.as_str(), messages[0].date.as_str())
            && crate::styled::st_text_eq(&m.text, &messages[0].text));
        let ghost head: (Seq<PostView>, Seq<Seq<char>>, bool) = if relevant(
            new_messages@[i as int],
            messages@[0],
        ) {
            step_spec(
                new_messages@[i as int],
                members_tag@,
                username@,
                *users,
                strings_view(old(filters).bad_exact_usernames@),
                subs_pre,
                strings_view(old(filters).bad_messages@),
                strings_view(old(filters).allowlist@),
            )
        } else {
            (Seq::<PostView>::empty(), Seq::<Seq<char>>::empty(), false)
        };
        proof {
            assert(is_relevant == relevant(new_messages@[i as int], messages@[0]));
        }
        if is_relevant {
            let (mut step_acts, step_notify) = moderate_message(
                m,
                members_tag,
                username,
                users,
                filters,
            );
            proof {
                assert(posts_view(step_acts@) == head.0);
                assert(strings_view(filters.bad_usernames@) == subs_pre + head.1);
            }
            acts.append(&mut step_acts);
            if step_notify {
                notify = true;
            }
            proof {
                assert(posts_view(acts@) =~= posts_view(acts_pre) + head.0);
            }
        } else {
            proof {
                assert(strings_view(filters.bad_usernames@) =~= subs_pre + head.1);
                assert(posts_view(acts@) =~= posts_view(acts_pre) + head.0);
            }
        }
        proof {
            let subs_now = strings_view(filters.bad_usernames@);
            assert(subs_now == subs_pre + head.1);
            let rest_pre = run_spec(
                new_messages@.skip(i as int),
                messages@[0],
                members_tag@,
                username@,
                *users,
                strings_view(old(filters).bad_exact_usernames@),
                subs_pre,
                strings_view(old(filters).bad_messages@),
                strings_view(old(filters).allowlist@),
            );
            let rest_next = run_spec(
                new_messages@.skip(i + 1),
                messages@[0],
                members_tag@,
                username@,
                *users,
                strings_view(old(filters).bad_exact_usernames@),
                subs_now,
                strings_view(old(filters).bad_messages@),
                strings_view(old(filters).allowlist@),
            );
            // One unfolding of the run at the head message.
            assert(rest_pre.0 == head.0 + rest_next.0 && rest_pre.1 == head.1 + rest_next.1
                && rest_pre.2 == (head.2 || rest_next.2));
            assert(full.0 =~= posts_view(acts@) + rest_next.0);
            let done_now = subs_now.skip(subs0.len() as int);
            assert(done_now =~= done_pre + head.1);
            assert(full.1 =~= done_now + rest_next.1);
            assert(subs_now =~= subs0 + done_now);
        }
        i = i + 1;
    }
    proof {
        assert(new_messages@.skip(n as int).len() == 0);
        assert(posts_view(acts@) + Seq::<PostView>::empty() =~= posts_view(acts@));
        assert(strings_view(filters.bad_usernames@).skip(subs0.len() as int) + Seq::<
            Seq<char>,
        >::empty() =~= strings_view(filters.bad_usernames@).skip(subs0.len() as int));
    }
    (acts, notify)
}

} // verus!
