//! The filter lists: username-substring bans, exact-username bans,
//! message-substring bans and the allowlist, with the ban sweeps over the
//! guest roster.

use vstd::prelude::*;
use crate::strutil::{
    contains_seq, contains_chars, chars_vec, lowercase, lower_of, str_eq, strings_view,
};
use crate::styled::Color;
use crate::message::{Users, roster_has};
use crate::dispatch::{PostType, PostView, posts_view};

verus! {

/// The four independently mutable lists of the moderation policy.
#[derive(Debug, PartialEq)]
pub struct FilterSet {
    /// Substrings that ban a username (compared lower-cased).
    pub bad_usernames: Vec<String>,
    /// Exact usernames that are banned.
    pub bad_exact_usernames: Vec<String>,
    /// Substrings that ban a message (compared lower-cased).
    pub bad_messages: Vec<String>,
    /// Guest names granted elevated moderation privileges.
    pub allowlist: Vec<String>,
}

impl FilterSet {
    /// Empty filter lists.
    pub fn new() -> (r: FilterSet)
        ensures
            r.bad_usernames@.len() == 0,
            r.bad_exact_usernames@.len() == 0,
            r.bad_messages@.len() == 0,
            r.allowlist@.len() == 0,
    {
        FilterSet {
            bad_usernames: Vec::new(),
            bad_exact_usernames: Vec::new(),
            bad_messages: Vec::new(),
            allowlist: Vec::new(),
        }
    }
}

/// A list holds exactly this entry.
pub open spec fn has_exact(filters: Seq<Seq<char>>, name: Seq<char>) -> bool {
    exists|i: int| 0 <= i < filters.len() && filters[i] == name
}

/// Some entry of the list occurs, lower-cased, inside the lower-cased
/// name.
pub open spec fn has_substring(filters: Seq<Seq<char>>, name: Seq<char>) -> bool {
    exists|i: int| 0 <= i < filters.len() && contains_seq(lower_of(name), lower_of(filters[i]))
}

/// A name is banned when an exact entry equals it or a substring entry
/// occurs in it.
pub open spec fn banned_name(exact: Seq<Seq<char>>, subs: Seq<Seq<char>>, name: Seq<char>) -> bool {
    has_exact(exact, name) || has_substring(subs, name)
}

/// Whether the list holds exactly this entry.
pub fn matches_exact(filters: &Vec<String>, name: &str) -> (r: bool)
    ensures
        r == has_exact(strings_view(filters@), name@),
{
    let n: usize = filters.len();
    let mut i: usize = 0;
    while i < n
        invariant
            0 <= i <= n,
            n == filters@.len(),
            forall|j: int| 0 <= j < i ==> strings_view(filters@)[j] != name@,
        decreases n - i,
    {
        if str_eq(filters[i].as_str(), name) {
            proof {
                assert(strings_view(filters@)[i as int] == name@);
            }
            return true;
        }
        proof {
            assert(strings_view(filters@)[i as int] == filters@[i as int]@);
        }
        i = i + 1;
    }
    false
}

/// Whether some entry of the list occurs, lower-cased, inside the
/// lower-cased name.
pub fn matches_substring(filters: &Vec<String>, name: &str) -> (r: bool)
    ensures
        r == has_substring(strings_view(filters@), name@),
{
    let lname = lowercase(name);
    let lchars = chars_vec(lname.as_str());
    let n: usize = filters.len();
    let mut i: usize = 0;
    while i < n
        invariant
            0 <= i <= n,
            n == filters@.len(),
            lchars@ == lower_of(name@),
            forall|j: int|
                0 <= j < i ==> !contains_seq(lower_of(name@), lower_of(strings_view(filters@)[j])),
        decreases n - i,
    {
        let lf = lowercase(filters[i].as_str());
        let fchars = chars_vec(lf.as_str());
        if contains_chars(&lchars, &fchars) {
            proof {
                assert(strings_view(filters@)[i as int] == filters@[i as int]@);
            }
            return true;
        }
        proof {
            assert(strings_view(filters@)[i as int] == filters@[i as int]@);
        }
        i = i + 1;
    }
    false
}

/// Whether the name is banned by the exact or the substring list.
pub fn name_banned(exact: &Vec<String>, subs: &Vec<String>, name: &str) -> (r: bool)
    ensures
        r == banned_name(strings_view(exact@), strings_view(subs@), name@),
{
    if matches_exact(exact, name) {
        true
    } else {
        matches_substring(subs, name)
    }
}

/// The kicks a sweep over the guest list emits: one kick, with an empty
/// goodbye message, for each guest absent from the previous roster whose
/// name is banned, in roster order.
pub open spec fn guest_kicks_spec(
    guests: Seq<(Color, String)>,
    prev: Seq<(Color, String)>,
    exact: Seq<Seq<char>>,
    subs: Seq<Seq<char>>,
) -> Seq<PostView>
    decreases guests.len(),
{
    if guests.len() == 0 {
        Seq::<PostView>::empty()
    } else {
        (if !roster_has(prev, guests[0].1@) && banned_name(exact, subs, guests[0].1@) {
            seq![PostView::Kick(Seq::<char>::empty(), guests[0].1@)]
        } else {
            Seq::<PostView>::empty()
        }) + guest_kicks_spec(guests.drop_first(), prev, exact, subs)
    }
}

/// New-guest ban sweep: kick each guest present now, absent from the
/// previous roster, whose name matches an exact ban or a substring ban.
pub fn new_guest_kicks(
    guests: &Vec<(Color, String)>,
    prev: &Vec<(Color, String)>,
    exact: &Vec<String>,
    subs: &Vec<String>,
) -> (r: Vec<PostType>)
    ensures
        posts_view(r@) == guest_kicks_spec(guests@, prev@, strings_view(exact@), strings_view(subs@)),
{
    let mut out: Vec<PostType> = Vec::new();
    let n: usize = guests.len();
    let mut i: usize = 0;
    let ghost se = strings_view(exact@);
    let ghost ss = strings_view(subs@);
    proof {
        assert(guests@.skip(0) =~= guests@);
        assert(posts_view(out@) + guest_kicks_spec(guests@, prev@, se, ss) =~= guest_kicks_spec(
            guests@,
            prev@,
            se,
            ss,
        ));
    }
    while i < n
        invariant
            0 <= i <= n,
            n == guests@.len(),
            se == strings_view(exact@),
            ss == strings_view(subs@),
            guest_kicks_spec(guests@, prev@, se, ss) == posts_view(out@) + guest_kicks_spec(
                guests@.skip(i as int),
                prev@,
                se,
                ss,
            ),
        decreases n - i,
    {
        let ghost pre = out@;
        proof {
            assert(guests@.skip(i as int)[0] == guests@[i as int]);
            assert(guests@.skip(i as int).drop_first() =~= guests@.skip(i + 1));
        }
        let name = &guests[i].1;
        let is_new = !crate::message::roster_contains(prev, name.as_str());
        if is_new && name_banned(exact, subs, name.as_str()) {
            out.push(PostType::Kick(String::new(), name.clone()));
            proof {
                assert(posts_view(out@) =~= posts_view(pre) + seq![
                    PostView::Kick(Seq::<char>::empty(), guests@[i as int].1@),
                ]);
                assert(posts_view(pre) + (seq![
                    PostView::Kick(Seq::<char>::empty(), guests@[i as int].1@),
                ] + guest_kicks_spec(guests@.skip(i + 1), prev@, se, ss)) =~= posts_view(out@)
                    + guest_kicks_spec(guests@.skip(i + 1), prev@, se, ss));
            }
        } else {
            proof {
                assert(Seq::<PostView>::empty() + guest_kicks_spec(
                    guests@.skip(i + 1),
                    prev@,
                    se,
                    ss,
                ) =~= guest_kicks_spec(guests@.skip(i + 1), prev@, se, ss));
            }
        }
        i = i + 1;
    }
    proof {
        assert(guests@.skip(n as int).len() == 0);
        assert(posts_view(out@) + Seq::<PostView>::empty() =~= posts_view(out@));
    }
    out
}

/// Ban sweep over the whole current guest list: kick every guest whose
/// name matches an exact ban or a substring ban.
pub fn apply_ban_filters(users: &Users, exact: &Vec<String>, subs: &Vec<String>) -> (r: Vec<
    PostType,
>)
    ensures
        posts_view(r@) == guest_kicks_spec(
            users.guests@,
            Seq::<(Color, String)>::empty(),
            strings_view(exact@),
            strings_view(subs@),
        ),
{
    let empty_prev: Vec<(Color, String)> = Vec::new();
    new_guest_kicks(&users.guests, &empty_prev, exact, subs)
}

/// The position of the first entry equal to the term.
pub open spec fn first_pos(v: Seq<Seq<char>>, t: Seq<char>) -> int
    decreases v.len(),
{
    if v.len() == 0 {
        -1
    } else if v[0] == t {
        0
    } else {
        let p = first_pos(v.drop_first(), t);
        if p < 0 {
            -1
        } else {
            p + 1
        }
    }
}

/// The index of the first entry equal to the term, if any.
pub fn position_of(v: &Vec<String>, term: &str) -> (r: Option<usize>)
    ensures
        match r {
            Some(p) => p as int == first_pos(strings_view(v@), term@) && p < v@.len(),
            None => first_pos(strings_view(v@), term@) < 0,
        },
{
    let ghost sv = strings_view(v@);
    let n: usize = v.len();
    let mut i: usize = 0;
    proof {
        assert(sv.skip(0) =~= sv);
    }
    while i < n
        invariant
            0 <= i <= n,
            n == v@.len(),
            sv == strings_view(v@),
            sv.len() == n,
            first_pos(sv, term@) == (if first_pos(sv.skip(i as int), term@) >= 0 {
                first_pos(sv.skip(i as int), term@) + i
            } else {
                -1
            }),
        decreases n - i,
    {
        proof {
            assert(sv.skip(i as int)[0] == sv[i as int]);
            assert(sv[i as int] == v@[i as int]@);
            assert(sv.skip(i as int).drop_first() =~= sv.skip(i + 1));
        }
        if str_eq(v[i].as_str(), term) {
            return Some(i);
        }
        i = i + 1;
    }
    proof {
        assert(sv.skip(n as int).len() == 0);
    }
    None
}

/// Remove a filter entry: among the username lists (substring first, then
/// exact) or among the message filters; the first occurrence goes, and
/// the result says whether anything was removed.
pub fn remove_filter(filters: &mut FilterSet, term: &str, usernames: bool) -> (r: bool)
    ensures
        final(filters).allowlist == old(filters).allowlist,
        usernames ==> final(filters).bad_messages == old(filters).bad_messages,
        !usernames ==> {
            &&& final(filters).bad_usernames == old(filters).bad_usernames
            &&& final(filters).bad_exact_usernames == old(filters).bad_exact_usernames
            &&& {
                let p = first_pos(strings_view(old(filters).bad_messages@), term@);
                if p >= 0 {
                    r && strings_view(final(filters).bad_messages@) == strings_view(
                        old(filters).bad_messages@,
                    ).remove(p)
                } else {
                    !r && final(filters).bad_messages == old(filters).bad_messages
                }
            }
        },
        usernames ==> {
            let pu = first_pos(strings_view(old(filters).bad_usernames@), term@);
            let pe = first_pos(strings_view(old(filters).bad_exact_usernames@), term@);
            if pu >= 0 {
                &&& r
                &&& strings_view(final(filters).bad_usernames@) == strings_view(
                    old(filters).bad_usernames@,
                ).remove(pu)
                &&& final(filters).bad_exact_usernames == old(filters).bad_exact_usernames
            } else if pe >= 0 {
                &&& r
                &&& final(filters).bad_usernames == old(filters).bad_usernames
                &&& strings_view(final(filters).bad_exact_usernames@) == strings_view(
                    old(filters).bad_exact_usernames@,
                ).remove(pe)
            } else {
                &&& !r
                &&& final(filters).bad_usernames == old(filters).bad_usernames
                &&& final(filters).bad_exact_usernames == old(filters).bad_exact_usernames
            }
        },
{
    if usernames {
        match position_of(&filters.bad_usernames, term) {
            Some(pos) => {
                filters.bad_usernames.remove(pos);
                proof {
                    assert(strings_view(filters.bad_usernames@) =~= strings_view(
                        old(filters).bad_usernames@,
                    ).remove(pos as int));
                }
                true
            },
            None => {
                match position_of(&filters.bad_exact_usernames, term) {
                    Some(pos) => {
                        filters.bad_exact_usernames.remove(pos);
                        proof {
                            assert(strings_view(filters.bad_exact_usernames@) =~= strings_view(
                                old(filters).bad_exact_usernames@,
                            ).remove(pos as int));
                        }
                        true
                    },
                    None => false,
                }
            },
        }
    } else {
        match position_of(&filters.bad_messages, term) {
            Some(pos) => {
                filters.bad_messages.remove(pos);
                proof {
                    assert(strings_view(filters.bad_messages@) =~= strings_view(
                        old(filters).bad_messages@,
                    ).remove(pos as int));
                }
                true
            },
            None => false,
        }
    }
}

/// The entries joined by a comma and a space.
pub open spec fn join_comma_spec(v: Seq<Seq<char>>) -> Seq<char>
    decreases v.len(),
{
    if v.len() == 0 {
        Seq::<char>::empty()
    } else if v.len() == 1 {
        v[0]
    } else {
        v[0] + ", "@ + join_comma_spec(v.drop_first())
    }
}

fn join_from(v: &Vec<String>, i: usize) -> (r: String)
    requires
        i <= v@.len(),
    ensures
        r@ == join_comma_spec(strings_view(v@).skip(i as int)),
    decreases v@.len() - i,
{
    let ghost sv = strings_view(v@);
    if i == v.len() {
        proof {
            assert(sv.skip(i as int).len() == 0);
        }
        String::new()
    } else if i + 1 == v.len() {
        proof {
            assert(sv.skip(i as int).len() == 1);
            assert(sv.skip(i as int)[0] == sv[i as int]);
            assert(sv[i as int] == v@[i as int]@);
        }
        v[i].clone()
    } else {
        proof {
            assert(sv.skip(i as int)[0] == sv[i as int]);
            assert(sv[i as int] == v@[i as int]@);
            assert(sv.skip(i as int).drop_first() =~= sv.skip(i + 1));
        }
        let mut s = v[i].clone();
        s.append(", ");
        let rest = join_from(v, i + 1);
        s.append(rest.as_str());
        s
    }
}

/// What listing a filter list prints: its entries joined, or a
/// placeholder when it is empty.
pub open spec fn list_text_spec(v: Seq<Seq<char>>) -> Seq<char> {
    if v.len() == 0 {
        "(empty)"@
    } else {
        join_comma_spec(v)
    }
}

/// List one filter list: the usernames or the message filters, joined by
/// commas, or a placeholder when empty.
pub fn list_filters(filters: &FilterSet, usernames: bool) -> (r: String)
    ensures
        usernames ==> r@ == list_text_spec(strings_view(filters.bad_usernames@)),
        !usernames ==> r@ == list_text_spec(strings_view(filters.bad_messages@)),
{
    let list = if usernames {
        &filters.bad_usernames
    } else {
        &filters.bad_messages
    };
    if list.len() == 0 {
        String::from_str("(empty)")
    } else {
        proof {
            assert(strings_view(list@).skip(0) =~= strings_view(list@));
        }
        join_from(list, 0)
    }
}

/// List the allow-listed guests, joined by commas, or a placeholder when
/// empty.
pub fn list_allowlist(filters: &FilterSet) -> (r: String)
    ensures
        r@ == list_text_spec(strings_view(filters.allowlist@)),
{
    if filters.allowlist.len() == 0 {
        String::from_str("(empty)")
    } else {
        proof {
            assert(strings_view(filters.allowlist@).skip(0) =~= strings_view(filters.allowlist@));
        }
        join_from(&filters.allowlist, 0)
    }
}

/// List the exact-username bans, joined by commas, or a placeholder when
/// empty.
pub fn list_exact_filters(filters: &FilterSet) -> (r: String)
    ensures
        r@ == list_text_spec(strings_view(filters.bad_exact_usernames@)),
{
    if filters.bad_exact_usernames.len() == 0 {
        String::from_str("(empty)")
    } else {
        proof {
            assert(strings_view(filters.bad_exact_usernames@).skip(0) =~= strings_view(
                filters.bad_exact_usernames@,
            ));
        }
        join_from(&filters.bad_exact_usernames, 0)
    }
}

} // verus!
