//! The message data model: a chat message with its site-local timestamp,
//! the timestamp ordering key, and the user roster.

use vstd::prelude::*;
use crate::styled::{Color, StyledText};
use crate::strutil::chars_vec;

verus! {

/// Whether a message was produced by a user or by the system.
#[derive(Debug, PartialEq, Eq, Clone, Copy, Structural)]
pub enum MessageType {
    UserMsg,
    SysMsg,
}

/// A chat message. `deleted` marks tombstoned history (no longer present
/// upstream); `hide` is a local-only visibility toggle. Identity for
/// reconciliation is the pair (timestamp, content).
#[derive(Debug, PartialEq)]
pub struct Message {
    pub id: Option<usize>,
    pub typ: MessageType,
    pub date: String,
    pub upload_link: Option<String>,
    pub text: StyledText,
    pub deleted: bool,
    pub hide: bool,
}

impl Message {
    /// A fresh message: not deleted, not hidden.
    pub fn new(
        id: Option<usize>,
        typ: MessageType,
        date: String,
        upload_link: Option<String>,
        text: StyledText,
    ) -> (r: Message)
        ensures
            r == (Message { id, typ, date, upload_link, text, deleted: false, hide: false }),
    {
        Message { id, typ, date, upload_link, text, deleted: false, hide: false }
    }
}

/// A decimal digit.
pub open spec fn is_digit(c: char) -> bool {
    '0' <= c && c <= '9'
}

/// The value of a decimal digit.
pub open spec fn digit_val(c: char) -> int {
    c as int - '0' as int
}

/// A timestamp in the site-local `month-day hour:minute:second` shape:
/// fourteen characters, two digits per field, with the documented
/// separators and each field in range.
pub open spec fn valid_timestamp(s: Seq<char>) -> bool {
    &&& s.len() == 14
    &&& is_digit(s[0]) && is_digit(s[1]) && s[2] == '-'
    &&& is_digit(s[3]) && is_digit(s[4]) && s[5] == ' '
    &&& is_digit(s[6]) && is_digit(s[7]) && s[8] == ':'
    &&& is_digit(s[9]) && is_digit(s[10]) && s[11] == ':'
    &&& is_digit(s[12]) && is_digit(s[13])
    &&& 1 <= digit_val(s[0]) * 10 + digit_val(s[1]) <= 12
    &&& 1 <= digit_val(s[3]) * 10 + digit_val(s[4]) <= 31
    &&& digit_val(s[6]) * 10 + digit_val(s[7]) <= 23
    &&& digit_val(s[9]) * 10 + digit_val(s[10]) <= 59
    &&& digit_val(s[12]) * 10 + digit_val(s[13]) <= 59
}

/// The ordering key of a valid timestamp: seconds counted over a uniform
/// calendar, strictly monotone in (month, day, hour, minute, second). The
/// year is assumed current, a documented simplification. An invalid
/// timestamp keys as zero, which orders it before every valid one.
pub open spec fn ts_key_spec(s: Seq<char>) -> int {
    if valid_timestamp(s) {
        let mo = digit_val(s[0]) * 10 + digit_val(s[1]);
        let da = digit_val(s[3]) * 10 + digit_val(s[4]);
        let ho = digit_val(s[6]) * 10 + digit_val(s[7]);
        let mi = digit_val(s[9]) * 10 + digit_val(s[10]);
        let se = digit_val(s[12]) * 10 + digit_val(s[13]);
        (((mo * 32 + da) * 24 + ho) * 60 + mi) * 60 + se
    } else {
        0
    }
}

/// The ordering key of a message.
pub open spec fn ts_of(m: Message) -> int {
    ts_key_spec(m.date@)
}

fn digit(c: char) -> (r: Option<u64>)
    ensures
        r == (if is_digit(c) {
            Some(digit_val(c) as u64)
        } else {
            None::<u64>
        }),
{
    if '0' <= c && c <= '9' {
        Some((c as u32 as u64) - ('0' as u32 as u64))
    } else {
        None
    }
}

/// Parse a timestamp into its ordering key; an unparseable or
/// out-of-range timestamp keys as zero.
pub fn parse_timestamp(date: &str) -> (r: u64)
    ensures
        r == ts_key_spec(date@),
{
    let cs = chars_vec(date);
    if cs.len() != 14 {
        return 0;
    }
    if !(cs[2] == '-' && cs[5] == ' ' && cs[8] == ':' && cs[11] == ':') {
        return 0;
    }
    let d0 = digit(cs[0]);
    let d1 = digit(cs[1]);
    let d3 = digit(cs[3]);
    let d4 = digit(cs[4]);
    let d6 = digit(cs[6]);
    let d7 = digit(cs[7]);
    let d9 = digit(cs[9]);
    let d10 = digit(cs[10]);
    let d12 = digit(cs[12]);
    let d13 = digit(cs[13]);
    match (d0, d1, d3, d4, d6, d7, d9, d10, d12, d13) {
        (
            Some(m1),
            Some(m2),
            Some(a1),
            Some(a2),
            Some(h1),
            Some(h2),
            Some(i1),
            Some(i2),
            Some(s1),
            Some(s2),
        ) => {
            let mo = m1 * 10 + m2;
            let da = a1 * 10 + a2;
            let ho = h1 * 10 + h2;
            let mi = i1 * 10 + i2;
            let se = s1 * 10 + s2;
            if 1 <= mo && mo <= 12 && 1 <= da && da <= 31 && ho <= 23 && mi <= 59 && se <= 59 {
                (((mo * 32 + da) * 24 + ho) * 60 + mi) * 60 + se
            } else {
                0
            }
        },
        _ => 0,
    }
}

/// The four disjoint role lists of the roster, each a sequence of
/// (color, display name), replaced wholesale each poll cycle.
#[derive(Debug, PartialEq)]
pub struct Users {
    pub admin: Vec<(Color, String)>,
    pub staff: Vec<(Color, String)>,
    pub members: Vec<(Color, String)>,
    pub guests: Vec<(Color, String)>,
}

impl Default for Users {
    /// An empty roster.
    fn default() -> (r: Users)
        ensures
            r.admin@.len() == 0 && r.staff@.len() == 0 && r.members@.len() == 0 && r.guests@.len()
                == 0,
    {
        Users { admin: Vec::new(), staff: Vec::new(), members: Vec::new(), guests: Vec::new() }
    }
}

/// The names of a role list, in order.
pub open spec fn names_of(v: Seq<(Color, String)>) -> Seq<Seq<char>> {
    v.map_values(|p: (Color, String)| p.1@)
}

/// A name is listed in a role list.
pub open spec fn roster_has(v: Seq<(Color, String)>, name: Seq<char>) -> bool {
    exists|i: int| 0 <= i < v.len() && v[i].1@ == name
}

/// Whether a role list holds the given name.
pub fn roster_contains(v: &Vec<(Color, String)>, name: &str) -> (r: bool)
    ensures
        r == roster_has(v@, name@),
{
    let n: usize = v.len();
    let mut i: usize = 0;
    while i < n
        invariant
            0 <= i <= n,
            n == v@.len(),
            forall|j: int| 0 <= j < i ==> v@[j].1@ != name@,
        decreases n - i,
    {
        if crate::strutil::str_eq(v[i].1.as_str(), name) {
            return true;
        }
        i = i + 1;
    }
    false
}

impl Users {
    /// All users: admins, then staff, then members, then guests.
    pub fn all(&self) -> (r: Vec<(Color, String)>)
        ensures
            names_of(r@) == names_of(self.admin@) + names_of(self.staff@) + names_of(self.members@)
                + names_of(self.guests@),
    {
        let mut out: Vec<(Color, String)> = Vec::new();
        push_all(&mut out, &self.admin);
        push_all(&mut out, &self.staff);
        push_all(&mut out, &self.members);
        push_all(&mut out, &self.guests);
        proof {
            assert(names_of(self.admin@ + self.staff@ + self.members@ + self.guests@) =~= names_of(
                self.admin@,
            ) + names_of(self.staff@) + names_of(self.members@) + names_of(self.guests@));
        }
        out
    }
}

/// The first listed name whose lower-cased form starts with the
/// lower-cased prefix.
pub open spec fn autocomplete_spec(names: Seq<Seq<char>>, prefix: Seq<char>) -> Option<Seq<char>>
    decreases names.len(),
{
    if names.len() == 0 {
        None
    } else if crate::strutil::prefix_of(
        crate::strutil::lower_of(names[0]),
        crate::strutil::lower_of(prefix),
    ) {
        Some(names[0])
    } else {
        autocomplete_spec(names.drop_first(), prefix)
    }
}

/// Autocomplete a username: the first user, over all four role lists in
/// order, whose name starts with the prefix, compared lower-cased.
pub fn autocomplete_username(users: &Users, prefix: &str) -> (r: Option<String>)
    ensures
        (match r {
            Some(s) => Some(s@),
            None => None,
        }) == autocomplete_spec(
            names_of(users.admin@) + names_of(users.staff@) + names_of(users.members@) + names_of(
                users.guests@,
            ),
            prefix@,
        ),
{
    let all = users.all();
    let ghost names = names_of(users.admin@) + names_of(users.staff@) + names_of(users.members@)
        + names_of(users.guests@);
    let lp = crate::strutil::lowercase(prefix);
    let lp_chars = crate::strutil::chars_vec(lp.as_str());
    let n: usize = all.len();
    let mut i: usize = 0;
    proof {
        assert(names.skip(0) =~= names);
        assert(names.len() == n);
    }
    while i < n
        invariant
            0 <= i <= n,
            n == all@.len(),
            names == names_of(all@),
            names == names_of(users.admin@) + names_of(users.staff@) + names_of(users.members@)
                + names_of(users.guests@),
            names.len() == n,
            lp_chars@ == crate::strutil::lower_of(prefix@),
            autocomplete_spec(names, prefix@) == autocomplete_spec(
                names.skip(i as int),
                prefix@,
            ),
        decreases n - i,
    {
        proof {
            assert(names.skip(i as int)[0] == names[i as int]);
            assert(names[i as int] == all@[i as int].1@);
            assert(names.skip(i as int).drop_first() =~= names.skip(i + 1));
        }
        let lname = crate::strutil::lowercase(all[i].1.as_str());
        let ln_chars = crate::strutil::chars_vec(lname.as_str());
        if lp_chars.len() <= ln_chars.len() && crate::strutil::check_match_at(
            &ln_chars,
            &lp_chars,
            0,
        ) {
            return Some(all[i].1.clone());
        }
        i = i + 1;
    }
    proof {
        assert(names.skip(n as int).len() == 0);
    }
    None
}

fn push_all(out: &mut Vec<(Color, String)>, src: &Vec<(Color, String)>)
    ensures
        final(out)@ == old(out)@ + src@,
{
    let n: usize = src.len();
    let mut i: usize = 0;
    while i < n
        invariant
            0 <= i <= n,
            n == src@.len(),
            out@ == old(out)@ + src@.take(i as int),
        decreases n - i,
    {
        let c = src[i].0;
        let s = src[i].1.clone();
        out.push((c, s));
        proof {
            assert(src@[i as int] == (src@[i as int].0, src@[i as int].1));
            assert(out@ =~= old(out)@ + src@.take(i + 1));
        }
        i = i + 1;
    }
    proof {
        assert(old(out)@ + src@.take(n as int) =~= old(out)@ + src@);
    }
}

} // verus!
