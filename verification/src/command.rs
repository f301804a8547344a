//! Operator commands: parsing the slash commands typed at the input box,
//! and the outbound actions and filter-list changes each one performs.

use vstd::prelude::*;
use vstd::string::StrSliceExecFns;
use vstd::string::StringExecFns;
use crate::strutil::{
    prefix_of, starts_with, str_eq, is_space, whitespace_char, chars_vec, string_from_chars,
    subrange_chars, first_ws_from, find_ws, trim_spec, strings_view,
};
use crate::message::{is_digit, digit_val, Users};
use crate::dispatch::{PostType, PostView, posts_view};
use crate::filters::{
    FilterSet, first_pos, has_exact, list_text_spec, guest_kicks_spec, list_filters,
    list_exact_filters, position_of, matches_exact, apply_ban_filters,
};
use crate::styled::Color;

verus! {

/// What the color cycler is told: stop cycling, cycle the color alone, or
/// cycle color and nickname.
#[derive(Debug, Clone, Copy, PartialEq, Eq, Structural)]
pub enum CycleCmd {
    StopCycles,
    ColorOnly,
    Full,
}

/// A parsed operator command.
#[derive(Debug, PartialEq)]
pub enum Command {
    /// Delete the last own message.
    DeleteLastOne,
    /// Delete the last own messages, this many times.
    DeleteLastN(usize),
    /// Delete all own messages.
    DeleteAllCmd,
    /// Stop a running profile cycle.
    Cycles,
    /// Start cycling the profile color.
    Cycle1,
    /// Start cycling the profile color and nickname.
    Cycle2,
    /// Kick everyone.
    KickAll,
    /// A private message: recipient and text.
    Pm(String, String),
    /// Change the nickname.
    NewNick(String),
    /// Change the profile color.
    NewColorCmd(String),
    /// Kick one user, with a goodbye message.
    KickUser(String, String),
    /// Ban a name: as an exact name when it was quoted, else as a
    /// substring.
    BanName(String, bool),
    /// Filter messages holding the term.
    BanMsg(String),
    /// List the banned names.
    BanList,
    /// List the filtered message terms.
    FilterList,
    /// Remove a name ban.
    Unban(String),
    /// Remove a message filter.
    Unfilter(String),
    /// Grant a guest moderation privileges.
    Allow(String),
    /// Revoke a guest's moderation privileges.
    Revoke(String),
    /// List the allow-listed guests.
    AllowList,
    /// Ignore a user.
    IgnoreUser(String),
    /// Stop ignoring a user.
    UnignoreUser(String),
    /// Upload a file: path, recipient scope, message.
    UploadCmd(String, String, String),
    /// Post the standard warning, aimed at the given target text.
    WarnCmd(String),
}

/// The view of a parsed command.
pub enum CommandView {
    DeleteLastOne,
    DeleteLastN(usize),
    DeleteAllCmd,
    Cycles,
    Cycle1,
    Cycle2,
    KickAll,
    Pm(Seq<char>, Seq<char>),
    NewNick(Seq<char>),
    NewColorCmd(Seq<char>),
    KickUser(Seq<char>, Seq<char>),
    BanName(Seq<char>, bool),
    BanMsg(Seq<char>),
    BanList,
    FilterList,
    Unban(Seq<char>),
    Unfilter(Seq<char>),
    Allow(Seq<char>),
    Revoke(Seq<char>),
    AllowList,
    IgnoreUser(Seq<char>),
    UnignoreUser(Seq<char>),
    UploadCmd(Seq<char>, Seq<char>, Seq<char>),
    WarnCmd(Seq<char>),
}

impl View for Command {
    type V = CommandView;

    open spec fn view(&self) -> CommandView {
        match self {
            Command::DeleteLastOne => CommandView::DeleteLastOne,
            Command::DeleteLastN(x) => CommandView::DeleteLastN(*x),
            Command::DeleteAllCmd => CommandView::DeleteAllCmd,
            Command::Cycles => CommandView::Cycles,
            Command::Cycle1 => CommandView::Cycle1,
            Command::Cycle2 => CommandView::Cycle2,
            Command::KickAll => CommandView::KickAll,
            Command::Pm(u, m) => CommandView::Pm(u@, m@),
            Command::NewNick(n) => CommandView::NewNick(n@),
            Command::NewColorCmd(c) => CommandView::NewColorCmd(c@),
            Command::KickUser(u, m) => CommandView::KickUser(u@, m@),
            Command::BanName(n, e) => CommandView::BanName(n@, *e),
            Command::BanMsg(t) => CommandView::BanMsg(t@),
            Command::BanList => CommandView::BanList,
            Command::FilterList => CommandView::FilterList,
            Command::Unban(n) => CommandView::Unban(n@),
            Command::Unfilter(t) => CommandView::Unfilter(t@),
            Command::Allow(u) => CommandView::Allow(u@),
            Command::Revoke(u) => CommandView::Revoke(u@),
            Command::AllowList => CommandView::AllowList,
            Command::IgnoreUser(u) => CommandView::IgnoreUser(u@),
            Command::UnignoreUser(u) => CommandView::UnignoreUser(u@),
            Command::UploadCmd(p, s, m) => CommandView::UploadCmd(p@, s@, m@),
            Command::WarnCmd(t) => CommandView::WarnCmd(t@),
        }
    }
}

/// The view of an optional parsed command.
pub open spec fn opt_cmd_view(r: &Option<Command>) -> Option<CommandView> {
    match r {
        Some(c) => Some(c@),
        None => None,
    }
}

/// The value of a run of decimal digits, read from the left.
pub open spec fn digits_val(s: Seq<char>, n: int) -> int
    decreases n,
{
    if n <= 0 {
        0
    } else if n > s.len() {
        0
    } else {
        digits_val(s, n - 1) * 10 + digit_val(s[n - 1])
    }
}

/// A delete-multiple command: the deletion prefix followed only by
/// digits, at least one.
pub open spec fn dlx_shape(s: Seq<char>) -> bool {
    s.len() > 3 && prefix_of(s, "/dl"@) && (forall|i: int| 3 <= i < s.len() ==> is_digit(
        #[trigger] s[i],
    ))
}

/// The count a delete-multiple command names.
pub open spec fn dlx_val(s: Seq<char>) -> int {
    digits_val(s.skip(3), s.len() - 3)
}

/// The target of the warning command: everything after the `!warn`
/// prefixes, trimmed, and given a leading `@` when it lacks one and is
/// not empty.
pub open spec fn strip_warn_prefixes(s: Seq<char>) -> Seq<char>
    decreases s.len(),
{
    if prefix_of(s, "!warn"@) && "!warn"@.len() > 0 {
        strip_warn_prefixes(s.skip("!warn"@.len() as int))
    } else {
        s
    }
}

/// The warning target after trimming and `@`-prefixing.
pub open spec fn warn_target_spec(s: Seq<char>) -> Seq<char> {
    let t = trim_spec(strip_warn_prefixes(s));
    if t.len() > 0 && t[0] == '@' {
        t
    } else if t.len() == 0 {
        Seq::<char>::empty()
    } else {
        seq!['@'] + t
    }
}

/// A quoted term: it starts and ends with a double quote and has at least
/// the two quotes.
pub open spec fn quoted(s: Seq<char>) -> bool {
    s.len() >= 2 && s[0] == '"' && s[s.len() - 1] == '"'
}

/// The term without its surrounding quotes when it is quoted, unchanged
/// otherwise.
pub open spec fn unquote(s: Seq<char>) -> Seq<char> {
    if quoted(s) {
        s.subrange(1, s.len() - 1)
    } else {
        s
    }
}

/// A kick command body: the target name and the goodbye message after it.
pub open spec fn kick_parts(s: Seq<char>, p: int) -> Option<(Seq<char>, Seq<char>)> {
    let te = first_ws_from(s, p);
    if te > p {
        let user = s.subrange(p, te);
        let msg = if te < s.len() {
            s.skip(te + 1)
        } else {
            Seq::<char>::empty()
        };
        Some((user, msg))
    } else {
        None
    }
}

/// An upload command body, after the path token ending at `te`: the
/// recipient scope named by an `@` token, and the message.
pub open spec fn upload_rest(s: Seq<char>, te: int) -> (Seq<char>, Seq<char>) {
    if te >= s.len() {
        (Seq::<char>::empty(), Seq::<char>::empty())
    } else {
        let q = te + 1;
        if q < s.len() && s[q] == '@' {
            let dt = first_ws_from(s, q + 1);
            if dt > q + 1 && dt < s.len() {
                (s.subrange(q + 1, dt), s.skip(dt + 1))
            } else {
                (Seq::<char>::empty(), s.skip(q))
            }
        } else {
            (Seq::<char>::empty(), s.skip(q))
        }
    }
}

/// The recipient scope an upload destination name stands for.
pub open spec fn upload_scope(dest: Seq<char>) -> Seq<char> {
    if dest == "members"@ {
        "s ?"@
    } else if dest == "staffs"@ {
        "s %"@
    } else if dest == "admins"@ {
        "s _"@
    } else {
        "s *"@
    }
}

/// What an input line parses to, in the order the commands are tried.
pub open spec fn parse_spec(s: Seq<char>) -> Option<CommandView> {
    if s == "/dl"@ {
        Some(CommandView::DeleteLastOne)
    } else if dlx_shape(s) {
        Some(CommandView::DeleteLastN(dlx_val(s) as usize))
    } else if s == "/dall"@ {
        Some(CommandView::DeleteAllCmd)
    } else if s == "/cycles"@ {
        Some(CommandView::Cycles)
    } else if s == "/cycle1"@ {
        Some(CommandView::Cycle1)
    } else if s == "/cycle2"@ {
        Some(CommandView::Cycle2)
    } else if s == "/kall"@ {
        Some(CommandView::KickAll)
    } else if prefix_of(s, "/pm "@) {
        let p = "/pm "@.len() as int;
        let te = first_ws_from(s, p);
        if te > p && te < s.len() && s[te] == ' ' {
            Some(CommandView::Pm(s.subrange(p, te), s.skip(te + 1)))
        } else {
            None
        }
    } else if prefix_of(s, "/nick"@) && s.len() > 5 && is_space(s["/nick"@.len() as int]) {
        Some(CommandView::NewNick(s.skip("/nick"@.len() as int + 1)))
    } else if prefix_of(s, "/color"@) && s.len() > 6 && is_space(s["/color"@.len() as int]) {
        Some(CommandView::NewColorCmd(s.skip("/color"@.len() as int + 1)))
    } else if prefix_of(s, "/kick "@) {
        match kick_parts(s, "/kick "@.len() as int) {
            Some((u, m)) => Some(CommandView::KickUser(u, m)),
            None => None,
        }
    } else if prefix_of(s, "/k "@) {
        match kick_parts(s, "/k "@.len() as int) {
            Some((u, m)) => Some(CommandView::KickUser(u, m)),
            None => None,
        }
    } else if prefix_of(s, "/banname "@) {
        let n = s.skip("/banname "@.len() as int);
        Some(CommandView::BanName(unquote(n), quoted(n)))
    } else if prefix_of(s, "/ban "@) {
        let n = s.skip("/ban "@.len() as int);
        Some(CommandView::BanName(unquote(n), quoted(n)))
    } else if prefix_of(s, "/banmsg "@) {
        Some(CommandView::BanMsg(s.skip("/banmsg "@.len() as int)))
    } else if prefix_of(s, "/filter "@) {
        Some(CommandView::BanMsg(s.skip("/filter "@.len() as int)))
    } else if s == "/banlist"@ {
        Some(CommandView::BanList)
    } else if s == "/filterlist"@ {
        Some(CommandView::FilterList)
    } else if prefix_of(s, "/unban "@) {
        Some(CommandView::Unban(unquote(s.skip("/unban "@.len() as int))))
    } else if prefix_of(s, "/unfilter "@) {
        Some(CommandView::Unfilter(s.skip("/unfilter "@.len() as int)))
    } else if prefix_of(s, "/allow "@) {
        Some(CommandView::Allow(s.skip("/allow "@.len() as int)))
    } else if prefix_of(s, "/revoke "@) {
        Some(CommandView::Revoke(s.skip("/revoke "@.len() as int)))
    } else if s == "/allowlist"@ {
        Some(CommandView::AllowList)
    } else if prefix_of(s, "/ignore "@) {
        let p = "/ignore "@.len() as int;
        let te = first_ws_from(s, p);
        if te > p {
            Some(CommandView::IgnoreUser(s.subrange(p, te)))
        } else {
            None
        }
    } else if prefix_of(s, "/unignore "@) {
        let p = "/unignore "@.len() as int;
        let te = first_ws_from(s, p);
        if te > p {
            Some(CommandView::UnignoreUser(s.subrange(p, te)))
        } else {
            None
        }
    } else if prefix_of(s, "/u"@) && s.len() > 2 && is_space(s[2]) {
        let p = 3;
        let te = first_ws_from(s, p);
        if te > p {
            let path = s.subrange(p, te);
            let rest = upload_rest(s, te);
            Some(CommandView::UploadCmd(path, upload_scope(rest.0), rest.1))
        } else {
            None
        }
    } else if prefix_of(s, "!warn"@) {
        Some(CommandView::WarnCmd(warn_target_spec(s)))
    } else {
        None
    }
}

fn digits_value(v: &Vec<char>, from: usize) -> (r: usize)
    requires
        from <= v@.len(),
        forall|i: int| from <= i < v@.len() ==> is_digit(#[trigger] v@[i]),
        digits_val(v@.skip(from as int), v@.len() - from) <= usize::MAX,
    ensures
        r == digits_val(v@.skip(from as int), v@.len() - from),
{
    let ghost ds = v@.skip(from as int);
    let n: usize = v.len();
    let mut val: usize = 0;
    let mut i: usize = from;
    proof {
        lemma_digits_val_monotone(ds, 0, ds.len() as int);
    }
    while i < n
        invariant
            from <= i <= n,
            n == v@.len(),
            ds == v@.skip(from as int),
            forall|k: int| from <= k < n ==> is_digit(#[trigger] v@[k]),
            digits_val(ds, ds.len() as int) <= usize::MAX,
            val == digits_val(ds, i - from),
        decreases n - i,
    {
        proof {
            lemma_digits_val_monotone(ds, i + 1 - from, ds.len() as int);
            assert(ds[i - from] == v@[i as int]);
            assert(digits_val(ds, i + 1 - from) == digits_val(ds, i - from) * 10 + digit_val(
                v@[i as int],
            ));
        }
        let c = v[i];
        let d: usize = (c as u32 as usize) - ('0' as u32 as usize);
        val = val * 10 + d;
        i = i + 1;
    }
    val
}

/// A digit run's value is never negative.
proof fn lemma_digits_val_nonneg(s: Seq<char>, n: int)
    requires
        forall|i: int| 0 <= i < s.len() ==> is_digit(#[trigger] s[i]),
    ensures
        digits_val(s, n) >= 0,
    decreases n,
{
    if n > 0 {
        lemma_digits_val_nonneg(s, n - 1);
        if n <= s.len() {
            assert(digit_val(s[n - 1]) >= 0);
        }
    }
}

/// Digit runs read left to right never shrink.
proof fn lemma_digits_val_monotone(s: Seq<char>, a: int, b: int)
    requires
        0 <= a <= b <= s.len(),
        forall|i: int| 0 <= i < s.len() ==> is_digit(#[trigger] s[i]),
    ensures
        digits_val(s, a) <= digits_val(s, b),
        digits_val(s, a) >= 0,
    decreases b - a,
{
    lemma_digits_val_nonneg(s, a);
    if a < b {
        lemma_digits_val_monotone(s, a, b - 1);
        lemma_digits_val_nonneg(s, b - 1);
        assert(digits_val(s, b) == digits_val(s, b - 1) * 10 + digit_val(s[b - 1]));
        assert(digit_val(s[b - 1]) >= 0);
        assert(digits_val(s, b - 1) * 10 >= digits_val(s, b - 1));
    }
}

fn all_digits(v: &Vec<char>, from: usize) -> (r: bool)
    requires
        from <= v@.len(),
    ensures
        r == (forall|i: int| from <= i < v@.len() ==> is_digit(#[trigger] v@[i])),
{
    let n: usize = v.len();
    let mut i: usize = from;
    while i < n
        invariant
            from <= i <= n,
            n == v@.len(),
            forall|j: int| from <= j < i ==> is_digit(#[trigger] v@[j]),
        decreases n - i,
    {
        let c = v[i];
        if !('0' <= c && c <= '9') {
            return false;
        }
        i = i + 1;
    }
    true
}

fn slice_string(v: &Vec<char>, from: usize, to: usize) -> (r: String)
    requires
        from <= to <= v@.len(),
    ensures
        r@ == v@.subrange(from as int, to as int),
{
    let part = subrange_chars(v, from, to);
    string_from_chars(&part)
}

fn tail_string(v: &Vec<char>, from: usize) -> (r: String)
    requires
        from <= v@.len(),
    ensures
        r@ == v@.skip(from as int),
{
    let r = slice_string(v, from, v.len());
    proof {
        assert(v@.subrange(from as int, v@.len() as int) =~= v@.skip(from as int));
    }
    r
}

/// Parse one input line into a command, or nothing when it is no command.
/// A delete-multiple command's count must fit the machine word.
pub fn parse_command(input: &str) -> (r: Option<Command>)
    requires
        dlx_shape(input@) ==> dlx_val(input@) <= usize::MAX,
    ensures
        opt_cmd_view(&r) == parse_spec(input@),
{
    let v = chars_vec(input);
    proof {
        reveal_strlit("/dl");
        reveal_strlit("/pm ");
        reveal_strlit("/nick");
        reveal_strlit("/color");
        reveal_strlit("/kick ");
        reveal_strlit("/k ");
        reveal_strlit("/banname ");
        reveal_strlit("/ban ");
        reveal_strlit("/banmsg ");
        reveal_strlit("/filter ");
        reveal_strlit("/unban ");
        reveal_strlit("/unfilter ");
        reveal_strlit("/allow ");
        reveal_strlit("/revoke ");
        reveal_strlit("/ignore ");
        reveal_strlit("/unignore ");
        reveal_strlit("/u");
        reveal_strlit("!warn");
    }
    if str_eq(input, "/dl") {
        return Some(Command::DeleteLastOne);
    }
    if v.len() > 3 && starts_with(input, "/dl") && all_digits(&v, 3) {
        let x = digits_value(&v, 3);
        return Some(Command::DeleteLastN(x));
    }
    if str_eq(input, "/dall") {
        return Some(Command::DeleteAllCmd);
    }
    if str_eq(input, "/cycles") {
        return Some(Command::Cycles);
    }
    if str_eq(input, "/cycle1") {
        return Some(Command::Cycle1);
    }
    if str_eq(input, "/cycle2") {
        return Some(Command::Cycle2);
    }
    if str_eq(input, "/kall") {
        return Some(Command::KickAll);
    }
    if starts_with(input, "/pm ") {
        let p: usize = 4;
        proof {
            assert("/pm "@.len() == 4) by {
                reveal_strlit("/pm ");
            }
            assert(v@.len() >= 4);
        }
        let te = find_ws(&v, p);
        if te > p && te < v.len() && v[te] == ' ' {
            let user = slice_string(&v, p, te);
            let msg = tail_string(&v, te + 1);
            return Some(Command::Pm(user, msg));
        }
        return None;
    }
    if starts_with(input, "/nick") && v.len() > 5 && whitespace_char(v[5]) {
        proof {
            assert("/nick"@.len() == 5) by {
                reveal_strlit("/nick");
            }
        }
        return Some(Command::NewNick(tail_string(&v, 6)));
    }
    if starts_with(input, "/color") && v.len() > 6 && whitespace_char(v[6]) {
        proof {
            assert("/color"@.len() == 6) by {
                reveal_strlit("/color");
            }
        }
        return Some(Command::NewColorCmd(tail_string(&v, 7)));
    }
    if starts_with(input, "/kick ") {
        proof {
            assert("/kick "@.len() == 6) by {
                reveal_strlit("/kick ");
            }
        }
        return parse_kick(&v, 6);
    }
    if starts_with(input, "/k ") {
        proof {
            assert("/k "@.len() == 3) by {
                reveal_strlit("/k ");
            }
        }
        return parse_kick(&v, 3);
    }
    if starts_with(input, "/banname ") {
        proof {
            assert("/banname "@.len() == 9) by {
                reveal_strlit("/banname ");
            }
        }
        return Some(parse_ban(&v, 9));
    }
    if starts_with(input, "/ban ") {
        proof {
            assert("/ban "@.len() == 5) by {
                reveal_strlit("/ban ");
            }
        }
        return Some(parse_ban(&v, 5));
    }
    if starts_with(input, "/banmsg ") {
        proof {
            assert("/banmsg "@.len() == 8) by {
                reveal_strlit("/banmsg ");
            }
        }
        return Some(Command::BanMsg(tail_string(&v, 8)));
    }
    if starts_with(input, "/filter ") {
        proof {
            assert("/filter "@.len() == 8) by {
                reveal_strlit("/filter ");
            }
        }
        return Some(Command::BanMsg(tail_string(&v, 8)));
    }
    if str_eq(input, "/banlist") {
        return Some(Command::BanList);
    }
    if str_eq(input, "/filterlist") {
        return Some(Command::FilterList);
    }
    if starts_with(input, "/unban ") {
        proof {
            assert("/unban "@.len() == 7) by {
                reveal_strlit("/unban ");
            }
        }
        let rest = subrange_chars(&v, 7, v.len());
        proof {
            assert(rest@ =~= input@.skip(7));
        }
        let name = unquote_chars(&rest);
        return Some(Command::Unban(name));
    }
    if starts_with(input, "/unfilter ") {
        proof {
            assert("/unfilter "@.len() == 10) by {
                reveal_strlit("/unfilter ");
            }
        }
        return Some(Command::Unfilter(tail_string(&v, 10)));
    }
    if starts_with(input, "/allow ") {
        proof {
            assert("/allow "@.len() == 7) by {
                reveal_strlit("/allow ");
            }
        }
        return Some(Command::Allow(tail_string(&v, 7)));
    }
    if starts_with(input, "/revoke ") {
        proof {
            assert("/revoke "@.len() == 8) by {
                reveal_strlit("/revoke ");
            }
        }
        return Some(Command::Revoke(tail_string(&v, 8)));
    }
    if str_eq(input, "/allowlist") {
        return Some(Command::AllowList);
    }
    if starts_with(input, "/ignore ") {
        proof {
            assert("/ignore "@.len() == 8) by {
                reveal_strlit("/ignore ");
            }
        }
        let te = find_ws(&v, 8);
        if te > 8 {
            return Some(Command::IgnoreUser(slice_string(&v, 8, te)));
        }
        return None;
    }
    if starts_with(input, "/unignore ") {
        proof {
            assert("/unignore "@.len() == 10) by {
                reveal_strlit("/unignore ");
            }
        }
        let te = find_ws(&v, 10);
        if te > 10 {
            return Some(Command::UnignoreUser(slice_string(&v, 10, te)));
        }
        return None;
    }
    if starts_with(input, "/u") && v.len() > 2 && whitespace_char(v[2]) {
        proof {
            assert("/u"@.len() == 2) by {
                reveal_strlit("/u");
            }
        }
        let te = find_ws(&v, 3);
        if te > 3 {
            let path = slice_string(&v, 3, te);
            let (dest, msg) = parse_upload_rest(&v, te);
            let scope = upload_scope_exec(&dest);
            return Some(Command::UploadCmd(path, scope, msg));
        }
        return None;
    }
    if starts_with(input, "!warn") {
        let t = warn_target(input);
        return Some(Command::WarnCmd(t));
    }
    None
}

fn parse_kick(v: &Vec<char>, p: usize) -> (r: Option<Command>)
    requires
        p <= v@.len(),
    ensures
        opt_cmd_view(&r) == (match kick_parts(v@, p as int) {
            Some((u, m)) => Some(CommandView::KickUser(u, m)),
            None => None,
        }),
{
    let te = find_ws(v, p);
    if te > p {
        let user = slice_string(v, p, te);
        let msg = if te < v.len() {
            tail_string(v, te + 1)
        } else {
            String::new()
        };
        Some(Command::KickUser(user, msg))
    } else {
        None
    }
}

fn unquote_chars(v: &Vec<char>) -> (r: String)
    ensures
        r@ == unquote(v@),
{
    if v.len() >= 2 && v[0] == '"' && v[v.len() - 1] == '"' {
        slice_string(v, 1, v.len() - 1)
    } else {
        string_from_chars(v)
    }
}

fn parse_ban(v: &Vec<char>, p: usize) -> (r: Command)
    requires
        p <= v@.len(),
    ensures
        r@ == CommandView::BanName(unquote(v@.skip(p as int)), quoted(v@.skip(p as int))),
{
    let rest = subrange_chars(v, p, v.len());
    proof {
        assert(rest@ =~= v@.skip(p as int));
    }
    let is_quoted = rest.len() >= 2 && rest[0] == '"' && rest[rest.len() - 1] == '"';
    let name = unquote_chars(&rest);
    Command::BanName(name, is_quoted)
}

fn parse_upload_rest(v: &Vec<char>, te: usize) -> (r: (String, String))
    requires
        te <= v@.len(),
    ensures
        (r.0@, r.1@) == upload_rest(v@, te as int),
{
    if te >= v.len() {
        (String::new(), String::new())
    } else {
        let q = te + 1;
        if q < v.len() && v[q] == '@' {
            let dt = find_ws(v, q + 1);
            if dt > q + 1 && dt < v.len() {
                (slice_string(v, q + 1, dt), tail_string(v, dt + 1))
            } else {
                (String::new(), tail_string(v, q))
            }
        } else {
            (String::new(), tail_string(v, q))
        }
    }
}

fn upload_scope_exec(dest: &String) -> (r: String)
    ensures
        r@ == upload_scope(dest@),
{
    if str_eq(dest.as_str(), "members") {
        String::from_str("s ?")
    } else if str_eq(dest.as_str(), "staffs") {
        String::from_str("s %")
    } else if str_eq(dest.as_str(), "admins") {
        String::from_str("s _")
    } else {
        String::from_str("s *")
    }
}

fn warn_target(input: &str) -> (r: String)
    ensures
        r@ == warn_target_spec(input@),
{
    let mut rest: String = String::from_str(input);
    proof {
        assert("!warn"@.len() == 5) by {
            reveal_strlit("!warn");
        }
    }
    let mut stripped = true;
    while stripped
        invariant
            strip_warn_prefixes(input@) == strip_warn_prefixes(rest@),
            !stripped ==> !prefix_of(rest@, "!warn"@),
        decreases rest@.len() + (if stripped {
            1int
        } else {
            0int
        }),
    {
        proof {
            assert("!warn"@.len() == 5) by {
                reveal_strlit("!warn");
            }
        }
        if starts_with(rest.as_str(), "!warn") {
            let ghost pre = rest@;
            let v = chars_vec(rest.as_str());
            rest = tail_string(&v, 5);
            proof {
                assert(rest@ == pre.skip(5));
                assert(pre.len() >= 5);
            }
        } else {
            stripped = false;
        }
    }
    let t = crate::strutil::trim_ws(rest.as_str());
    let tv = chars_vec(t.as_str());
    if tv.len() > 0 && tv[0] == '@' {
        t
    } else if tv.len() == 0 {
        String::new()
    } else {
        let mut out = String::from_str("@");
        out.append(t.as_str());
        proof {
            assert("@"@ =~= seq!['@']) by {
                reveal_strlit("@");
            }
            assert(out@ =~= seq!['@'] + t@);
        }
        out
    }
}

/// What executing one command does: the actions to emit, a replacement for
/// the input box, an instruction to the color cycler, whether the filters
/// must be persisted, and the four filter lists afterwards.
pub struct CmdEffects {
    pub actions: Seq<PostView>,
    pub input_override: Option<Seq<char>>,
    pub cycle: Option<CycleCmd>,
    pub save: bool,
    pub bu: Seq<Seq<char>>,
    pub be: Seq<Seq<char>>,
    pub bm: Seq<Seq<char>>,
    pub al: Seq<Seq<char>>,
}

/// Effects that only emit actions and change nothing else.
pub open spec fn acts_only(
    actions: Seq<PostView>,
    bu: Seq<Seq<char>>,
    be: Seq<Seq<char>>,
    bm: Seq<Seq<char>>,
    al: Seq<Seq<char>>,
) -> CmdEffects {
    CmdEffects { actions, input_override: None, cycle: None, save: false, bu, be, bm, al }
}

/// The notice posted after a ban.
pub open spec fn ban_notice(name: Seq<char>, exact: bool) -> Seq<char> {
    if exact {
        "Banned exact user \""@ + name + "\""@
    } else {
        "Banned userfilter \""@ + name + "\""@
    }
}

/// What each command does, given the guest roster and the filter lists.
pub open spec fn effects_spec(
    c: CommandView,
    guests: Seq<(Color, String)>,
    bu: Seq<Seq<char>>,
    be: Seq<Seq<char>>,
    bm: Seq<Seq<char>>,
    al: Seq<Seq<char>>,
) -> CmdEffects {
    match c {
        CommandView::DeleteLastOne => acts_only(seq![PostView::DeleteLast], bu, be, bm, al),
        CommandView::DeleteLastN(x) => acts_only(
            Seq::new(x as nat, |i: int| PostView::DeleteLast),
            bu,
            be,
            bm,
            al,
        ),
        CommandView::DeleteAllCmd => acts_only(seq![PostView::DeleteAll], bu, be, bm, al),
        CommandView::Cycles => CmdEffects {
            actions: Seq::<PostView>::empty(),
            input_override: None,
            cycle: Some(CycleCmd::StopCycles),
            save: false,
            bu,
            be,
            bm,
            al,
        },
        CommandView::Cycle1 => CmdEffects {
            actions: Seq::<PostView>::empty(),
            input_override: None,
            cycle: Some(CycleCmd::ColorOnly),
            save: false,
            bu,
            be,
            bm,
            al,
        },
        CommandView::Cycle2 => CmdEffects {
            actions: Seq::<PostView>::empty(),
            input_override: None,
            cycle: Some(CycleCmd::Full),
            save: false,
            bu,
            be,
            bm,
            al,
        },
        CommandView::KickAll => acts_only(
            seq![PostView::Kick(Seq::<char>::empty(), "s _"@)],
            bu,
            be,
            bm,
            al,
        ),
        CommandView::Pm(u, m) => CmdEffects {
            actions: seq![PostView::Post(m, Some(u))],
            input_override: Some("/pm "@ + u + " "@),
            cycle: None,
            save: false,
            bu,
            be,
            bm,
            al,
        },
        CommandView::NewNick(n) => acts_only(seq![PostView::NewNickname(n)], bu, be, bm, al),
        CommandView::NewColorCmd(cc) => acts_only(seq![PostView::NewColor(cc)], bu, be, bm, al),
        CommandView::KickUser(u, m) => acts_only(seq![PostView::Kick(m, u)], bu, be, bm, al),
        CommandView::BanName(name, exact) => {
            let bu1 = if exact {
                bu
            } else {
                bu.push(name)
            };
            let be1 = if exact {
                be.push(name)
            } else {
                be
            };
            let kicks = guest_kicks_spec(guests, Seq::<(Color, String)>::empty(), be1, bu1);
            CmdEffects {
                actions: seq![PostView::Kick(Seq::<char>::empty(), name)] + kicks + seq![
                    PostView::Post(ban_notice(name, exact), Some("0"@)),
                ],
                input_override: None,
                cycle: None,
                save: true,
                bu: bu1,
                be: be1,
                bm,
                al,
            }
        },
        CommandView::BanMsg(t) => CmdEffects {
            actions: seq![
                PostView::Post(
                    "Filtering messages including \""@ + t + "\""@,
                    Some("0"@),
                ),
            ],
            input_override: None,
            cycle: None,
            save: true,
            bu,
            be,
            bm: bm.push(t),
            al,
        },
        CommandView::BanList => acts_only(
            seq![
                PostView::Post(
                    "Banned names: "@ + list_text_spec(bu) + "\nBanned exact names: "@
                        + list_text_spec(be),
                    Some("0"@),
                ),
            ],
            bu,
            be,
            bm,
            al,
        ),
        CommandView::FilterList => acts_only(
            seq![
                PostView::Post("Filtered messages: "@ + list_text_spec(bm), Some("0"@)),
            ],
            bu,
            be,
            bm,
            al,
        ),
        CommandView::Unban(name) => {
            let pu = first_pos(bu, name);
            let pe = first_pos(be, name);
            if pu >= 0 {
                CmdEffects {
                    actions: seq![PostView::Post("Unbanned "@ + name, Some("0"@))],
                    input_override: None,
                    cycle: None,
                    save: true,
                    bu: bu.remove(pu),
                    be,
                    bm,
                    al,
                }
            } else if pe >= 0 {
                CmdEffects {
                    actions: seq![PostView::Post("Unbanned "@ + name, Some("0"@))],
                    input_override: None,
                    cycle: None,
                    save: true,
                    bu,
                    be: be.remove(pe),
                    bm,
                    al,
                }
            } else {
                acts_only(Seq::<PostView>::empty(), bu, be, bm, al)
            }
        },
        CommandView::Unfilter(term) => {
            let p = first_pos(bm, term);
            if p >= 0 {
                CmdEffects {
                    actions: seq![
                        PostView::Post("Unfiltered \""@ + term + "\""@, Some("0"@)),
                    ],
                    input_override: None,
                    cycle: None,
                    save: true,
                    bu,
                    be,
                    bm: bm.remove(p),
                    al,
                }
            } else {
                acts_only(Seq::<PostView>::empty(), bu, be, bm, al)
            }
        },
        CommandView::Allow(u) => CmdEffects {
            actions: seq![PostView::Post("Allowed "@ + u, Some("0"@))],
            input_override: None,
            cycle: None,
            save: true,
            bu,
            be,
            bm,
            al: if has_exact(al, u) {
                al
            } else {
                al.push(u)
            },
        },
        CommandView::Revoke(u) => {
            let p = first_pos(al, u);
            CmdEffects {
                actions: seq![PostView::Post("Revoked "@ + u, Some("0"@))],
                input_override: None,
                cycle: None,
                save: true,
                bu,
                be,
                bm,
                al: if p >= 0 {
                    al.remove(p)
                } else {
                    al
                },
            }
        },
        CommandView::AllowList => acts_only(
            seq![PostView::Post("Allowlist: "@ + list_text_spec(al), Some("0"@))],
            bu,
            be,
            bm,
            al,
        ),
        CommandView::IgnoreUser(u) => acts_only(seq![PostView::Ignore(u)], bu, be, bm, al),
        CommandView::UnignoreUser(u) => acts_only(seq![PostView::Unignore(u)], bu, be, bm, al),
        CommandView::UploadCmd(p, st, m) => acts_only(
            seq![PostView::Upload(p, st, m)],
            bu,
            be,
            bm,
            al,
        ),
        CommandView::WarnCmd(t) => acts_only(
            seq![
                PostView::Post(
                    "This is your warning - "@ + t
                        + ", will be kicked next. Please read the !-rules / https://4-0-4.io/bhc-rules"@,
                    None,
                ),
            ],
            bu,
            be,
            bm,
            al,
        ),
    }
}

/// What executing a command hands back to the caller.
#[derive(Debug, PartialEq)]
pub struct CommandOutcome {
    /// The actions to submit to the dispatcher, in order.
    pub actions: Vec<PostType>,
    /// A replacement for the input box, when the command leaves one.
    pub input_override: Option<String>,
    /// An instruction to the color cycler, when the command is one.
    pub cycle: Option<CycleCmd>,
    /// Whether the filter lists must be persisted afterwards.
    pub save: bool,
}

/// The view of an optional string.
pub open spec fn opt_string_view(r: &Option<String>) -> Option<Seq<char>> {
    match r {
        Some(x) => Some(x@),
        None => None,
    }
}

fn post_to_zero(text: String) -> (r: PostType)
    ensures
        r@ == PostView::Post(text@, Some("0"@)),
{
    PostType::Post(text, Some(String::from_str("0")))
}

fn concat3(a: &str, b: &str, c: &str) -> (r: String)
    ensures
        r@ == a@ + b@ + c@,
{
    let mut s = String::from_str(a);
    s.append(b);
    s.append(c);
    proof {
        assert(s@ =~= a@ + b@ + c@);
    }
    s
}

/// Execute one parsed command: mutate the filter lists as the command
/// says, and return the actions to emit together with the other effects.
pub fn command_effects(cmd: Command, filters: &mut FilterSet, users: &Users) -> (r: CommandOutcome)
    ensures
        ({
            let e = effects_spec(
                cmd@,
                users.guests@,
                strings_view(old(filters).bad_usernames@),
                strings_view(old(filters).bad_exact_usernames@),
                strings_view(old(filters).bad_messages@),
                strings_view(old(filters).allowlist@),
            );
            &&& posts_view(r.actions@) == e.actions
            &&& opt_string_view(&r.input_override) == e.input_override
            &&& r.cycle == e.cycle
            &&& r.save == e.save
            &&& strings_view(final(filters).bad_usernames@) == e.bu
            &&& strings_view(final(filters).bad_exact_usernames@) == e.be
            &&& strings_view(final(filters).bad_messages@) == e.bm
            &&& strings_view(final(filters).allowlist@) == e.al
        }),
{
    let ghost e = effects_spec(
        cmd@,
        users.guests@,
        strings_view(old(filters).bad_usernames@),
        strings_view(old(filters).bad_exact_usernames@),
        strings_view(old(filters).bad_messages@),
        strings_view(old(filters).allowlist@),
    );
    let mut actions: Vec<PostType> = Vec::new();
    let mut input_override: Option<String> = None;
    let mut cycle: Option<CycleCmd> = None;
    let mut save = false;
    match cmd {
        Command::DeleteLastOne => {
            actions.push(PostType::DeleteLast);
            proof {
                assert(posts_view(actions@) =~= e.actions);
            }
        },
        Command::DeleteLastN(x) => {
            let mut i: usize = 0;
            while i < x
                invariant
                    0 <= i <= x,
                    posts_view(actions@) == Seq::new(i as nat, |k: int| PostView::DeleteLast),
                decreases x - i,
            {
                let ghost pre = actions@;
                actions.push(PostType::DeleteLast);
                i = i + 1;
                proof {
                    assert(posts_view(actions@) =~= posts_view(pre).push(PostView::DeleteLast));
                    assert(posts_view(actions@) =~= Seq::new(
                        i as nat,
                        |k: int| PostView::DeleteLast,
                    ));
                }
            }
        },
        Command::DeleteAllCmd => {
            actions.push(PostType::DeleteAll);
            proof {
                assert(posts_view(actions@) =~= e.actions);
            }
        },
        Command::Cycles => {
            cycle = Some(CycleCmd::StopCycles);
        },
        Command::Cycle1 => {
            cycle = Some(CycleCmd::ColorOnly);
        },
        Command::Cycle2 => {
            cycle = Some(CycleCmd::Full);
        },
        Command::KickAll => {
            actions.push(PostType::Kick(String::new(), String::from_str("s _")));
            proof {
                assert(posts_view(actions@) =~= e.actions);
            }
        },
        Command::Pm(u, m) => {
            let mut over = String::from_str("/pm ");
            over.append(u.as_str());
            over.append(" ");
            proof {
                assert(over@ =~= "/pm "@ + u@ + " "@);
            }
            actions.push(PostType::Post(m, Some(u)));
            input_override = Some(over);
            proof {
                assert(posts_view(actions@) =~= e.actions);
            }
        },
        Command::NewNick(n) => {
            actions.push(PostType::NewNickname(n));
            proof {
                assert(posts_view(actions@) =~= e.actions);
            }
        },
        Command::NewColorCmd(cc) => {
            actions.push(PostType::NewColor(cc));
            proof {
                assert(posts_view(actions@) =~= e.actions);
            }
        },
        Command::KickUser(u, m) => {
            actions.push(PostType::Kick(m, u));
            proof {
                assert(posts_view(actions@) =~= e.actions);
            }
        },
        Command::BanName(name, exact) => {
            if exact {
                filters.bad_exact_usernames.push(name.clone());
                proof {
                    assert(strings_view(filters.bad_exact_usernames@) =~= strings_view(
                        old(filters).bad_exact_usernames@,
                    ).push(name@));
                }
            } else {
                filters.bad_usernames.push(name.clone());
                proof {
                    assert(strings_view(filters.bad_usernames@) =~= strings_view(
                        old(filters).bad_usernames@,
                    ).push(name@));
                }
            }
            save = true;
            actions.push(PostType::Kick(String::new(), name.clone()));
            let mut kicks = apply_ban_filters(
                users,
                &filters.bad_exact_usernames,
                &filters.bad_usernames,
            );
            let ghost kicks_v = posts_view(kicks@);
            actions.append(&mut kicks);
            let notice = if exact {
                concat3("Banned exact user \"", name.as_str(), "\"")
            } else {
                concat3("Banned userfilter \"", name.as_str(), "\"")
            };
            proof {
                assert(notice@ == ban_notice(name@, exact));
            }
            actions.push(post_to_zero(notice));
            proof {
                assert(posts_view(actions@) =~= seq![
                    PostView::Kick(Seq::<char>::empty(), name@),
                ] + kicks_v + seq![PostView::Post(ban_notice(name@, exact), Some("0"@))]);
            }
        },
        Command::BanMsg(t) => {
            filters.bad_messages.push(t.clone());
            proof {
                assert(strings_view(filters.bad_messages@) =~= strings_view(
                    old(filters).bad_messages@,
                ).push(t@));
            }
            save = true;
            let notice = concat3("Filtering messages including \"", t.as_str(), "\"");
            actions.push(post_to_zero(notice));
            proof {
                assert(posts_view(actions@) =~= e.actions);
            }
        },
        Command::BanList => {
            let names = list_filters(filters, true);
            let exacts = list_exact_filters(filters);
            let mut text = String::from_str("Banned names: ");
            text.append(names.as_str());
            text.append("\nBanned exact names: ");
            text.append(exacts.as_str());
            proof {
                assert(text@ =~= "Banned names: "@ + names@ + "\nBanned exact names: "@
                    + exacts@);
            }
            actions.push(post_to_zero(text));
            proof {
                assert(posts_view(actions@) =~= e.actions);
            }
        },
        Command::FilterList => {
            let terms = list_filters(filters, false);
            let mut text = String::from_str("Filtered messages: ");
            text.append(terms.as_str());
            proof {
                assert(text@ =~= "Filtered messages: "@ + terms@);
            }
            actions.push(post_to_zero(text));
            proof {
                assert(posts_view(actions@) =~= e.actions);
            }
        },
        Command::Unban(name) => {
            let removed = crate::filters::remove_filter(filters, name.as_str(), true);
            if removed {
                save = true;
                let mut text = String::from_str("Unbanned ");
                text.append(name.as_str());
                proof {
                    assert(text@ =~= "Unbanned "@ + name@);
                }
                actions.push(post_to_zero(text));
                proof {
                    assert(posts_view(actions@) =~= e.actions);
                }
            } else {
                proof {
                    assert(posts_view(actions@) =~= e.actions);
                }
            }
        },
        Command::Unfilter(term) => {
            let removed = crate::filters::remove_filter(filters, term.as_str(), false);
            if removed {
                save = true;
                let notice = concat3("Unfiltered \"", term.as_str(), "\"");
                actions.push(post_to_zero(notice));
                proof {
                    assert(posts_view(actions@) =~= e.actions);
                }
            } else {
                proof {
                    assert(posts_view(actions@) =~= e.actions);
                }
            }
        },
        Command::Allow(u) => {
            if !matches_exact(&filters.allowlist, u.as_str()) {
                filters.allowlist.push(u.clone());
                proof {
                    assert(strings_view(filters.allowlist@) =~= strings_view(
                        old(filters).allowlist@,
                    ).push(u@));
                }
            }
            save = true;
            let mut text = String::from_str("Allowed ");
            text.append(u.as_str());
            proof {
                assert(text@ =~= "Allowed "@ + u@);
            }
            actions.push(post_to_zero(text));
            proof {
                assert(posts_view(actions@) =~= e.actions);
            }
        },
        Command::Revoke(u) => {
            match position_of(&filters.allowlist, u.as_str()) {
                Some(pos) => {
                    filters.allowlist.remove(pos);
                    proof {
                        assert(strings_view(filters.allowlist@) =~= strings_view(
                            old(filters).allowlist@,
                        ).remove(pos as int));
                    }
                },
                None => {},
            }
            save = true;
            let mut text = String::from_str("Revoked ");
            text.append(u.as_str());
            proof {
                assert(text@ =~= "Revoked "@ + u@);
            }
            actions.push(post_to_zero(text));
            proof {
                assert(posts_view(actions@) =~= e.actions);
            }
        },
        Command::AllowList => {
            let listed = crate::filters::list_allowlist(filters);
            let mut text = String::from_str("Allowlist: ");
            text.append(listed.as_str());
            proof {
                assert(text@ =~= "Allowlist: "@ + listed@);
            }
            actions.push(post_to_zero(text));
            proof {
                assert(posts_view(actions@) =~= e.actions);
            }
        },
        Command::IgnoreUser(u) => {
            actions.push(PostType::Ignore(u));
            proof {
                assert(posts_view(actions@) =~= e.actions);
            }
        },
        Command::UnignoreUser(u) => {
            actions.push(PostType::Unignore(u));
            proof {
                assert(posts_view(actions@) =~= e.actions);
            }
        },
        Command::UploadCmd(p, st, m) => {
            actions.push(PostType::Upload(p, st, m));
            proof {
                assert(posts_view(actions@) =~= e.actions);
            }
        },
        Command::WarnCmd(t) => {
            let mut text = String::from_str("This is your warning - ");
            text.append(t.as_str());
            text.append(
                ", will be kicked next. Please read the !-rules / https://4-0-4.io/bhc-rules",
            );
            proof {
                assert(text@ =~= "This is your warning - "@ + t@
                    + ", will be kicked next. Please read the !-rules / https://4-0-4.io/bhc-rules"@);
            }
            actions.push(PostType::Post(text, None));
            proof {
                assert(posts_view(actions@) =~= e.actions);
            }
        },
    }
    CommandOutcome { actions, input_override, cycle, save }
}

/// Handle one input line: parse it and, when it is a command, perform its
/// effects; the flag says whether the line was a command at all.
pub fn process_command(input: &str, filters: &mut FilterSet, users: &Users) -> (r: (
    bool,
    CommandOutcome,
))
    requires
        dlx_shape(input@) ==> dlx_val(input@) <= usize::MAX,
    ensures
        ({
            match parse_spec(input@) {
                None => {
                    &&& !r.0
                    &&& r.1.actions@.len() == 0
                    &&& r.1.input_override is None
                    &&& r.1.cycle is None
                    &&& r.1.save == false
                    &&& *final(filters) == *old(filters)
                },
                Some(c) => {
                    let e = effects_spec(
                        c,
                        users.guests@,
                        strings_view(old(filters).bad_usernames@),
                        strings_view(old(filters).bad_exact_usernames@),
                        strings_view(old(filters).bad_messages@),
                        strings_view(old(filters).allowlist@),
                    );
                    &&& r.0
                    &&& posts_view(r.1.actions@) == e.actions
                    &&& opt_string_view(&r.1.input_override) == e.input_override
                    &&& r.1.cycle == e.cycle
                    &&& r.1.save == e.save
                    &&& strings_view(final(filters).bad_usernames@) == e.bu
                    &&& strings_view(final(filters).bad_exact_usernames@) == e.be
                    &&& strings_view(final(filters).bad_messages@) == e.bm
                    &&& strings_view(final(filters).allowlist@) == e.al
                },
            }
        }),
{
    match parse_command(input) {
        Some(cmd) => {
            let out = command_effects(cmd, filters, users);
            (true, out)
        },
        None => {
            (
                false,
                CommandOutcome {
                    actions: Vec::new(),
                    input_override: None,
                    cycle: None,
                    save: false,
                },
            )
        },
    }
}

} // verus!
