//! String primitives the rest of the library is specified with: character
//! vectors as the executable form of `Seq<char>`, substring search, and a
//! few trusted bridges to `std` character classification.

use vstd::prelude::*;
use vstd::string::StrSliceExecFns;
use vstd::string::StringExecFns;

verus! {

/// What `str::to_lowercase` returns; the result depends on the characters
/// alone.
pub uninterp spec fn lower_of(s: Seq<char>) -> Seq<char>;

/// Whether `char::is_alphanumeric` accepts the character; a function of the
/// character alone.
pub uninterp spec fn is_alphanum(c: char) -> bool;

/// Whether `char::is_whitespace` accepts the character; a function of the
/// character alone.
pub uninterp spec fn is_space(c: char) -> bool;

/// Relies on str::to_lowercase: the result depends on the characters alone,
/// and an empty string stays empty.
#[verifier::external_body]
pub fn lowercase(s: &str) -> (r: String)
    ensures
        r@ == lower_of(s@),
        s@.len() == 0 ==> r@.len() == 0,
{
    s.to_lowercase()
}

/// Relies on char::is_alphanumeric.
#[verifier::external_body]
pub fn alphanumeric_char(c: char) -> (r: bool)
    ensures
        r == is_alphanum(c),
{
    c.is_alphanumeric()
}

/// Relies on char::is_whitespace.
#[verifier::external_body]
pub fn whitespace_char(c: char) -> (r: bool)
    ensures
        r == is_space(c),
{
    c.is_whitespace()
}

/// Number of bytes of the UTF-8 encoding of a character, by code point
/// range, as `char::len_utf8` documents it.
pub open spec fn utf8_len_spec(c: char) -> int {
    if (c as u32) < 0x80 {
        1
    } else if (c as u32) < 0x800 {
        2
    } else if (c as u32) < 0x10000 {
        3
    } else {
        4
    }
}

/// Relies on char::len_utf8: one to four bytes, by the documented code
/// point ranges.
#[verifier::external_body]
pub fn utf8_len_char(c: char) -> (r: usize)
    ensures
        r == utf8_len_spec(c),
{
    c.len_utf8()
}

/// Relies on `Iterator::collect` for `String`: collecting characters
/// builds the string of exactly those characters.
#[verifier::external_body]
pub fn string_from_chars(v: &Vec<char>) -> (r: String)
    ensures
        r@ == v@,
{
    v.iter().collect()
}

/// The characters of a string as a vector, in order.
pub fn chars_vec(s: &str) -> (r: Vec<char>)
    ensures
        r@ == s@,
{
    let n: usize = s.unicode_len();
    let mut r: Vec<char> = Vec::new();
    let mut i: usize = 0;
    while i < n
        invariant
            0 <= i <= n,
            n == s@.len(),
            r@ == s@.take(i as int),
        decreases n - i,
    {
        let c = s.get_char(i);
        r.push(c);
        i = i + 1;
        assert(r@ =~= s@.take(i as int));
    }
    assert(r@ =~= s@);
    r
}

/// Character-for-character equality of two character vectors.
pub fn chars_eq(a: &Vec<char>, b: &Vec<char>) -> (r: bool)
    ensures
        r == (a@ == b@),
{
    if a.len() != b.len() {
        assert(a@ != b@) by {
            assert(a@.len() != b@.len());
        }
        return false;
    }
    let n: usize = a.len();
    let mut i: usize = 0;
    while i < n
        invariant
            0 <= i <= n,
            n == a@.len() == b@.len(),
            forall|j: int| 0 <= j < i ==> a@[j] == b@[j],
        decreases n - i,
    {
        if a[i] != b[i] {
            return false;
        }
        i = i + 1;
    }
    assert(a@ =~= b@);
    true
}

/// String equality, stated over the views.
pub fn str_eq(a: &str, b: &str) -> (r: bool)
    ensures
        r == (a@ == b@),
{
    let av = chars_vec(a);
    let bv = chars_vec(b);
    chars_eq(&av, &bv)
}

/// The needle occurs in the haystack starting at position `i`.
pub open spec fn matches_at(hay: Seq<char>, needle: Seq<char>, i: int) -> bool {
    0 <= i && i + needle.len() <= hay.len() && hay.subrange(i, i + needle.len()) == needle
}

/// The needle occurs somewhere in the haystack.
pub open spec fn contains_seq(hay: Seq<char>, needle: Seq<char>) -> bool {
    exists|i: int| matches_at(hay, needle, i)
}

/// The needle occurs at the start of the haystack.
pub open spec fn prefix_of(hay: Seq<char>, needle: Seq<char>) -> bool {
    matches_at(hay, needle, 0)
}

/// The needle occurs at the end of the haystack.
pub open spec fn suffix_of(hay: Seq<char>, needle: Seq<char>) -> bool {
    needle.len() <= hay.len() && matches_at(hay, needle, hay.len() - needle.len())
}

/// Whether the needle occurs at position `i` of the haystack.
pub fn check_match_at(hay: &Vec<char>, needle: &Vec<char>, i: usize) -> (r: bool)
    requires
        i + needle@.len() <= hay@.len(),
    ensures
        r == matches_at(hay@, needle@, i as int),
{
    let n: usize = needle.len();
    let hl: usize = hay.len();
    let mut k: usize = 0;
    while k < n
        invariant
            0 <= k <= n,
            n == needle@.len(),
            hl == hay@.len(),
            i + n <= hay@.len(),
            forall|j: int| 0 <= j < k ==> hay@[i + j] == needle@[j],
        decreases n - k,
    {
        if hay[i + k] != needle[k] {
            assert(hay@.subrange(i as int, i + n) != needle@) by {
                assert(hay@.subrange(i as int, i + n)[k as int] != needle@[k as int]);
            }
            return false;
        }
        k = k + 1;
    }
    assert(hay@.subrange(i as int, i + n) =~= needle@);
    true
}

/// Substring search over character vectors.
pub fn contains_chars(hay: &Vec<char>, needle: &Vec<char>) -> (r: bool)
    ensures
        r == contains_seq(hay@, needle@),
{
    let hn: usize = hay.len();
    let nn: usize = needle.len();
    if nn > hn {
        assert(!contains_seq(hay@, needle@));
        return false;
    }
    if nn == 0 {
        assert(matches_at(hay@, needle@, 0)) by {
            assert(hay@.subrange(0, 0) =~= needle@);
        }
        return true;
    }
    let last: usize = hn - nn;
    let mut i: usize = 0;
    while i <= last
        invariant
            0 <= i <= last + 1,
            last == hay@.len() - needle@.len(),
            nn == needle@.len(),
            1 <= nn,
            hn == hay@.len(),
            forall|j: int| 0 <= j < i ==> !matches_at(hay@, needle@, j),
        decreases last + 1 - i,
    {
        if check_match_at(hay, needle, i) {
            assert(contains_seq(hay@, needle@));
            return true;
        }
        i = i + 1;
    }
    assert(forall|j: int| matches_at(hay@, needle@, j) ==> 0 <= j <= last);
    false
}

/// Substring search over strings.
pub fn contains_str(hay: &str, needle: &str) -> (r: bool)
    ensures
        r == contains_seq(hay@, needle@),
{
    let hv = chars_vec(hay);
    let nv = chars_vec(needle);
    contains_chars(&hv, &nv)
}

/// Whether the string starts with the given prefix.
pub fn starts_with(s: &str, prefix: &str) -> (r: bool)
    ensures
        r == prefix_of(s@, prefix@),
{
    let sv = chars_vec(s);
    let pv = chars_vec(prefix);
    if pv.len() > sv.len() {
        return false;
    }
    check_match_at(&sv, &pv, 0)
}

/// The views of a list of strings.
pub open spec fn strings_view(v: Seq<String>) -> Seq<Seq<char>> {
    v.map_values(|s: String| s@)
}

/// The empty string.
pub fn default_empty_str() -> (r: String)
    ensures
        r@ == Seq::<char>::empty(),
{
    String::new()
}

/// Byte offset of the `idx`-th character of `v`, when `v` has at least
/// `idx` characters: the sum of the UTF-8 widths of the characters before
/// it.
pub open spec fn utf8_prefix_len(s: Seq<char>) -> int
    decreases s.len(),
{
    if s.len() == 0 {
        0
    } else {
        utf8_prefix_len(s.drop_last()) + utf8_len_spec(s.last())
    }
}

proof fn lemma_utf8_prefix_len_bounds(s: Seq<char>)
    ensures
        0 <= utf8_prefix_len(s) <= 4 * s.len(),
    decreases s.len(),
{
    if s.len() > 0 {
        lemma_utf8_prefix_len_bounds(s.drop_last());
    }
}

/// Byte position of the character at index `idx`, or `None` when the
/// string has fewer than `idx` characters.
pub fn byte_pos(v: &str, idx: usize) -> (r: Option<usize>)
    requires
        4 * v@.len() <= usize::MAX,
    ensures
        r == (if idx <= v@.len() {
            Some(utf8_prefix_len(v@.take(idx as int)) as usize)
        } else {
            None::<usize>
        }),
{
    let chars = chars_vec(v);
    if idx > chars.len() {
        return None;
    }
    let mut b: usize = 0;
    let mut i: usize = 0;
    while i < idx
        invariant
            0 <= i <= idx <= chars@.len(),
            chars@ == v@,
            4 * v@.len() <= usize::MAX,
            b == utf8_prefix_len(v@.take(i as int)),
        decreases idx - i,
    {
        proof {
            lemma_utf8_prefix_len_bounds(v@.take(i as int));
            assert(v@.take(i + 1).drop_last() =~= v@.take(i as int));
        }
        b = b + utf8_len_char(chars[i]);
        i = i + 1;
    }
    Some(b)
}

/// The string with the character at index `idx` removed; the string
/// unchanged when `idx` is out of range.
pub fn remove_at(v: &str, idx: usize) -> (r: String)
    ensures
        r@ == (if idx < v@.len() {
            v@.take(idx as int) + v@.skip(idx + 1)
        } else {
            v@
        }),
{
    let chars = chars_vec(v);
    let mut out: Vec<char> = Vec::new();
    let n: usize = chars.len();
    let mut i: usize = 0;
    while i < n
        invariant
            0 <= i <= n,
            n == chars@.len(),
            chars@ == v@,
            out@ == (if idx < i {
                v@.take(idx as int) + v@.subrange(idx + 1, i as int)
            } else {
                v@.take(i as int)
            }),
        decreases n - i,
    {
        if i != idx {
            out.push(chars[i]);
        }
        i = i + 1;
        proof {
            if idx < i {
                assert(out@ =~= v@.take(idx as int) + v@.subrange(idx + 1, i as int));
            } else {
                assert(out@ =~= v@.take(i as int));
            }
        }
    }
    proof {
        if idx < n {
            assert(v@.take(idx as int) + v@.subrange(idx + 1, n as int) =~= v@.take(idx as int)
                + v@.skip(idx + 1));
        } else {
            assert(v@.take(n as int) =~= v@);
        }
    }
    string_from_chars(&out)
}

/// What trimming one trailing newline leaves: a final `"\r\n"` or `"\n"`
/// is removed, anything else is kept.
pub open spec fn trim_newline_spec(s: Seq<char>) -> Seq<char> {
    if s.len() > 0 && s.last() == '\n' {
        let t = s.drop_last();
        if t.len() > 0 && t.last() == '\r' {
            t.drop_last()
        } else {
            t
        }
    } else {
        s
    }
}

/// Remove a single trailing `"\n"` or `"\r\n"` from the string.
pub fn trim_newline(s: &mut String)
    ensures
        final(s)@ == trim_newline_spec(old(s)@),
{
    let mut chars = chars_vec(s.as_str());
    if chars.len() > 0 {
        let last_i: usize = chars.len() - 1;
        if chars[last_i] == '\n' {
            chars.pop();
            if chars.len() > 0 {
                let last_j: usize = chars.len() - 1;
                if chars[last_j] == '\r' {
                    chars.pop();
                }
            }
        }
    }
    proof {
        assert(chars@ =~= trim_newline_spec(old(s)@));
    }
    *s = string_from_chars(&chars);
}

/// The string with every occurrence of a backslash followed by `n`
/// replaced, left to right, by a newline character.
pub open spec fn replace_newline_escape_spec(s: Seq<char>) -> Seq<char>
    decreases s.len(),
{
    if s.len() >= 2 && s[0] == '\\' && s[1] == 'n' {
        seq!['\n'] + replace_newline_escape_spec(s.skip(2))
    } else if s.len() > 0 {
        seq![s[0]] + replace_newline_escape_spec(s.skip(1))
    } else {
        Seq::<char>::empty()
    }
}

/// Replace every `"\\n"` escape by a real newline.
pub fn replace_newline_escape(s: &str) -> (r: String)
    ensures
        r@ == replace_newline_escape_spec(s@),
{
    let chars = chars_vec(s);
    let n: usize = chars.len();
    let mut out: Vec<char> = Vec::new();
    let mut i: usize = 0;
    proof {
        assert(s@.skip(0) =~= s@);
        assert(Seq::<char>::empty() + replace_newline_escape_spec(s@) =~= replace_newline_escape_spec(s@));
    }
    while i < n
        invariant
            0 <= i <= n,
            n == chars@.len(),
            chars@ == s@,
            replace_newline_escape_spec(s@) == out@ + replace_newline_escape_spec(
                s@.skip(i as int),
            ),
        decreases n - i,
    {
        let ghost pre = out@;
        if i + 1 < n && chars[i] == '\\' && chars[i + 1] == 'n' {
            out.push('\n');
            proof {
                assert(s@.skip(i as int).skip(2) =~= s@.skip(i + 2));
                assert(pre + seq!['\n'] + replace_newline_escape_spec(s@.skip(i + 2)) =~= out@
                    + replace_newline_escape_spec(s@.skip(i + 2)));
            }
            i = i + 2;
        } else {
            out.push(chars[i]);
            proof {
                assert(s@.skip(i as int)[0] == s@[i as int]);
                assert(s@.skip(i as int).skip(1) =~= s@.skip(i + 1));
                assert(pre + seq![s@[i as int]] + replace_newline_escape_spec(s@.skip(i + 1)) =~= out@
                    + replace_newline_escape_spec(s@.skip(i + 1)));
            }
            i = i + 1;
        }
    }
    proof {
        assert(s@.skip(n as int) =~= Seq::<char>::empty());
        assert(out@ + Seq::<char>::empty() =~= out@);
    }
    string_from_chars(&out)
}

/// The string without its leading whitespace.
pub open spec fn trim_start_spec(s: Seq<char>) -> Seq<char>
    decreases s.len(),
{
    if s.len() > 0 && is_space(s[0]) {
        trim_start_spec(s.drop_first())
    } else {
        s
    }
}

/// The string without its trailing whitespace.
pub open spec fn trim_end_spec(s: Seq<char>) -> Seq<char>
    decreases s.len(),
{
    if s.len() > 0 && is_space(s.last()) {
        trim_end_spec(s.drop_last())
    } else {
        s
    }
}

/// The string without leading and trailing whitespace.
pub open spec fn trim_spec(s: Seq<char>) -> Seq<char> {
    trim_end_spec(trim_start_spec(s))
}

/// The string without its leading `@` signs.
pub open spec fn strip_ats_spec(s: Seq<char>) -> Seq<char>
    decreases s.len(),
{
    if s.len() > 0 && s[0] == '@' {
        strip_ats_spec(s.drop_first())
    } else {
        s
    }
}

/// The characters of the vector from `from` (inclusive) to `to`
/// (exclusive).
pub fn subrange_chars(v: &Vec<char>, from: usize, to: usize) -> (r: Vec<char>)
    requires
        from <= to <= v@.len(),
    ensures
        r@ == v@.subrange(from as int, to as int),
{
    let mut r: Vec<char> = Vec::new();
    let mut i: usize = from;
    while i < to
        invariant
            from <= i <= to <= v@.len(),
            r@ == v@.subrange(from as int, i as int),
        decreases to - i,
    {
        r.push(v[i]);
        i = i + 1;
        proof {
            assert(r@ =~= v@.subrange(from as int, i as int));
        }
    }
    r
}

/// The position of the first whitespace character at or after `i`, or the
/// length when there is none.
pub open spec fn first_ws_from(s: Seq<char>, i: int) -> int
    decreases s.len() - i,
{
    if i < 0 || i >= s.len() {
        s.len() as int
    } else if is_space(s[i]) {
        i
    } else {
        first_ws_from(s, i + 1)
    }
}

/// Find the first whitespace character at or after `from`.
pub fn find_ws(v: &Vec<char>, from: usize) -> (r: usize)
    requires
        from <= v@.len(),
    ensures
        r == first_ws_from(v@, from as int),
        from <= r <= v@.len(),
{
    let n: usize = v.len();
    let mut i: usize = from;
    while i < n && !whitespace_char(v[i])
        invariant
            from <= i <= n,
            n == v@.len(),
            first_ws_from(v@, from as int) == first_ws_from(v@, i as int),
        decreases n - i,
    {
        i = i + 1;
    }
    proof {
        if i < n {
            assert(first_ws_from(v@, i as int) == i);
        }
    }
    i
}

/// The text trimmed of surrounding whitespace.
pub fn trim_ws(s: &str) -> (r: String)
    ensures
        r@ == trim_spec(s@),
{
    let v = chars_vec(s);
    let n: usize = v.len();
    let mut start: usize = 0;
    proof {
        assert(s@.skip(0) =~= s@);
    }
    while start < n && whitespace_char(v[start])
        invariant
            0 <= start <= n,
            n == v@.len(),
            v@ == s@,
            trim_start_spec(s@) == trim_start_spec(s@.skip(start as int)),
        decreases n - start,
    {
        proof {
            assert(s@.skip(start as int)[0] == s@[start as int]);
            assert(s@.skip(start as int).drop_first() =~= s@.skip(start + 1));
        }
        start = start + 1;
    }
    proof {
        if start < n {
            assert(!is_space(s@.skip(start as int)[0]));
        }
        assert(trim_start_spec(s@) =~= s@.skip(start as int));
    }
    let mut end: usize = n;
    while end > start && whitespace_char(v[end - 1])
        invariant
            start <= end <= n,
            n == v@.len(),
            v@ == s@,
            trim_start_spec(s@) == s@.skip(start as int),
            trim_end_spec(s@.skip(start as int)) == trim_end_spec(
                s@.subrange(start as int, end as int),
            ),
        decreases end,
    {
        proof {
            let cur = s@.subrange(start as int, end as int);
            assert(cur.last() == s@[end - 1]);
            assert(cur.drop_last() =~= s@.subrange(start as int, end - 1));
        }
        end = end - 1;
    }
    proof {
        let cur = s@.subrange(start as int, end as int);
        if end > start {
            assert(!is_space(cur.last()));
        }
        assert(trim_end_spec(cur) =~= cur);
        assert(s@.skip(start as int) =~= s@.subrange(start as int, n as int));
    }
    let out = subrange_chars(&v, start, end);
    string_from_chars(&out)
}

/// The argument of a moderation command: the text trimmed of surrounding
/// whitespace and of leading `@` signs.
pub fn clean_target(s: &str) -> (r: String)
    ensures
        r@ == strip_ats_spec(trim_spec(s@)),
{
    let v = chars_vec(s);
    let n: usize = v.len();
    let mut start: usize = 0;
    proof {
        assert(s@.skip(0) =~= s@);
    }
    while start < n && whitespace_char(v[start])
        invariant
            0 <= start <= n,
            n == v@.len(),
            v@ == s@,
            trim_start_spec(s@) == trim_start_spec(s@.skip(start as int)),
        decreases n - start,
    {
        proof {
            assert(s@.skip(start as int)[0] == s@[start as int]);
            assert(s@.skip(start as int).drop_first() =~= s@.skip(start + 1));
        }
        start = start + 1;
    }
    proof {
        if start < n {
            assert(!is_space(s@.skip(start as int)[0]));
        }
        assert(trim_start_spec(s@) =~= s@.skip(start as int));
    }
    let mut end: usize = n;
    while end > start && whitespace_char(v[end - 1])
        invariant
            start <= end <= n,
            n == v@.len(),
            v@ == s@,
            trim_start_spec(s@) == s@.skip(start as int),
            trim_end_spec(s@.skip(start as int)) == trim_end_spec(
                s@.subrange(start as int, end as int),
            ),
        decreases end,
    {
        proof {
            let cur = s@.subrange(start as int, end as int);
            assert(cur.last() == s@[end - 1]);
            assert(cur.drop_last() =~= s@.subrange(start as int, end - 1));
        }
        end = end - 1;
    }
    proof {
        let cur = s@.subrange(start as int, end as int);
        if end > start {
            assert(!is_space(cur.last()));
        }
        assert(trim_end_spec(cur) =~= cur);
        assert(s@.skip(start as int) =~= s@.subrange(start as int, n as int));
    }
    let mut at: usize = start;
    while at < end && v[at] == '@'
        invariant
            start <= at <= end <= n,
            n == v@.len(),
            v@ == s@,
            trim_spec(s@) == s@.subrange(start as int, end as int),
            strip_ats_spec(s@.subrange(start as int, end as int)) == strip_ats_spec(
                s@.subrange(at as int, end as int),
            ),
        decreases end - at,
    {
        proof {
            let cur = s@.subrange(at as int, end as int);
            assert(cur[0] == s@[at as int]);
            assert(cur.drop_first() =~= s@.subrange(at + 1, end as int));
        }
        at = at + 1;
    }
    proof {
        let cur = s@.subrange(at as int, end as int);
        if at < end {
            assert(cur[0] == s@[at as int]);
            assert(cur[0] != '@');
        }
        assert(strip_ats_spec(cur) =~= cur);
    }
    let out = subrange_chars(&v, at, end);
    string_from_chars(&out)
}

/// The string with the given suffix removed, or unchanged when it does
/// not end with it.
pub fn remove_suffix<'a>(s: &'a str, suffix: &str) -> (r: &'a str)
    ensures
        r@ == (if suffix_of(s@, suffix@) {
            s@.take(s@.len() - suffix@.len())
        } else {
            s@
        }),
{
    let sv = chars_vec(s);
    let fv = chars_vec(suffix);
    if fv.len() > sv.len() {
        return s;
    }
    let start: usize = sv.len() - fv.len();
    if check_match_at(&sv, &fv, start) {
        s.substring_char(0, start)
    } else {
        s
    }
}

/// The string with the given prefix removed, or unchanged when it does
/// not start with it.
pub fn remove_prefix<'a>(s: &'a str, prefix: &str) -> (r: &'a str)
    ensures
        r@ == (if prefix_of(s@, prefix@) {
            s@.skip(prefix@.len() as int)
        } else {
            s@
        }),
{
    let sv = chars_vec(s);
    let pv = chars_vec(prefix);
    if pv.len() > sv.len() {
        return s;
    }
    if check_match_at(&sv, &pv, 0) {
        s.substring_char(pv.len(), sv.len())
    } else {
        s
    }
}

} // verus!
