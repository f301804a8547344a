//! The styled-content tree: nested formatting produced by the markup
//! scraper, with the flattening operations the core reads it through.

use vstd::prelude::*;

verus! {

/// A terminal color as the core models it.
#[derive(Debug, Clone, Copy, PartialEq, Eq, Structural)]
pub enum Color {
    White,
    Red,
    Rgb(u8, u8, u8),
}

/// A tree of nested formatting: a styled node with children, a text leaf,
/// or nothing. Children are stored in reverse display order, as the
/// scraper builds them; the flattening operations walk them from the last
/// to the first.
#[derive(Debug, PartialEq)]
pub enum StyledText {
    Styled(Color, Vec<StyledText>),
    Text(String),
    Empty,
}

/// Structural equality of two trees, with text leaves compared by their
/// characters.
pub open spec fn st_eq(a: StyledText, b: StyledText) -> bool
    decreases a,
{
    match (a, b) {
        (StyledText::Text(x), StyledText::Text(y)) => x@ == y@,
        (StyledText::Empty, StyledText::Empty) => true,
        (StyledText::Styled(c1, v1), StyledText::Styled(c2, v2)) => {
            &&& c1 == c2
            &&& v1@.len() == v2@.len()
            &&& forall|i: int| 0 <= i < v1@.len() ==> st_eq(#[trigger] v1@[i], v2@[i])
        },
        _ => false,
    }
}

/// The plain text of the tree: the concatenation of its text leaves in
/// display order (children from last to first).
pub open spec fn text_of(t: StyledText) -> Seq<char>
    decreases t,
{
    match t {
        StyledText::Text(s) => s@,
        StyledText::Empty => Seq::<char>::empty(),
        StyledText::Styled(_, v) => text_of_children(v@, v@.len() as int),
    }
}

/// The concatenated text of `children[n-1], ..., children[0]`.
pub open spec fn text_of_children(children: Seq<StyledText>, n: int) -> Seq<char>
    decreases children, n,
{
    if n <= 0 || n > children.len() {
        Seq::<char>::empty()
    } else {
        text_of(children[n - 1]) + text_of_children(children, n - 1)
    }
}

fn st_children_eq(a: &Vec<StyledText>, b: &Vec<StyledText>, n: usize) -> (r: bool)
    requires
        n <= a@.len(),
        n <= b@.len(),
    ensures
        r <==> (forall|i: int| 0 <= i < n ==> st_eq(#[trigger] a@[i], b@[i])),
    decreases a, n,
{
    if n == 0 {
        true
    } else {
        if st_text_eq(&a[n - 1], &b[n - 1]) {
            st_children_eq(a, b, n - 1)
        } else {
            false
        }
    }
}

/// Decide structural tree equality.
pub fn st_text_eq(a: &StyledText, b: &StyledText) -> (r: bool)
    ensures
        r == st_eq(*a, *b),
    decreases a,
{
    match (a, b) {
        (StyledText::Text(x), StyledText::Text(y)) => crate::strutil::str_eq(
            x.as_str(),
            y.as_str(),
        ),
        (StyledText::Empty, StyledText::Empty) => true,
        (StyledText::Styled(c1, v1), StyledText::Styled(c2, v2)) => {
            if *c1 == *c2 && v1.len() == v2.len() {
                st_children_eq(v1, v2, v1.len())
            } else {
                false
            }
        },
        _ => false,
    }
}

/// Structural tree equality holds of every tree and itself.
pub proof fn lemma_st_eq_refl(a: StyledText)
    ensures
        st_eq(a, a),
    decreases a,
{
    match a {
        StyledText::Styled(c, v) => {
            assert forall|i: int| 0 <= i < v@.len() implies st_eq(#[trigger] v@[i], v@[i]) by {
                lemma_st_eq_refl(v@[i]);
            }
        },
        _ => {},
    }
}

/// The flat colored spans of the tree in display order: a text leaf is a
/// span of the inherited color, a styled node hands its own color down to
/// its children, walked from the last to the first.
pub open spec fn spans_of(t: StyledText, inherited: Color) -> Seq<(Color, Seq<char>)>
    decreases t,
{
    match t {
        StyledText::Text(s) => seq![(inherited, s@)],
        StyledText::Empty => Seq::<(Color, Seq<char>)>::empty(),
        StyledText::Styled(c, v) => spans_of_children(v@, v@.len() as int, c),
    }
}

/// The concatenated spans of `children[n-1], ..., children[0]`, each under
/// color `c`.
pub open spec fn spans_of_children(children: Seq<StyledText>, n: int, c: Color) -> Seq<
    (Color, Seq<char>),
>
    decreases children, n,
{
    if n <= 0 || n > children.len() {
        Seq::<(Color, Seq<char>)>::empty()
    } else {
        spans_of(children[n - 1], c) + spans_of_children(children, n - 1, c)
    }
}

/// The view of a produced span list: each string by its characters.
pub open spec fn spans_view(r: Seq<(Color, String)>) -> Seq<(Color, Seq<char>)> {
    r.map_values(|p: (Color, String)| (p.0, p.1@))
}

fn text_children(v: &Vec<StyledText>, n: usize) -> (r: String)
    requires
        n <= v@.len(),
    ensures
        r@ == text_of_children(v@, n as int),
    decreases v, n,
{
    if n == 0 {
        String::new()
    } else {
        let mut s = v[n - 1].text();
        let rest = text_children(v, n - 1);
        s.append(rest.as_str());
        s
    }
}

fn spans_children(v: &Vec<StyledText>, n: usize, c: Color) -> (r: Vec<(Color, String)>)
    requires
        n <= v@.len(),
    ensures
        spans_view(r@) == spans_of_children(v@, n as int, c),
    decreases v, n,
{
    if n == 0 {
        let r: Vec<(Color, String)> = Vec::new();
        proof {
            assert(spans_view(r@) =~= spans_of_children(v@, 0, c));
        }
        r
    } else {
        let mut r = v[n - 1].colored_text_with(c);
        let mut rest = spans_children(v, n - 1, c);
        let ghost r0 = r@;
        let ghost rest0 = rest@;
        r.append(&mut rest);
        proof {
            assert(r@ == r0 + rest0);
            assert(spans_view(r0 + rest0) =~= spans_view(r0) + spans_view(rest0));
        }
        r
    }
}

impl StyledText {
    /// The plain text of the tree.
    pub fn text(&self) -> (r: String)
        ensures
            r@ == text_of(*self),
        decreases self,
    {
        match self {
            StyledText::Text(s) => s.clone(),
            StyledText::Empty => String::new(),
            StyledText::Styled(_, v) => text_children(v, v.len()),
        }
    }

    /// The flat colored spans of the tree under an inherited color.
    pub fn colored_text_with(&self, inherited: Color) -> (r: Vec<(Color, String)>)
        ensures
            spans_view(r@) == spans_of(*self, inherited),
        decreases self,
    {
        match self {
            StyledText::Text(s) => {
                let mut r: Vec<(Color, String)> = Vec::new();
                r.push((inherited, s.clone()));
                proof {
                    assert(spans_view(r@) =~= spans_of(*self, inherited));
                }
                r
            },
            StyledText::Empty => {
                let r: Vec<(Color, String)> = Vec::new();
                proof {
                    assert(spans_view(r@) =~= spans_of(*self, inherited));
                }
                r
            },
            StyledText::Styled(c, v) => spans_children(v, v.len(), *c),
        }
    }

    /// A vector of the text parts and the color each should be shown in,
    /// starting from white.
    pub fn colored_text(&self) -> (r: Vec<(Color, String)>)
        ensures
            spans_view(r@) == spans_of(*self, Color::White),
    {
        self.colored_text_with(Color::White)
    }
}

/// The text of the last child of a styled node: where the sender's name
/// stands in scraped markup.
pub open spec fn last_text_of(t: StyledText) -> Option<Seq<char>> {
    match t {
        StyledText::Styled(_, v) => if v@.len() > 0 {
            match v@[v@.len() - 1] {
                StyledText::Text(s) => Some(s@),
                _ => None,
            }
        } else {
            None
        },
        _ => None,
    }
}

/// What `get_message` extracts from a scraped message tree: the sender,
/// the private recipient when there is one, and the message body.
pub open spec fn get_message_spec(root: StyledText, tag: Seq<char>) -> Option<
    (Seq<char>, Option<Seq<char>>, Seq<char>),
> {
    match root {
        StyledText::Styled(_, children) => {
            let cs = children@;
            if cs.len() == 0 {
                None
            } else {
                let msg = text_of(cs[0]);
                match cs[cs.len() - 1] {
                    StyledText::Styled(_, inner) => if inner@.len() > 0 {
                        match inner@[inner@.len() - 1] {
                            StyledText::Text(t) => Some((t@, None, msg)),
                            _ => None,
                        }
                    } else {
                        None
                    },
                    StyledText::Text(t) => if t@ == tag {
                        if cs.len() >= 2 {
                            match last_text_of(cs[cs.len() - 2]) {
                                Some(from) => Some((from, None, msg)),
                                None => None,
                            }
                        } else {
                            None
                        }
                    } else if t@ == "["@ {
                        if cs.len() >= 2 {
                            match last_text_of(cs[cs.len() - 2]) {
                                Some(from) => if cs.len() > 2 {
                                    match last_text_of(cs[2]) {
                                        Some(to) => Some((from, Some(to), msg)),
                                        None => None,
                                    }
                                } else {
                                    None
                                },
                                None => None,
                            }
                        } else {
                            None
                        }
                    } else {
                        None
                    },
                    StyledText::Empty => None,
                }
            }
        },
        _ => None,
    }
}

/// The view of an extracted message triple.
pub open spec fn msg_triple_view(r: Option<(String, Option<String>, String)>) -> Option<
    (Seq<char>, Option<Seq<char>>, Seq<char>),
> {
    match r {
        None => None,
        Some((from, to, msg)) => Some(
            (
                from@,
                match to {
                    Some(t) => Some(t@),
                    None => None,
                },
                msg@,
            ),
        ),
    }
}

fn last_text(t: &StyledText) -> (r: Option<String>)
    ensures
        match r {
            Some(s) => last_text_of(*t) == Some(s@),
            None => last_text_of(*t) is None,
        },
{
    match t {
        StyledText::Styled(_, v) => {
            if v.len() > 0 {
                match &v[v.len() - 1] {
                    StyledText::Text(s) => Some(s.clone()),
                    _ => None,
                }
            } else {
                None
            }
        },
        _ => None,
    }
}

/// Extract the sender, the private recipient when there is one, and the
/// message body from a scraped message tree.
pub fn get_message(root: &StyledText, members_tag: &str) -> (r: Option<
    (String, Option<String>, String),
>)
    ensures
        msg_triple_view(r) == get_message_spec(*root, members_tag@),
{
    match root {
        StyledText::Styled(_, children) => {
            if children.len() == 0 {
                return None;
            }
            let msg = children[0].text();
            let last_i: usize = children.len() - 1;
            match &children[last_i] {
                StyledText::Styled(_, inner) => {
                    if inner.len() > 0 {
                        match &inner[inner.len() - 1] {
                            StyledText::Text(t) => Some((t.clone(), None, msg)),
                            _ => None,
                        }
                    } else {
                        None
                    }
                },
                StyledText::Text(t) => {
                    if crate::strutil::str_eq(t.as_str(), members_tag) {
                        if children.len() >= 2 {
                            match last_text(&children[children.len() - 2]) {
                                Some(from) => Some((from, None, msg)),
                                None => None,
                            }
                        } else {
                            None
                        }
                    } else if crate::strutil::str_eq(t.as_str(), "[") {
                        if children.len() >= 2 {
                            match last_text(&children[children.len() - 2]) {
                                Some(from) => {
                                    if children.len() > 2 {
                                        match last_text(&children[2]) {
                                            Some(to) => Some((from, Some(to), msg)),
                                            None => None,
                                        }
                                    } else {
                                        None
                                    }
                                },
                                None => None,
                            }
                        } else {
                            None
                        }
                    } else {
                        None
                    }
                },
                StyledText::Empty => None,
            }
        },
        _ => None,
    }
}

/// The name shown for a message: the other side of a private message, or
/// the sender.
pub open spec fn get_username_spec(own: Seq<char>, root: StyledText, tag: Seq<char>) -> Option<
    Seq<char>,
> {
    match get_message_spec(root, tag) {
        Some((from, Some(to), _)) => if from == own {
            Some(to)
        } else {
            Some(from)
        },
        Some((from, None, _)) => Some(from),
        None => None,
    }
}

/// Get the username of the other user (or ours if it is the only one).
pub fn get_username(own_username: &str, root: &StyledText, members_tag: &str) -> (r: Option<
    String,
>)
    ensures
        match r {
            Some(s) => get_username_spec(own_username@, *root, members_tag@) == Some(s@),
            None => get_username_spec(own_username@, *root, members_tag@) is None,
        },
{
    match get_message(root, members_tag) {
        Some((from, Some(to), _)) => {
            if crate::strutil::str_eq(from.as_str(), own_username) {
                Some(to)
            } else {
                Some(from)
            }
        },
        Some((from, None, _)) => Some(from),
        None => None,
    }
}

} // verus!
