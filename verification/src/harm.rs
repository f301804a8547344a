//! Content scoring: a pure function of the message text that yields a
//! severity score between 0 and 100 and, when something was detected, the
//! reason, plus the mapping from score to moderation action.

use vstd::prelude::*;
use crate::strutil::{
    contains_seq, contains_chars, chars_vec, lowercase, lower_of, alphanumeric_char, is_alphanum,
};

verus! {

/// The type of harmful content detected.
#[derive(Debug, Clone, Copy, PartialEq, Eq, Structural)]
pub enum Reason {
    RacialSlur,
    CsabTalk,
    CsabRequest,
}

/// The wording each reason carries in user-visible notices.
pub open spec fn description_spec(r: Reason) -> Seq<char> {
    match r {
        Reason::RacialSlur => "using a racial slur (sorry if this is false)"@,
        Reason::CsabTalk => "referencing child sexual abuse material (sorry if this is false)"@,
        Reason::CsabRequest => "requesting child sexual abuse material (sorry if this is false)"@,
    }
}

impl Reason {
    /// Human-readable wording of the reason, with the false-positive
    /// caveat every detector-triggered notice carries.
    pub fn description(&self) -> (r: &'static str)
        ensures
            r@ == description_spec(*self),
    {
        match self {
            Reason::RacialSlur => "using a racial slur (sorry if this is false)",
            Reason::CsabTalk => "referencing child sexual abuse material (sorry if this is false)",
            Reason::CsabRequest => "requesting child sexual abuse material (sorry if this is false)",
        }
    }
}

/// Result of scoring a message.
pub struct ScoreResult {
    pub score: u32,
    pub reason: Option<Reason>,
}

/// Whether the lower-cased text contains a slur directed at someone: the
/// slur preceded, within a short distance, by "you", "u" or an @-mention.
/// What the directing pattern matches; the result depends on the text
/// alone.
pub uninterp spec fn directed_slur(s: Seq<char>) -> bool;

/// Whether the lower-cased text contains a whole word asking to obtain or
/// share material (send, share, looking, where, has, download, anyone,
/// link, give, provide); the result depends on the text alone.
pub uninterp spec fn request_verb(s: Seq<char>) -> bool;

/// Whether the text holds the slur stem: what the pattern `nigg(?:er|a)`
/// matches, written out as the two substring tests it amounts to.
fn matches_slur_stem(s: &Vec<char>) -> (r: bool)
    ensures
        r == (contains_seq(s@, "nigger"@) || contains_seq(s@, "nigga"@)),
{
    let n1 = chars_vec("nigger");
    let n2 = chars_vec("nigga");
    if contains_chars(s, &n1) {
        true
    } else {
        contains_chars(s, &n2)
    }
}

/// Relies on regex::Regex::is_match with the pattern
/// `(?:you|u|@\S+).{0,20}?nigg(?:er|a)`, which decides whether a slur is
/// directed at someone.
#[verifier::external_body]
fn matches_directed_slur(s: &str) -> (r: bool)
    ensures
        r == directed_slur(s@),
{
    regex::Regex::new(r"(?:you|u|@\S+).{0,20}?nigg(?:er|a)").unwrap().is_match(s)
}

/// Relies on regex::Regex::is_match with the pattern
/// `\b(send|share|looking|where|has|download|anyone|link|give|provide)\b`,
/// which decides whether the text asks for something as a whole word.
#[verifier::external_body]
fn matches_request_verb(s: &str) -> (r: bool)
    ensures
        r == request_verb(s@),
{
    regex::Regex::new(r"\b(send|share|looking|where|has|download|anyone|link|give|provide)\b")
        .unwrap()
        .is_match(s)
}

/// Digit-for-letter substitution used to defeat trivial filter evasion.
pub open spec fn leet(c: char) -> char {
    match c {
        '0' => 'o',
        '1' => 'i',
        '3' => 'e',
        '4' => 'a',
        '5' => 's',
        '7' => 't',
        _ => c,
    }
}

/// The text with every non-alphanumeric character dropped and leetspeak
/// digits substituted.
pub open spec fn normalize_spec(s: Seq<char>) -> Seq<char>
    decreases s.len(),
{
    if s.len() == 0 {
        Seq::<char>::empty()
    } else {
        normalize_spec(s.drop_last()) + (if is_alphanum(s.last()) {
            seq![leet(s.last())]
        } else {
            Seq::<char>::empty()
        })
    }
}

fn leet_char(c: char) -> (r: char)
    ensures
        r == leet(c),
{
    match c {
        '0' => 'o',
        '1' => 'i',
        '3' => 'e',
        '4' => 'a',
        '5' => 's',
        '7' => 't',
        _ => c,
    }
}

/// Executable form of `normalize_spec` over a character vector.
fn normalize_chars(chars: &Vec<char>) -> (r: Vec<char>)
    ensures
        r@ == normalize_spec(chars@),
{
    let n: usize = chars.len();
    let mut out: Vec<char> = Vec::new();
    let mut i: usize = 0;
    proof {
        assert(chars@.take(0) =~= Seq::<char>::empty());
    }
    while i < n
        invariant
            0 <= i <= n,
            n == chars@.len(),
            out@ == normalize_spec(chars@.take(i as int)),
        decreases n - i,
    {
        let ghost pre = out@;
        proof {
            assert(chars@.take(i + 1).drop_last() =~= chars@.take(i as int));
            assert(chars@.take(i + 1).last() == chars@[i as int]);
        }
        if alphanumeric_char(chars[i]) {
            out.push(leet_char(chars[i]));
            proof {
                assert(out@ =~= pre + seq![leet(chars@[i as int])]);
            }
        } else {
            proof {
                assert(out@ =~= pre + Seq::<char>::empty());
            }
        }
        i = i + 1;
    }
    proof {
        assert(chars@.take(n as int) =~= chars@);
    }
    out
}

/// Whether the lower-cased text, or its normalized form, contains the
/// slur stem.
pub open spec fn slur_hit(msg: Seq<char>) -> bool {
    ||| contains_seq(msg, "nigger"@)
    ||| contains_seq(msg, "nigga"@)
    ||| contains_seq(normalize_spec(msg), "nigger"@)
}

/// The fixed list of terms the abuse-material detector looks for.
pub open spec fn csam_terms() -> Seq<Seq<char>> {
    seq![
        "csam"@,
        "childporn"@,
        "pedo"@,
        "chees pizza"@,
        "childsex"@,
        "childsexualabuse"@,
        "cp"@,
    ]
}

/// Whether the lower-cased text, or its normalized form, contains any of
/// the fixed abuse-material terms.
pub open spec fn csam_hit(msg: Seq<char>) -> bool {
    exists|k: int|
        0 <= k < csam_terms().len() && (contains_seq(msg, csam_terms()[k]) || contains_seq(
            normalize_spec(msg),
            csam_terms()[k],
        ))
}

/// The severity score of the lower-cased text: the maximum over the two
/// detectors, each detector scoring by whether its aggravating pattern
/// also fires.
pub open spec fn spec_score(msg: Seq<char>) -> int {
    let slur_part: int = if slur_hit(msg) {
        if directed_slur(msg) {
            70
        } else {
            40
        }
    } else {
        0
    };
    let csam_part: int = if csam_hit(msg) {
        if request_verb(msg) {
            90
        } else {
            50
        }
    } else {
        0
    };
    if slur_part >= csam_part {
        slur_part
    } else {
        csam_part
    }
}

/// The reason reported for the lower-cased text: the first detector that
/// fired, in detection order — a slur first, then an explicit request for
/// abuse material, then mere abuse-material talk.
pub open spec fn spec_reason(msg: Seq<char>) -> Option<Reason> {
    if slur_hit(msg) {
        Some(Reason::RacialSlur)
    } else if csam_hit(msg) && request_verb(msg) {
        Some(Reason::CsabRequest)
    } else if csam_hit(msg) {
        Some(Reason::CsabTalk)
    } else {
        None
    }
}

fn term_hit(msg_chars: &Vec<char>, norm_chars: &Vec<char>, term: &str) -> (r: bool)
    ensures
        r == (contains_seq(msg_chars@, term@) || contains_seq(norm_chars@, term@)),
{
    let tv = chars_vec(term);
    if contains_chars(msg_chars, &tv) {
        true
    } else {
        contains_chars(norm_chars, &tv)
    }
}

/// Return a severity score between 0 and 100 based on harmful content,
/// and the reason when content is detected. The score and reason are
/// exactly `spec_score` and `spec_reason` of the lower-cased text.
pub fn score_message(message: &str) -> (r: ScoreResult)
    ensures
        r.score == spec_score(lower_of(message@)),
        r.reason == spec_reason(lower_of(message@)),
        0 <= r.score <= 100,
{
    let msg = lowercase(message);
    let msg_chars = chars_vec(msg.as_str());
    let norm_chars = normalize_chars(&msg_chars);

    let slur = {
        if matches_slur_stem(&msg_chars) {
            true
        } else {
            let needle = chars_vec("nigger");
            contains_chars(&norm_chars, &needle)
        }
    };
    let csam = {
        let ghost terms = csam_terms();
        let h0 = term_hit(&msg_chars, &norm_chars, "csam");
        let h1 = term_hit(&msg_chars, &norm_chars, "childporn");
        let h2 = term_hit(&msg_chars, &norm_chars, "pedo");
        let h3 = term_hit(&msg_chars, &norm_chars, "chees pizza");
        let h4 = term_hit(&msg_chars, &norm_chars, "childsex");
        let h5 = term_hit(&msg_chars, &norm_chars, "childsexualabuse");
        let h6 = term_hit(&msg_chars, &norm_chars, "cp");
        let any = h0 || h1 || h2 || h3 || h4 || h5 || h6;
        proof {
            if any {
                if h0 {
                    assert(csam_hit(msg_chars@)) by {
                        assert(csam_terms()[0] == "csam"@);
                    }
                } else if h1 {
                    assert(csam_hit(msg_chars@)) by {
                        assert(csam_terms()[1] == "childporn"@);
                    }
                } else if h2 {
                    assert(csam_hit(msg_chars@)) by {
                        assert(csam_terms()[2] == "pedo"@);
                    }
                } else if h3 {
                    assert(csam_hit(msg_chars@)) by {
                        assert(csam_terms()[3] == "chees pizza"@);
                    }
                } else if h4 {
                    assert(csam_hit(msg_chars@)) by {
                        assert(csam_terms()[4] == "childsex"@);
                    }
                } else if h5 {
                    assert(csam_hit(msg_chars@)) by {
                        assert(csam_terms()[5] == "childsexualabuse"@);
                    }
                } else {
                    assert(csam_hit(msg_chars@)) by {
                        assert(csam_terms()[6] == "cp"@);
                    }
                }
            } else {
                assert(forall|k: int| 0 <= k < csam_terms().len() ==> !(contains_seq(
                    msg_chars@,
                    csam_terms()[k],
                ) || contains_seq(normalize_spec(msg_chars@), csam_terms()[k]))) by {
                    assert(csam_terms()[0] == "csam"@);
                    assert(csam_terms()[1] == "childporn"@);
                    assert(csam_terms()[2] == "pedo"@);
                    assert(csam_terms()[3] == "chees pizza"@);
                    assert(csam_terms()[4] == "childsex"@);
                    assert(csam_terms()[5] == "childsexualabuse"@);
                    assert(csam_terms()[6] == "cp"@);
                }
            }
        }
        any
    };

    let mut score: u32 = 0;
    let mut reason: Option<Reason> = None;
    if slur {
        if matches_directed_slur(msg.as_str()) {
            score = 70;
        } else {
            score = 40;
        }
        reason = Some(Reason::RacialSlur);
    }
    if csam {
        if matches_request_verb(msg.as_str()) {
            if score < 90 {
                score = 90;
            }
            if reason.is_none() {
                reason = Some(Reason::CsabRequest);
            }
        } else {
            if score < 50 {
                score = 50;
            }
            if reason.is_none() {
                reason = Some(Reason::CsabTalk);
            }
        }
    }
    ScoreResult { score, reason }
}

/// The action owed for a severity score: nothing below 40, a warning up
/// to 92, a kick up to 99, and a ban at 100 and above.
pub open spec fn action_spec(score: u32) -> Option<Action> {
    if score <= 39 {
        None
    } else if score <= 92 {
        Some(Action::Warn)
    } else if score <= 99 {
        Some(Action::Kick)
    } else {
        Some(Action::Ban)
    }
}

/// Determine which action should be taken based on the score.
pub fn action_from_score(score: u32) -> (r: Option<Action>)
    ensures
        r == action_spec(score),
{
    if score <= 39 {
        None
    } else if score <= 92 {
        Some(Action::Warn)
    } else if score <= 99 {
        Some(Action::Kick)
    } else {
        Some(Action::Ban)
    }
}

#[derive(Debug, Clone, Copy, PartialEq, Eq, Structural)]
pub enum Action {
    Warn,
    Kick,
    Ban,
}

} // verus!
