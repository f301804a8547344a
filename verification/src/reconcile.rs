//! Reconciliation: merging a fresh snapshot into the ordered message
//! history. Both sequences are ordered by descending recency; entries of
//! the history that the snapshot no longer shows are tombstoned, never
//! removed, and the result is capped to the most recent thousand entries.

use vstd::prelude::*;
use crate::message::{Message, ts_of};
use crate::message::parse_timestamp;
use crate::styled::{st_eq, st_text_eq, lemma_st_eq_refl};

verus! {

/// How many history entries are kept after a merge.
pub const HISTORY_CAP: usize = 1000;

/// A message marked as tombstoned.
pub open spec fn mark_deleted(m: Message) -> Message {
    Message { deleted: true, ..m }
}

/// Whether the run of entries with the new message's timestamp, starting
/// right after the cursor, holds an entry with exactly its content (the
/// same-second flood case).
pub open spec fn run_found(old: Seq<Message>, n: Message) -> bool {
    exists|x: int|
        1 <= x < old.len() && (forall|y: int| 1 <= y <= x ==> ts_of(#[trigger] old[y]) == ts_of(n))
            && st_eq(old[x].text, n.text)
}

/// The merge of a snapshot into the history, both ordered by descending
/// recency. Walking both from the newest: a history entry newer than the
/// snapshot head is tombstoned; a snapshot head newer than the history is
/// inserted; at equal timestamps, a content match (directly or within the
/// same-timestamp run) keeps the history entry, and otherwise the snapshot
/// head is inserted in front of it.
pub open spec fn merge(new: Seq<Message>, old: Seq<Message>) -> Seq<Message>
    decreases new.len(), old.len(),
{
    if new.len() == 0 {
        old
    } else if old.len() == 0 {
        seq![new[0]] + merge(new.drop_first(), old)
    } else {
        let n = new[0];
        let o = old[0];
        if ts_of(n) < ts_of(o) {
            seq![mark_deleted(o)] + merge(new, old.drop_first())
        } else if ts_of(n) > ts_of(o) {
            seq![n] + merge(new.drop_first(), old)
        } else if st_eq(n.text, o.text) {
            seq![o] + merge(new.drop_first(), old.drop_first())
        } else if run_found(old, n) {
            seq![o] + merge(new.drop_first(), old.drop_first())
        } else {
            seq![n, o] + merge(new.drop_first(), old.drop_first())
        }
    }
}

/// The merge result capped to the newest `HISTORY_CAP` entries.
pub open spec fn cap_history(s: Seq<Message>) -> Seq<Message> {
    if s.len() <= HISTORY_CAP {
        s
    } else {
        s.take(HISTORY_CAP as int)
    }
}

/// Merge a snapshot into the history in place: the history becomes the
/// merge of the two, truncated to the newest thousand entries.
pub fn update_messages(new_messages: Vec<Message>, messages: &mut Vec<Message>)
    ensures
        final(messages)@ == cap_history(merge(new_messages@, old(messages)@)),
        final(messages)@.len() <= HISTORY_CAP,
{
    let ghost new0 = new_messages@;
    let ghost old0 = messages@;
    let mut old_rem: Vec<Message> = Vec::new();
    core::mem::swap(messages, &mut old_rem);
    let mut new_rem = new_messages;
    let mut out: Vec<Message> = Vec::new();
    proof {
        assert(out@ + merge(new_rem@, old_rem@) =~= merge(new0, old0));
    }
    while new_rem.len() > 0
        invariant
            merge(new0, old0) == out@ + merge(new_rem@, old_rem@),
        decreases new_rem@.len(),
    {
        let ghost new_pre = new_rem@;
        let n = new_rem.remove(0);
        let ghost new_cur = seq![n] + new_rem@;
        proof {
            assert(new_cur =~= new_pre);
            assert(new_cur[0] == n);
            assert(new_cur.drop_first() =~= new_rem@);
        }
        let n_ts = parse_timestamp(n.date.as_str());
        // Tombstone history entries strictly newer than the snapshot head.
        while old_rem.len() > 0 && n_ts < parse_timestamp(old_rem[0].date.as_str())
            invariant
                n_ts == ts_of(n),
                new_cur == seq![n] + new_rem@,
                new_cur[0] == n,
                new_cur.drop_first() == new_rem@,
                merge(new0, old0) == out@ + merge(new_cur, old_rem@),
            decreases old_rem@.len(),
        {
            let ghost old_cur = old_rem@;
            let ghost out_pre = out@;
            let mut o = old_rem.remove(0);
            o.deleted = true;
            out.push(o);
            proof {
                assert(ts_of(new_cur[0]) < ts_of(old_cur[0]));
                assert(o == mark_deleted(old_cur[0]));
                assert(merge(new_cur, old_cur) == seq![mark_deleted(old_cur[0])] + merge(
                    new_cur,
                    old_cur.drop_first(),
                ));
                assert(old_rem@ =~= old_cur.drop_first());
                assert(out_pre + merge(new_cur, old_cur) =~= out@ + merge(new_cur, old_rem@));
            }
        }
        let ghost old_cur = old_rem@;
        let ghost out_pre = out@;
        if old_rem.len() == 0 {
            out.push(n);
            proof {
                assert(merge(new_cur, old_cur) == seq![n] + merge(new_rem@, old_cur));
                assert(out_pre + merge(new_cur, old_cur) =~= out@ + merge(new_rem@, old_rem@));
            }
        } else {
            let o_ts = parse_timestamp(old_rem[0].date.as_str());
            if n_ts > o_ts {
                out.push(n);
                proof {
                    assert(merge(new_cur, old_cur) == seq![n] + merge(new_rem@, old_cur));
                    assert(out_pre + merge(new_cur, old_cur) =~= out@ + merge(new_rem@, old_rem@));
                }
            } else {
                // Equal timestamps: the tombstoning loop stopped, so the
                // head is not older either.
                assert(n_ts == o_ts);
                if st_text_eq(&old_rem[0].text, &n.text) {
                    proof {
                        assert(st_eq(old_cur[0].text, n.text));
                        lemma_st_eq_symm(old_cur[0].text, n.text);
                    }
                    let o = old_rem.remove(0);
                    out.push(o);
                    proof {
                        assert(merge(new_cur, old_cur) == seq![old_cur[0]] + merge(
                            new_rem@,
                            old_cur.drop_first(),
                        ));
                        assert(old_rem@ =~= old_cur.drop_first());
                        assert(out_pre + merge(new_cur, old_cur) =~= out@ + merge(
                            new_rem@,
                            old_rem@,
                        ));
                    }
                } else {
                    proof {
                        lemma_st_eq_symm_neg(old_cur[0].text, n.text);
                    }
                    // Scan the same-timestamp run for an exact content match.
                    let mut x: usize = 1;
                    let mut found = false;
                    while x < old_rem.len() && !found && parse_timestamp(
                        old_rem[x].date.as_str(),
                    ) == n_ts
                        invariant
                            1 <= x,
                            n_ts == ts_of(n),
                            old_rem@ == old_cur,
                            found ==> (1 <= x < old_cur.len() && (forall|y: int|
                                1 <= y <= x ==> ts_of(#[trigger] old_cur[y]) == ts_of(n))
                                && st_eq(old_cur[x as int].text, n.text)),
                            !found ==> (forall|y: int|
                                1 <= y < x ==> ts_of(#[trigger] old_cur[y]) == ts_of(n) && !st_eq(
                                    old_cur[y].text,
                                    n.text,
                                )),
                        decreases old_rem@.len() - x, (if found {
                            0int
                        } else {
                            1int
                        }),
                    {
                        if st_text_eq(&old_rem[x].text, &n.text) {
                            proof {
                                lemma_st_eq_symm(old_cur[x as int].text, n.text);
                            }
                            found = true;
                        } else {
                            proof {
                                lemma_st_eq_symm_neg(old_cur[x as int].text, n.text);
                            }
                            x = x + 1;
                        }
                    }
                    proof {
                        if found {
                            assert(run_found(old_cur, n));
                        } else {
                            assert forall|xx: int|
                                1 <= xx < old_cur.len() && (forall|y: int|
                                    1 <= y <= xx ==> ts_of(#[trigger] old_cur[y]) == ts_of(
                                        n,
                                    )) implies !st_eq(old_cur[xx].text, n.text) by {
                                if xx < x {
                                } else {
                                    assert(x < old_cur.len());
                                    assert(ts_of(old_cur[x as int]) == ts_of(n));
                                    assert(!st_eq(old_cur[xx].text, n.text) || ts_of(
                                        old_cur[x as int],
                                    ) != ts_of(n) || xx < x) by {
                                        if xx >= x && st_eq(old_cur[xx].text, n.text) {
                                            assert(ts_of(old_cur[x as int]) == ts_of(n));
                                        }
                                    }
                                }
                            }
                            assert(!run_found(old_cur, n));
                        }
                    }
                    if found {
                        let o = old_rem.remove(0);
                        out.push(o);
                        proof {
                            assert(merge(new_cur, old_cur) == seq![old_cur[0]] + merge(
                                new_rem@,
                                old_cur.drop_first(),
                            ));
                            assert(old_rem@ =~= old_cur.drop_first());
                            assert(out_pre + merge(new_cur, old_cur) =~= out@ + merge(
                                new_rem@,
                                old_rem@,
                            ));
                        }
                    } else {
                        out.push(n);
                        let o = old_rem.remove(0);
                        out.push(o);
                        proof {
                            assert(merge(new_cur, old_cur) == seq![new_cur[0], old_cur[0]] + merge(
                                new_rem@,
                                old_cur.drop_first(),
                            ));
                            assert(old_rem@ =~= old_cur.drop_first());
                            assert(out_pre + merge(new_cur, old_cur) =~= out@ + merge(
                                new_rem@,
                                old_rem@,
                            ));
                        }
                    }
                }
            }
        }
    }
    proof {
        assert(new_rem@.len() == 0);
        assert(merge(new_rem@, old_rem@) == old_rem@);
    }
    out.append(&mut old_rem);
    out.truncate(HISTORY_CAP);
    proof {
        let m = merge(new0, old0);
        if m.len() > HISTORY_CAP {
            assert(out@ =~= m.take(HISTORY_CAP as int));
        } else {
            assert(out@ =~= m);
        }
    }
    *messages = out;
}

/// Structural tree equality is symmetric (the positive direction).
proof fn lemma_st_eq_symm(a: crate::styled::StyledText, b: crate::styled::StyledText)
    requires
        st_eq(a, b),
    ensures
        st_eq(b, a),
    decreases a,
{
    match (a, b) {
        (crate::styled::StyledText::Styled(c1, v1), crate::styled::StyledText::Styled(c2, v2)) => {
            assert forall|i: int| 0 <= i < v2@.len() implies st_eq(#[trigger] v2@[i], v1@[i]) by {
                assert(st_eq(v1@[i], v2@[i]));
                lemma_st_eq_symm(v1@[i], v2@[i]);
            }
        },
        _ => {},
    }
}

/// Structural tree equality is symmetric (the negative direction).
proof fn lemma_st_eq_symm_neg(a: crate::styled::StyledText, b: crate::styled::StyledText)
    requires
        !st_eq(a, b),
    ensures
        !st_eq(b, a),
{
    if st_eq(b, a) {
        lemma_st_eq_symm(b, a);
    }
}

/// The timestamps of the snapshot and the history are compatible: any
/// snapshot entry and history entry with the same timestamp carry the
/// same content.
pub open spec fn ts_compatible(new: Seq<Message>, old: Seq<Message>) -> bool {
    forall|i: int, j: int|
        0 <= i < new.len() && 0 <= j < old.len() && ts_of(#[trigger] new[i]) == ts_of(
            #[trigger] old[j],
        ) ==> st_eq(new[i].text, old[j].text)
}

/// Reconciliation is idempotent end to end: when the first merge fits the
/// history cap (so nothing is truncated away), feeding the same snapshot a
/// second time leaves the capped history exactly as it was — no new
/// insertions and no additional tombstones — under the same compatibility
/// hypothesis as the merge-level law.
pub proof fn lemma_update_idempotent(new: Seq<Message>, old: Seq<Message>)
    requires
        ts_compatible(new, old),
        merge(new, old).len() <= HISTORY_CAP,
    ensures
        cap_history(merge(new, cap_history(merge(new, old)))) == cap_history(merge(new, old)),
{
    lemma_merge_idempotent(new, old);
}

/// Reconciliation is idempotent: merging the same snapshot a second time
/// changes nothing — no new insertions and no additional tombstones —
/// provided the snapshot and the history carry the same content wherever
/// their timestamps collide.
pub proof fn lemma_merge_idempotent(new: Seq<Message>, old: Seq<Message>)
    requires
        ts_compatible(new, old),
    ensures
        merge(new, merge(new, old)) == merge(new, old),
    decreases new.len(), old.len(),
{
    if new.len() == 0 {
        assert(merge(new, old) == old);
    } else if old.len() == 0 {
        let n = new[0];
        let m = merge(new, old);
        assert(m == seq![n] + merge(new.drop_first(), old));
        assert(m.len() > 0 && m[0] == n);
        lemma_st_eq_refl(n.text);
        assert(ts_compatible(new.drop_first(), old)) by {
            assert(old.len() == 0);
        }
        lemma_merge_idempotent(new.drop_first(), old);
        assert(m.drop_first() =~= merge(new.drop_first(), old));
        assert(merge(new, m) == seq![m[0]] + merge(new.drop_first(), m.drop_first()));
        assert(merge(new, m) =~= m);
    } else {
        let n = new[0];
        let o = old[0];
        let m = merge(new, old);
        if ts_of(n) < ts_of(o) {
            assert(m == seq![mark_deleted(o)] + merge(new, old.drop_first()));
            assert(ts_of(mark_deleted(o)) == ts_of(o));
            assert(ts_compatible(new, old.drop_first())) by {
                assert(forall|i: int, j: int|
                    0 <= i < new.len() && 0 <= j < old.drop_first().len() && ts_of(
                        #[trigger] new[i],
                    ) == ts_of(#[trigger] old.drop_first()[j]) ==> st_eq(
                        new[i].text,
                        old.drop_first()[j].text,
                    ));
            }
            lemma_merge_idempotent(new, old.drop_first());
            assert(m.drop_first() =~= merge(new, old.drop_first()));
            assert(mark_deleted(mark_deleted(o)) == mark_deleted(o));
            assert(merge(new, m) == seq![mark_deleted(m[0])] + merge(new, m.drop_first()));
            assert(merge(new, m) =~= m);
        } else if ts_of(n) > ts_of(o) {
            assert(m == seq![n] + merge(new.drop_first(), old));
            lemma_st_eq_refl(n.text);
            assert(ts_compatible(new.drop_first(), old)) by {
                assert(forall|i: int, j: int|
                    0 <= i < new.drop_first().len() && 0 <= j < old.len() && ts_of(
                        #[trigger] new.drop_first()[i],
                    ) == ts_of(#[trigger] old[j]) ==> st_eq(
                        new.drop_first()[i].text,
                        old[j].text,
                    ));
            }
            lemma_merge_idempotent(new.drop_first(), old);
            assert(m.len() > 0 && m[0] == n);
            assert(m.drop_first() =~= merge(new.drop_first(), old));
            assert(merge(new, m) == seq![m[0]] + merge(new.drop_first(), m.drop_first()));
            assert(merge(new, m) =~= m);
        } else {
            // Equal head timestamps: compatibility makes the contents
            // equal, so the merge keeps the history entry.
            assert(st_eq(n.text, o.text));
            assert(m == seq![o] + merge(new.drop_first(), old.drop_first()));
            assert(ts_of(m[0]) == ts_of(n));
            assert(ts_compatible(new.drop_first(), old.drop_first())) by {
                assert(forall|i: int, j: int|
                    0 <= i < new.drop_first().len() && 0 <= j < old.drop_first().len() && ts_of(
                        #[trigger] new.drop_first()[i],
                    ) == ts_of(#[trigger] old.drop_first()[j]) ==> st_eq(
                        new.drop_first()[i].text,
                        old.drop_first()[j].text,
                    ));
            }
            lemma_merge_idempotent(new.drop_first(), old.drop_first());
            assert(m.drop_first() =~= merge(new.drop_first(), old.drop_first()));
            assert(merge(new, m) == seq![m[0]] + merge(new.drop_first(), m.drop_first()));
            assert(merge(new, m) =~= m);
        }
    }
}

} // verus!
