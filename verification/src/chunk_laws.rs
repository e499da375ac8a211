//! Where a text is cut into chunks, said of the characters at the cuts.

use vstd::prelude::*;

use crate::speech_text;
use crate::text;
use crate::text_laws;

verus! {

/// Whether the stretch of `t` that begins at `start` is complete with the character at
/// `at`: that ends a sentence and the stretch has the target length, or it is white space
/// and the stretch has twice that length or is as long as a length can be.
pub open spec fn completes(t: Seq<char>, start: int, at: int, target: nat) -> bool {
    ||| (t[at] == '.' || t[at] == '!' || t[at] == '?') && at + 1 - start >= target
    ||| text::is_space(t[at]) && (at + 1 - start >= 2 * target || at + 1 - start >= usize::MAX)
}

/// Whether `cuts` are the places at which `t` is cut: the first is its start, each further
/// one stands behind the first character that completes the stretch since the one before,
/// and nothing behind the last of them completes a stretch.
pub open spec fn are_cuts(t: Seq<char>, target: nat, cuts: Seq<int>) -> bool {
    &&& cuts.len() > 0
    &&& cuts[0] == 0
    &&& forall|i: int| 0 <= i < cuts.len() ==> 0 <= #[trigger] cuts[i] <= t.len()
    &&& forall|i: int, j: int|
        #![trigger cuts[i], cuts[j]]
        0 <= i && j == i + 1 && j < cuts.len() ==> {
            &&& cuts[i] < cuts[j]
            &&& completes(t, cuts[i], cuts[j] - 1, target)
            &&& forall|at: int|
                cuts[i] <= at < cuts[j] - 1 ==> !#[trigger] completes(t, cuts[i], at, target)
        }
    &&& forall|at: int|
        cuts.last() <= at < t.len() ==> !#[trigger] completes(t, cuts.last(), at, target)
}

/// The stretches of `t` between one cut and the next, trimmed, without those that are
/// blank.
pub open spec fn stretches(t: Seq<char>, cuts: Seq<int>) -> Seq<Seq<char>> {
    Seq::new(
        (cuts.len() - 1) as nat,
        |i: int| text::trimmed(t.subrange(cuts[i], cuts[i + 1])),
    ).filter(|piece: Seq<char>| piece.len() > 0)
}

proof fn lemma_first_complete(s: Seq<char>, target: nat, n: nat)
    requires
        n <= s.len(),
    ensures
        match speech_text::piece_length(s, target, n) {
            Some(m) => {
                &&& n < m <= s.len()
                &&& completes(s, 0, m - 1, target)
                &&& forall|at: int| n <= at < m - 1 ==> !#[trigger] completes(s, 0, at, target)
            },
            None => forall|at: int|
                n <= at < s.len() ==> !#[trigger] completes(s, 0, at, target),
        },
    decreases s.len() - n,
{
    if n < s.len() {
        lemma_first_complete(s, target, n + 1);
        assert(completes(s, 0, n as int, target) == speech_text::ends_piece(
            s[n as int],
            n + 1,
            target,
        ));
    }
}

proof fn lemma_filter_first(x: Seq<char>, list: Seq<Seq<char>>)
    ensures
        (seq![x] + list).filter(|piece: Seq<char>| piece.len() > 0) == if x.len() > 0 {
            seq![x] + list.filter(|piece: Seq<char>| piece.len() > 0)
        } else {
            list.filter(|piece: Seq<char>| piece.len() > 0)
        },
{
    let keep = |piece: Seq<char>| piece.len() > 0;
    Seq::filter_distributes_over_add(seq![x], list, keep);
    reveal(Seq::filter);
    assert(seq![x].drop_last() =~= Seq::<Seq<char>>::empty());
    assert(seq![x].drop_last().filter(keep) =~= Seq::<Seq<char>>::empty());
    assert(seq![x].filter(keep) =~= if x.len() > 0 {
        seq![x]
    } else {
        Seq::<Seq<char>>::empty()
    });
    assert(Seq::<Seq<char>>::empty() + list.filter(keep) =~= list.filter(keep));
}

/// The text is cut into its pieces at the cuts.
proof fn lemma_cuts(t: Seq<char>, target: nat) -> (cuts: Seq<int>)
    ensures
        are_cuts(t, target, cuts),
        speech_text::pieces(t, target) == stretches(t, cuts),
        speech_text::leftover(t, target) == t.subrange(cuts.last(), t.len() as int),
    decreases t.len(),
{
    lemma_first_complete(t, target, 0);
    match speech_text::piece_length(t, target, 0) {
        None => {
            let cuts: Seq<int> = seq![0];
            assert(t.subrange(0, t.len() as int) =~= t);
            assert(stretches(t, cuts) =~= seq![]) by {
                reveal(Seq::filter);
            }
            cuts
        },
        Some(m) => {
            let n = m as int;
            let rest = t.skip(n);
            let sub = lemma_cuts(rest, target);
            let cuts: Seq<int> = Seq::new(
                sub.len() + 1,
                |i: int|
                    if i == 0 {
                        0
                    } else {
                        sub[i - 1] + n
                    },
            );
            assert forall|start: int, at: int|
                0 <= at < rest.len() implies #[trigger] completes(rest, start, at, target)
                == completes(t, start + n, at + n, target) by {}
            assert(cuts.last() == sub.last() + n);
            assert forall|i: int, j: int|
                #![trigger cuts[i], cuts[j]]
                0 <= i && j == i + 1 && j < cuts.len() implies {
                &&& cuts[i] < cuts[j]
                &&& completes(t, cuts[i], cuts[j] - 1, target)
                &&& forall|at: int|
                    cuts[i] <= at < cuts[j] - 1 ==> !#[trigger] completes(t, cuts[i], at, target)
            } by {
                if i == 0 {
                    assert(sub[0] == 0);
                } else {
                    let a = sub[i - 1];
                    let b = sub[j - 1];
                    assert(completes(rest, a, b - 1, target));
                    assert forall|at: int|
                        cuts[i] <= at < cuts[j] - 1 implies !#[trigger] completes(
                        t,
                        cuts[i],
                        at,
                        target,
                    ) by {
                        assert(!completes(rest, a, at - n, target));
                    }
                }
            }
            assert forall|at: int| cuts.last() <= at < t.len() implies !#[trigger] completes(
                t,
                cuts.last(),
                at,
                target,
            ) by {
                assert(!completes(rest, sub.last(), at - n, target));
            }
            assert forall|i: int| 0 <= i < cuts.len() implies 0 <= #[trigger] cuts[i]
                <= t.len() by {
                if i > 0 {
                    assert(0 <= sub[i - 1] <= rest.len());
                }
            }
            let all = Seq::new(
                (cuts.len() - 1) as nat,
                |i: int| text::trimmed(t.subrange(cuts[i], cuts[i + 1])),
            );
            let later = Seq::new(
                (sub.len() - 1) as nat,
                |i: int| text::trimmed(rest.subrange(sub[i], sub[i + 1])),
            );
            let first = text::trimmed(t.take(n));
            assert(all =~= seq![first] + later) by {
                assert(t.subrange(0, n) =~= t.take(n));
                assert forall|i: int| 0 <= i < later.len() implies #[trigger] later[i] == all[i
                    + 1] by {
                    assert(0 <= sub[i] <= rest.len());
                    assert(0 <= sub[i + 1] <= rest.len());
                    assert(sub[i] < sub[i + 1]);
                    assert(rest.subrange(sub[i], sub[i + 1]) =~= t.subrange(
                        sub[i] + n,
                        sub[i + 1] + n,
                    ));
                }
            }
            lemma_filter_first(first, later);
            assert(rest.subrange(sub.last(), rest.len() as int) =~= t.subrange(
                cuts.last(),
                t.len() as int,
            ));
            cuts
        },
    }
}

/// A text that is longer than the target is cut only behind a full stop, an exclamation or
/// a question mark, and only once the stretch since the cut before has reached the target,
/// or behind white space, and only once it has reached it twice over; and it is cut at the
/// first such place. The chunks are the stretches between the cuts, trimmed, without the
/// blank ones. What is left behind the last cut joins the last chunk if it is shorter than
/// half the target, and is a chunk of its own otherwise.
pub proof fn law_where_a_text_is_cut(s: Seq<char>, target: nat) -> (cuts: Seq<int>)
    requires
        0 < target < text::trimmed(s).len(),
    ensures
        ({
            let t = text::trimmed(s);
            let found = stretches(t, cuts);
            let rest = text::trimmed(t.subrange(cuts.last(), t.len() as int));
            &&& are_cuts(t, target, cuts)
            &&& speech_text::speech_chunks(s, target) == if rest.len() == 0 {
                found
            } else if found.len() > 0 && rest.len() < target / 2 {
                found.drop_last().push(found.last() + seq![' '] + rest)
            } else {
                found.push(rest)
            }
        }),
{
    let t = text::trimmed(s);
    let cuts = lemma_cuts(t, target);
    let found = stretches(t, cuts);
    let rest = text::trimmed(t.subrange(cuts.last(), t.len() as int));
    assert(found.len() > 0 ==> found.last().push(' ') + rest =~= found.last() + seq![' '] + rest);
    crate::speech_laws::law_chunks_keep_every_visible_character(s, target);
    if found.len() == 0 && rest.len() == 0 {
        let chunks = Seq::<Seq<char>>::empty();
        assert(speech_text::pieces(t, target) =~= chunks);
        crate::speech_laws::lemma_pieces_keep_visible(t, target);
        text_laws::law_trimming_keeps_visible(speech_text::leftover(t, target));
        assert(text_laws::visible(text::concatenated(chunks)) =~= seq![]) by {
            reveal(Seq::filter);
        }
        assert(text_laws::visible(rest) =~= seq![]) by {
            reveal(Seq::filter);
        }
        assert(text_laws::visible(t).len() == 0);
        text_laws::law_trimmed_is_tidy(s);
        assert(t.len() > 0);
        assert(text_laws::is_tidy(t));
        let one = seq![t[0]];
        assert(t =~= one + t.skip(1));
        text_laws::lemma_visible_concat(one, t.skip(1));
        text_laws::lemma_visible_single(t[0]);
    }
    cuts
}

/// No cut falls between two characters that are not white space, unless the first of them
/// ends a sentence, and a cut at white space comes only at twice the target.
pub proof fn law_no_word_is_cut(t: Seq<char>, target: nat, cuts: Seq<int>, i: int)
    requires
        are_cuts(t, target, cuts),
        0 < i < cuts.len(),
    ensures
        0 < cuts[i] <= t.len(),
        ({
            let last = t[cuts[i] - 1];
            &&& last == '.' || last == '!' || last == '?' || text::is_space(last)
            &&& text::is_space(last) && last != '.' && last != '!' && last != '?' ==> cuts[i]
                - cuts[i - 1] >= 2 * target || cuts[i] - cuts[i - 1] >= usize::MAX
            &&& cuts[i] - cuts[i - 1] >= target || cuts[i] - cuts[i - 1] >= usize::MAX
        }),
{
    let before = i - 1;
    assert(cuts[before] < cuts[i]);
}

/// A text that is not longer than the target is one chunk, and so is every text where the
/// target is zero.
pub proof fn law_a_short_text_is_one_chunk(s: Seq<char>, target: nat)
    requires
        target == 0 || text::trimmed(s).len() <= target,
    ensures
        speech_text::speech_chunks(s, target) == seq![text::trimmed(s)],
{
}

} // verus!
