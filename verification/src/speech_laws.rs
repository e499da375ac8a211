//! What holds of the chunks of a text and of its token budget, whatever the text.

use vstd::prelude::*;

use crate::speech_text;
use crate::text;
use crate::text_laws;

verus! {

proof fn lemma_piece_length_bound(s: Seq<char>, target: nat, n: nat)
    ensures
        speech_text::piece_length(s, target, n) matches Some(m) ==> n < m <= s.len(),
    decreases s.len() - n,
{
    if n < s.len() {
        lemma_piece_length_bound(s, target, n + 1);
    }
}

pub proof fn lemma_pieces_keep_visible(s: Seq<char>, target: nat)
    ensures
        text_laws::visible(text::concatenated(speech_text::pieces(s, target)))
            + text_laws::visible(speech_text::leftover(s, target)) == text_laws::visible(s),
    decreases s.len(),
{
    lemma_piece_length_bound(s, target, 0);
    match speech_text::piece_length(s, target, 0) {
        Some(n) => {
            let head = s.take(n as int);
            let tail = s.skip(n as int);
            let piece = text::trimmed(head);
            let later = speech_text::pieces(tail, target);
            let rest = text_laws::visible(speech_text::leftover(tail, target));
            lemma_pieces_keep_visible(tail, target);
            text_laws::law_trimming_keeps_visible(head);
            assert(s =~= head + tail);
            text_laws::lemma_visible_concat(head, tail);
            if piece.len() == 0 {
                assert(text_laws::visible(piece) =~= seq![]) by {
                    reveal(Seq::filter);
                }
                assert(text_laws::visible(s) =~= text_laws::visible(tail));
            } else {
                text_laws::lemma_concatenated_cons(piece, later);
                text_laws::lemma_visible_concat(piece, text::concatenated(later));
                assert((text_laws::visible(piece) + text_laws::visible(text::concatenated(later)))
                    + rest =~= text_laws::visible(piece) + (text_laws::visible(
                    text::concatenated(later),
                ) + rest));
            }
        },
        None => {
            assert(text_laws::visible(text::concatenated(seq![])) =~= seq![]) by {
                reveal(Seq::filter);
            }
            assert(seq![] + text_laws::visible(s) =~= text_laws::visible(s));
        },
    }
}

proof fn lemma_pieces_are_tidy(s: Seq<char>, target: nat)
    ensures
        forall|i: int|
            0 <= i < speech_text::pieces(s, target).len() ==> text_laws::is_tidy(
                #[trigger] speech_text::pieces(s, target)[i],
            ),
    decreases s.len(),
{
    lemma_piece_length_bound(s, target, 0);
    match speech_text::piece_length(s, target, 0) {
        Some(n) => {
            text_laws::law_trimmed_is_tidy(s.take(n as int));
            lemma_pieces_are_tidy(s.skip(n as int), target);
            let all = speech_text::pieces(s, target);
            let later = speech_text::pieces(s.skip(n as int), target);
            assert forall|i: int| 0 <= i < all.len() implies text_laws::is_tidy(
                #[trigger] all[i],
            ) by {
                if all.len() == later.len() {
                    assert(all[i] == later[i]);
                } else if i > 0 {
                    assert(all[i] == later[i - 1]);
                }
            }
        },
        None => {},
    }
}

proof fn lemma_remainder_keeps_visible(chunks: Seq<Seq<char>>, remainder: Seq<char>, target: nat)
    ensures
        text_laws::visible(
            text::concatenated(speech_text::with_remainder(chunks, remainder, target)),
        ) == text_laws::visible(text::concatenated(chunks)) + text_laws::visible(remainder),
{
    let all = speech_text::with_remainder(chunks, remainder, target);
    if remainder.len() == 0 {
        assert(text_laws::visible(remainder) =~= seq![]) by {
            reveal(Seq::filter);
        }
        assert(text_laws::visible(text::concatenated(chunks)) + seq![] =~= text_laws::visible(
            text::concatenated(chunks),
        ));
    } else if chunks.len() > 0 && remainder.len() < target / 2 {
        let front = text::concatenated(chunks.drop_last());
        let last = chunks.last();
        assert(all.drop_last() =~= chunks.drop_last());
        assert(text::concatenated(all) =~= (front + last) + seq![' '] + remainder);
        text_laws::lemma_visible_concat((front + last) + seq![' '], remainder);
        text_laws::lemma_visible_concat(front + last, seq![' ']);
        text_laws::lemma_visible_single(' ');
        assert(text_laws::visible(front + last) + seq![] =~= text_laws::visible(front + last));
    } else {
        assert(all.drop_last() =~= chunks);
        text_laws::lemma_visible_concat(text::concatenated(chunks), remainder);
    }
}

/// Cutting a text into chunks loses nothing but white space: the chunks, one after
/// the other, hold the visible characters of the text in their order.
pub proof fn law_chunks_keep_every_visible_character(s: Seq<char>, target: nat)
    ensures
        text_laws::visible(text::concatenated(speech_text::speech_chunks(s, target)))
            == text_laws::visible(s),
{
    let t = text::trimmed(s);
    text_laws::law_trimming_keeps_visible(s);
    let whole = seq![t];
    assert(text::concatenated(whole) =~= t) by {
        assert(whole.drop_last() =~= seq![]);
        assert(text::concatenated(whole.drop_last()) =~= seq![]);
    }
    if target != 0 && t.len() > target {
        let r = speech_text::leftover(t, target);
        lemma_pieces_keep_visible(t, target);
        text_laws::law_trimming_keeps_visible(r);
        lemma_remainder_keeps_visible(
            speech_text::pieces(t, target),
            text::trimmed(r),
            target,
        );
    }
}

/// There is at least one chunk. The chunks of a text that is not blank each begin
/// and end with something other than white space; a blank text has one empty chunk.
pub proof fn law_chunks_are_tidy(s: Seq<char>, target: nat)
    ensures
        speech_text::speech_chunks(s, target).len() > 0,
        !text::is_blank(s) ==> forall|i: int|
            0 <= i < speech_text::speech_chunks(s, target).len() ==> text_laws::is_tidy(
                #[trigger] speech_text::speech_chunks(s, target)[i],
            ),
        text::is_blank(s) ==> speech_text::speech_chunks(s, target) == seq![Seq::<char>::empty()],
{
    let t = text::trimmed(s);
    text_laws::law_trimmed_is_tidy(s);
    if text::is_blank(s) {
        assert(t =~= seq![]);
    }
    if target != 0 && t.len() > target {
        let r = speech_text::leftover(t, target);
        lemma_pieces_are_tidy(t, target);
        text_laws::law_trimmed_is_tidy(r);
        let found = speech_text::pieces(t, target);
        let all = speech_text::with_remainder(found, text::trimmed(r), target);
        assert forall|i: int| 0 <= i < all.len() implies text_laws::is_tidy(#[trigger] all[i]) by {
            if i < found.len() {
                assert(text_laws::is_tidy(found[i]));
                if i == found.len() - 1 && all[i] != found[i] {
                    assert(all[i] == found[i].push(' ') + text::trimmed(r));
                    assert(all[i][0] == found[i][0]);
                    assert(all[i].last() == text::trimmed(r).last());
                }
            }
        }
    }
}

/// A chunk size of zero turns chunking off: the text is one chunk.
pub proof fn law_chunk_size_zero_keeps_the_text_whole(s: Seq<char>)
    ensures
        speech_text::speech_chunks(s, 0) == seq![text::trimmed(s)],
{
}

/// The recommended budget lies within its bounds, a budget that was not asked for
/// is the recommended one, and a short text never gets more than that.
pub proof fn law_token_budget(s: Seq<char>, requested: Option<usize>)
    ensures
        32 <= speech_text::recommended_tokens(s) <= 128,
        requested is None ==> speech_text::effective_tokens(s, requested)
            == speech_text::recommended_tokens(s),
        speech_text::is_short_prompt(s) ==> speech_text::effective_tokens(s, requested)
            <= speech_text::recommended_tokens(s),
        requested matches Some(value) ==> speech_text::effective_tokens(s, requested) <= value,
{
}

} // verus!
