//! What holds of the text operations for every text.

use vstd::prelude::*;

use crate::text;

verus! {

/// A text that begins and ends with something other than white space.
pub open spec fn is_tidy(s: Seq<char>) -> bool {
    s.len() > 0 && !text::is_space(s[0]) && !text::is_space(s.last())
}

/// The characters of a text that are not white space, in order.
pub open spec fn visible(s: Seq<char>) -> Seq<char> {
    s.filter(|c: char| !text::is_space(c))
}

/// A word: characters without white space among them, at least one.
pub open spec fn is_word(s: Seq<char>) -> bool {
    s.len() > 0 && forall|i: int| 0 <= i < s.len() ==> !text::is_space(#[trigger] s[i])
}

proof fn lemma_trim_start_shape(s: Seq<char>)
    ensures
        text::trim_start(s).len() > 0 ==> !text::is_space(text::trim_start(s)[0]),
        visible(text::trim_start(s)) == visible(s),
    decreases s.len(),
{
    if s.len() > 0 && text::is_space(s[0]) {
        lemma_trim_start_shape(s.skip(1));
        lemma_visible_concat(seq![s[0]], s.skip(1));
        assert(s =~= seq![s[0]] + s.skip(1));
        lemma_visible_single(s[0]);
        assert(visible(seq![s[0]]) + visible(s.skip(1)) =~= visible(s.skip(1)));
    }
}

proof fn lemma_trim_end_shape(s: Seq<char>)
    ensures
        text::trim_end(s).len() > 0 ==> {
            &&& !text::is_space(text::trim_end(s).last())
            &&& s.len() > 0
            &&& text::trim_end(s)[0] == s[0]
        },
        visible(text::trim_end(s)) == visible(s),
    decreases s.len(),
{
    if s.len() > 0 && text::is_space(s.last()) {
        lemma_trim_end_shape(s.drop_last());
        lemma_visible_concat(s.drop_last(), seq![s.last()]);
        assert(s =~= s.drop_last() + seq![s.last()]);
        lemma_visible_single(s.last());
        assert(visible(s.drop_last()) + visible(seq![s.last()]) =~= visible(s.drop_last()));
    }
}

/// A text of one character is visible unless that character is white space.
pub proof fn lemma_visible_single(c: char)
    ensures
        visible(seq![c]) == if text::is_space(c) {
            Seq::<char>::empty()
        } else {
            seq![c]
        },
{
    reveal(Seq::filter);
    let p = |c: char| !text::is_space(c);
    assert(seq![c].drop_last() =~= Seq::<char>::empty());
    assert(Seq::<char>::empty().filter(p) =~= Seq::<char>::empty());
    assert(seq![c].last() == c);
    assert(seq![c].filter(p) =~= if p(c) {
        Seq::<char>::empty().push(c)
    } else {
        Seq::<char>::empty()
    });
}

/// The visible characters of two texts, one after the other, are those of the
/// first and then those of the second.
pub proof fn lemma_visible_concat(a: Seq<char>, b: Seq<char>)
    ensures
        visible(a + b) == visible(a) + visible(b),
{
    Seq::filter_distributes_over_add(a, b, |c: char| !text::is_space(c));
}

/// A trimmed text is empty or begins and ends with something other than white
/// space.
pub proof fn law_trimmed_is_tidy(s: Seq<char>)
    ensures
        text::trimmed(s).len() > 0 ==> is_tidy(text::trimmed(s)),
{
    lemma_trim_start_shape(s);
    lemma_trim_end_shape(text::trim_start(s));
}

/// Trimming loses nothing but white space.
pub proof fn law_trimming_keeps_visible(s: Seq<char>)
    ensures
        visible(text::trimmed(s)) == visible(s),
{
    lemma_trim_start_shape(s);
    lemma_trim_end_shape(text::trim_start(s));
}

/// A tidy text is not changed by trimming.
pub proof fn lemma_tidy_is_trimmed(s: Seq<char>)
    requires
        s.len() == 0 || is_tidy(s),
    ensures
        text::trimmed(s) == s,
{
}

/// Trimming a text again changes nothing.
pub proof fn law_trimming_is_idempotent(s: Seq<char>)
    ensures
        text::trimmed(text::trimmed(s)) == text::trimmed(s),
{
    law_trimmed_is_tidy(s);
    lemma_tidy_is_trimmed(text::trimmed(s));
}

/// A text is blank exactly if it holds nothing but white space.
pub proof fn law_blank_is_all_space(s: Seq<char>)
    ensures
        text::is_blank(s) <==> forall|i: int| 0 <= i < s.len() ==> text::is_space(#[trigger] s[i]),
    decreases s.len(),
{
    if s.len() > 0 {
        if text::is_space(s[0]) {
            law_blank_is_all_space(s.skip(1));
            if text::is_blank(s) {
                assert forall|i: int| 0 <= i < s.len() implies text::is_space(#[trigger] s[i]) by {
                    if i > 0 {
                        assert(s.skip(1)[i - 1] == s[i]);
                    }
                }
            } else {
                let i = choose|i: int| 0 <= i < s.skip(1).len() && !text::is_space(s.skip(1)[i]);
                assert(!text::is_space(s[i + 1]));
            }
        } else {
            lemma_trim_end_keeps_first(s);
        }
    }
}

proof fn lemma_trim_end_keeps_first(s: Seq<char>)
    requires
        s.len() > 0,
        !text::is_space(s[0]),
    ensures
        text::trim_end(s).len() > 0,
    decreases s.len(),
{
    if text::is_space(s.last()) {
        lemma_trim_end_keeps_first(s.drop_last());
    }
}

// ---------------------------------------------------------------------------
// Words
// ---------------------------------------------------------------------------

proof fn lemma_word_length_bound(s: Seq<char>)
    ensures
        text::word_length(s) <= s.len(),
        forall|i: int| 0 <= i < text::word_length(s) ==> !text::is_space(#[trigger] s[i]),
    decreases s.len(),
{
    if s.len() > 0 && !text::is_space(s[0]) {
        lemma_word_length_bound(s.skip(1));
        assert forall|i: int| 0 <= i < text::word_length(s) implies !text::is_space(
            #[trigger] s[i],
        ) by {
            if i > 0 {
                assert(s.skip(1)[i - 1] == s[i]);
            }
        }
    }
}

/// The words of a text are words, and hold its visible characters.
pub proof fn law_words_hold_the_visible(s: Seq<char>)
    ensures
        forall|i: int|
            0 <= i < text::words(s).len() ==> is_word(#[trigger] text::words(s)[i]),
        text::concatenated(text::words(s)) == visible(s),
    decreases s.len(),
{
    if s.len() == 0 {
        assert(visible(s) =~= seq![]) by {
            reveal(Seq::filter);
        }
    } else if text::is_space(s[0]) {
        law_words_hold_the_visible(s.skip(1));
        assert(s =~= seq![s[0]] + s.skip(1));
        lemma_visible_concat(seq![s[0]], s.skip(1));
        lemma_visible_single(s[0]);
        assert(visible(s) =~= visible(s.skip(1)));
    } else {
        lemma_word_length_bound(s);
        let n = text::word_length(s) as int;
        let head = s.take(n);
        let tail = s.skip(n);
        law_words_hold_the_visible(tail);
        assert(is_word(head));
        assert(s =~= head + tail);
        lemma_visible_concat(head, tail);
        lemma_visible_of_word(head);
        lemma_concatenated_cons(head, text::words(tail));
    }
}

proof fn lemma_visible_of_word(w: Seq<char>)
    requires
        forall|i: int| 0 <= i < w.len() ==> !text::is_space(#[trigger] w[i]),
    ensures
        visible(w) == w,
    decreases w.len(),
{
    if w.len() == 0 {
        assert(visible(w) =~= w) by {
            reveal(Seq::filter);
        }
    } else {
        lemma_visible_of_word(w.drop_last());
        assert(w =~= w.drop_last() + seq![w.last()]);
        lemma_visible_concat(w.drop_last(), seq![w.last()]);
        lemma_visible_single(w.last());
    }
}

/// The first part of a list comes first in the whole.
pub proof fn lemma_concatenated_cons(head: Seq<char>, tail: Seq<Seq<char>>)
    ensures
        text::concatenated(seq![head] + tail) == head + text::concatenated(tail),
    decreases tail.len(),
{
    let all = seq![head] + tail;
    if tail.len() == 0 {
        assert(all.drop_last() =~= Seq::<Seq<char>>::empty());
        assert(text::concatenated(all.drop_last()) =~= seq![]);
        assert(all.last() == head);
        assert(text::concatenated(tail) =~= seq![]);
        assert(text::concatenated(all) =~= head + text::concatenated(tail));
    } else {
        lemma_concatenated_cons(head, tail.drop_last());
        assert(all.drop_last() =~= seq![head] + tail.drop_last());
        assert(text::concatenated(all) =~= head + text::concatenated(tail));
    }
}

proof fn lemma_words_of_word(w: Seq<char>)
    requires
        is_word(w),
    ensures
        text::word_length(w) == w.len(),
        text::words(w) == seq![w],
    decreases w.len(),
{
    lemma_word_length_of_word(w);
    assert(w.take(w.len() as int) =~= w);
    assert(w.skip(w.len() as int) =~= seq![]);
    assert(text::words(w.skip(w.len() as int)) =~= seq![]);
    assert(!text::is_space(w[0]));
    assert(text::words(w) =~= seq![w]);
}

proof fn lemma_word_length_of_word(w: Seq<char>)
    requires
        forall|i: int| 0 <= i < w.len() ==> !text::is_space(#[trigger] w[i]),
    ensures
        text::word_length(w) == w.len(),
    decreases w.len(),
{
    if w.len() > 0 {
        assert forall|i: int| 0 <= i < w.skip(1).len() implies !text::is_space(
            #[trigger] w.skip(1)[i],
        ) by {
            assert(w.skip(1)[i] == w[i + 1]);
        }
        lemma_word_length_of_word(w.skip(1));
    }
}

proof fn lemma_word_length_before_space(x: Seq<char>, w: Seq<char>)
    ensures
        text::word_length(x.push(' ') + w) == text::word_length(x),
    decreases x.len(),
{
    let all = x.push(' ') + w;
    if x.len() == 0 {
        assert(all[0] == ' ');
    } else {
        assert(all[0] == x[0]);
        if !text::is_space(x[0]) {
            lemma_word_length_before_space(x.skip(1), w);
            assert(all.skip(1) =~= x.skip(1).push(' ') + w);
        }
    }
}

/// A word behind a space is one more word of the text.
pub proof fn lemma_words_push(x: Seq<char>, w: Seq<char>)
    requires
        is_word(w),
    ensures
        text::words(x.push(' ') + w) == text::words(x).push(w),
    decreases x.len(),
{
    let all = x.push(' ') + w;
    if x.len() == 0 {
        assert(all[0] == ' ');
        assert(all.skip(1) =~= w);
        lemma_words_of_word(w);
        assert(text::words(x).push(w) =~= seq![w]);
    } else if text::is_space(x[0]) {
        assert(all[0] == x[0]);
        lemma_words_push(x.skip(1), w);
        assert(all.skip(1) =~= x.skip(1).push(' ') + w);
    } else {
        lemma_word_length_before_space(x, w);
        lemma_word_length_bound(x);
        let n = text::word_length(x) as int;
        assert(all[0] == x[0]);
        lemma_words_push(x.skip(n), w);
        assert(all.take(n) =~= x.take(n));
        assert(all.skip(n) =~= x.skip(n).push(' ') + w);
        assert(text::words(all) =~= text::words(x).push(w));
    }
}

/// Words that are put one space apart are found again.
pub proof fn law_spaced_words_are_found_again(list: Seq<Seq<char>>)
    requires
        forall|i: int| 0 <= i < list.len() ==> is_word(#[trigger] list[i]),
    ensures
        text::words(text::spaced(list)) == list,
    decreases list.len(),
{
    if list.len() == 0 {
        assert(text::words(text::spaced(list)) =~= list);
    } else if list.len() == 1 {
        assert(is_word(list[0]));
        lemma_words_of_word(list[0]);
        assert(list =~= seq![list[0]]);
    } else {
        let front = list.drop_last();
        assert forall|i: int| 0 <= i < front.len() implies is_word(#[trigger] front[i]) by {
            assert(front[i] == list[i]);
        }
        law_spaced_words_are_found_again(front);
        assert(is_word(list[list.len() - 1]));
        lemma_words_push(text::spaced(front), list.last());
        assert(front.push(list.last()) =~= list);
    }
}

/// Whether a text holds no white space but single spaces.
pub open spec fn is_single_spaced(s: Seq<char>) -> bool {
    forall|i: int|
        0 <= i < s.len() && text::is_space(#[trigger] s[i]) ==> s[i] == ' ' && (i + 1 < s.len()
            ==> !text::is_space(s[i + 1]))
}

/// Whether a text holds no white space but spaces.
pub open spec fn has_plain_spaces(s: Seq<char>) -> bool {
    forall|i: int| 0 <= i < s.len() && text::is_space(#[trigger] s[i]) ==> s[i] == ' '
}

/// Words that are put one space apart make a text that is single-spaced, and tidy where
/// there are any.
pub proof fn law_spaced_words_are_single_spaced(list: Seq<Seq<char>>)
    requires
        forall|i: int| 0 <= i < list.len() ==> is_word(#[trigger] list[i]),
    ensures
        is_single_spaced(text::spaced(list)),
        list.len() > 0 ==> is_tidy(text::spaced(list)),
    decreases list.len(),
{
    if list.len() > 0 {
        assert(is_word(list[list.len() - 1]));
        assert(is_word(list[0]));
        if list.len() > 1 {
            let front = list.drop_last();
            assert forall|i: int| 0 <= i < front.len() implies is_word(#[trigger] front[i]) by {
                assert(front[i] == list[i]);
            }
            law_spaced_words_are_single_spaced(front);
            let head = text::spaced(front);
            let all = text::spaced(list);
            assert(all == head.push(' ') + list.last());
            assert forall|i: int| 0 <= i < all.len() && text::is_space(#[trigger] all[i]) implies
                all[i] == ' ' && (i + 1 < all.len() ==> !text::is_space(all[i + 1])) by {
                if i < head.len() {
                    assert(head[i] == all[i]);
                    assert(i + 1 < head.len());
                    assert(head[i + 1] == all[i + 1]);
                } else if i == head.len() {
                    assert(all[i + 1] == list.last()[0]);
                } else {
                    assert(all[i] == list.last()[i - head.len() - 1]);
                }
            }
            assert(all[0] == head[0]);
            assert(all.last() == list.last().last());
        }
    }
}

/// What occurs in a part of a text occurs in the text.
pub proof fn lemma_occurs_within(s: Seq<char>, part: Seq<char>, pattern: Seq<char>)
    requires
        text::occurs_in(s, part),
        text::occurs_in(part, pattern),
    ensures
        text::occurs_in(s, pattern),
{
    let a = choose|a: int| #[trigger] text::occurs_at(s, part, a);
    let b = choose|b: int| #[trigger] text::occurs_at(part, pattern, b);
    assert(s.subrange(a + b, a + b + pattern.len()) =~= s.subrange(a, a + part.len()).subrange(
        b,
        b + pattern.len(),
    ));
    assert(text::occurs_at(s, pattern, a + b));
}

proof fn lemma_first_word(s: Seq<char>) -> (at: int)
    requires
        text::words(s).len() > 0,
    ensures
        text::occurs_at(s, text::words(s)[0], at),
        forall|j: int| 0 <= j < at ==> text::is_space(#[trigger] s[j]),
    decreases s.len(),
{
    if text::is_space(s[0]) {
        let at = lemma_first_word(s.skip(1));
        let word = text::words(s)[0];
        assert(s.subrange(at + 1, at + 1 + word.len()) =~= s.skip(1).subrange(
            at,
            at + word.len(),
        ));
        assert forall|j: int| 0 <= j < at + 1 implies text::is_space(#[trigger] s[j]) by {
            if j > 0 {
                assert(s.skip(1)[j - 1] == s[j]);
            }
        }
        at + 1
    } else {
        lemma_word_length_bound(s);
        let n = text::word_length(s) as int;
        assert(text::words(s)[0] == s.take(n));
        assert(s.subrange(0, n) =~= s.take(n));
        0
    }
}

proof fn lemma_word_ends(s: Seq<char>)
    ensures
        text::word_length(s) < s.len() ==> text::is_space(s[text::word_length(s) as int]),
    decreases s.len(),
{
    if s.len() > 0 && !text::is_space(s[0]) {
        lemma_word_ends(s.skip(1));
    }
}

/// Each word of a text stands in it, and between a word and the next there is white
/// space and nothing else.
pub proof fn lemma_word_places(s: Seq<char>, i: int) -> (at: (int, int))
    requires
        0 <= i < text::words(s).len(),
    ensures
        text::occurs_at(s, text::words(s)[i], at.0),
        i + 1 < text::words(s).len() ==> {
            &&& text::occurs_at(s, text::words(s)[i + 1], at.1)
            &&& at.0 + text::words(s)[i].len() < at.1
            &&& forall|j: int|
                at.0 + text::words(s)[i].len() <= j < at.1 ==> text::is_space(#[trigger] s[j])
        },
    decreases s.len(),
{
    let list = text::words(s);
    if text::is_space(s[0]) {
        let rest = s.skip(1);
        let at = lemma_word_places(rest, i);
        lemma_shifted(s, 1, list[i], at.0);
        if i + 1 < list.len() {
            lemma_shifted(s, 1, list[i + 1], at.1);
            assert forall|j: int| at.0 + 1 + list[i].len() <= j < at.1 + 1 implies text::is_space(
                #[trigger] s[j],
            ) by {
                assert(rest[j - 1] == s[j]);
            }
        }
        (at.0 + 1, at.1 + 1)
    } else {
        lemma_word_length_bound(s);
        let n = text::word_length(s) as int;
        let rest = s.skip(n);
        assert(list == seq![s.take(n)] + text::words(rest));
        assert(list.skip(1) =~= text::words(rest));
        if i > 0 {
            assert(list[i] == text::words(rest)[i - 1]);
            let at = lemma_word_places(rest, i - 1);
            lemma_shifted(s, n, list[i], at.0);
            if i + 1 < list.len() {
                assert(list[i + 1] == text::words(rest)[i]);
                lemma_shifted(s, n, list[i + 1], at.1);
                assert forall|j: int|
                    at.0 + n + list[i].len() <= j < at.1 + n implies text::is_space(
                    #[trigger] s[j],
                ) by {
                    assert(rest[j - n] == s[j]);
                }
            }
            (at.0 + n, at.1 + n)
        } else {
            assert(s.subrange(0, n) =~= list[0]);
            if list.len() > 1 {
                assert(list[1] == text::words(rest)[0]);
                let at = lemma_first_word(rest);
                lemma_shifted(s, n, list[1], at);
                assert forall|j: int| n <= j < at + n implies text::is_space(#[trigger] s[j]) by {
                    assert(rest[j - n] == s[j]);
                }
                lemma_word_ends(s);
                if at == 0 {
                    law_words_hold_the_visible(s);
                    assert(is_word(list[1]));
                    assert(rest.subrange(0, list[1].len() as int)[0] == list[1][0]);
                    assert(rest[0] == s[n]);
                }
                (0, at + n)
            } else {
                (0, 0)
            }
        }
    }
}

proof fn lemma_shifted(s: Seq<char>, n: int, pattern: Seq<char>, at: int)
    requires
        0 <= n <= s.len(),
        text::occurs_at(s.skip(n), pattern, at),
    ensures
        text::occurs_at(s, pattern, at + n),
{
    assert(s.subrange(at + n, at + n + pattern.len()) =~= s.skip(n).subrange(
        at,
        at + pattern.len(),
    ));
}

proof fn lemma_in_one_word(list: Seq<Seq<char>>, pattern: Seq<char>, at: int) -> (i: int)
    requires
        pattern.len() > 0,
        forall|j: int| 0 <= j < pattern.len() ==> !text::is_space(#[trigger] pattern[j]),
        text::occurs_at(text::spaced(list), pattern, at),
    ensures
        0 <= i < list.len(),
        text::occurs_in(list[i], pattern),
    decreases list.len(),
{
    let all = text::spaced(list);
    if list.len() == 1 {
        assert(text::occurs_at(list[0], pattern, at));
        0
    } else {
        let front = list.drop_last();
        let head = text::spaced(front);
        let found = all.subrange(at, at + pattern.len());
        assert(all == head.push(' ') + list.last());
        if at + pattern.len() <= head.len() {
            assert(head.subrange(at, at + pattern.len()) =~= found);
            let i = lemma_in_one_word(front, pattern, at);
            assert(front[i] == list[i]);
            i
        } else if at > head.len() {
            let b = at - head.len() - 1;
            assert(list.last().subrange(b, b + pattern.len()) =~= found);
            assert(text::occurs_at(list.last(), pattern, b));
            list.len() - 1
        } else {
            assert(found[head.len() - at] == ' ');
            assert(false);
            0
        }
    }
}

/// Putting the words of a text one space apart brings about no text without white space
/// that was not there before.
pub proof fn lemma_spacing_leaves_none(s: Seq<char>, pattern: Seq<char>)
    requires
        pattern.len() > 0,
        forall|j: int| 0 <= j < pattern.len() ==> !text::is_space(#[trigger] pattern[j]),
        !text::occurs_in(s, pattern),
    ensures
        !text::occurs_in(text::spaced(text::words(s)), pattern),
{
    let list = text::words(s);
    if text::occurs_in(text::spaced(list), pattern) {
        let at = choose|at: int| #[trigger] text::occurs_at(text::spaced(list), pattern, at);
        let i = lemma_in_one_word(list, pattern, at);
        let place = lemma_word_places(s, i);
        lemma_occurs_within(s, list[i], pattern);
    }
}

proof fn lemma_across_two_words(
    list: Seq<Seq<char>>,
    left: Seq<char>,
    right: Seq<char>,
    at: int,
) -> (i: int)
    requires
        forall|i: int| 0 <= i < list.len() ==> is_word(#[trigger] list[i]),
        is_word(left),
        is_word(right),
        text::occurs_at(text::spaced(list), left.push(' ') + right, at),
    ensures
        0 <= i < list.len() - 1,
        text::occurs_at(list[i], left, list[i].len() - left.len()),
        text::occurs_at(list[i + 1], right, 0),
    decreases list.len(),
{
    let pattern = left.push(' ') + right;
    let all = text::spaced(list);
    let found = all.subrange(at, at + pattern.len());
    assert(forall|j: int| 0 <= j < pattern.len() ==> all[at + j] == #[trigger] found[j]);
    assert(found[left.len() as int] == ' ');
    if list.len() == 1 {
        assert(is_word(list[0]));
        assert(all[at + left.len()] == ' ');
        assert(false);
        0
    } else {
        let front = list.drop_last();
        let head = text::spaced(front);
        let last = list.last();
        assert(is_word(list[list.len() - 1]));
        assert(all == head.push(' ') + last);
        let n = head.len() as int;
        if at + pattern.len() <= n {
            assert(head.subrange(at, at + pattern.len()) =~= found);
            assert forall|i: int| 0 <= i < front.len() implies is_word(#[trigger] front[i]) by {
                assert(front[i] == list[i]);
            }
            let i = lemma_across_two_words(front, left, right, at);
            assert(front[i] == list[i]);
            assert(front[i + 1] == list[i + 1]);
            i
        } else if at > n {
            assert(all[at + left.len()] == last[at + left.len() - n - 1]);
            assert(false);
            0
        } else {
            assert(found[n - at] == ' ');
            if n - at < left.len() {
                assert(pattern[n - at] == left[n - at]);
            } else if n - at > left.len() {
                assert(pattern[n - at] == right[n - at - left.len() - 1]);
            }
            assert(at + left.len() == n);
            assert(last.subrange(0, right.len() as int) =~= right) by {
                assert forall|j: int| 0 <= j < right.len() implies last[j] == right[j] by {
                    assert(found[left.len() + 1 + j] == right[j]);
                }
            }
            let i = front.len() - 1;
            let w = front.last();
            assert(w == list[i]);
            assert(is_word(list[i]));
            assert forall|j: int| 0 <= j < left.len() implies head[at + j] == left[j] by {
                assert(found[j] == left[j]);
            }
            let skipped = n - w.len();
            assert(head.skip(skipped) =~= w) by {
                if front.len() > 1 {
                    assert(head == text::spaced(front.drop_last()).push(' ') + w);
                }
            }
            if w.len() < left.len() {
                assert(front.len() > 1);
                assert(head[skipped - 1] == ' ');
                assert(head[at + (skipped - 1 - at)] == left[skipped - 1 - at]);
                assert(false);
            }
            assert(w.subrange(w.len() - left.len(), w.len() as int) =~= left) by {
                assert forall|j: int| 0 <= j < left.len() implies w[w.len() - left.len() + j]
                    == left[j] by {
                    assert(head.skip(skipped)[w.len() - left.len() + j] == head[at + j]);
                }
            }
            i
        }
    }
}

/// Putting the words of a text one space apart does not bring `left` and `right` one space
/// apart, if they nowhere were and `left` nowhere stood before more than one space.
pub proof fn lemma_spacing_joins_none(s: Seq<char>, left: Seq<char>, right: Seq<char>)
    requires
        is_word(left),
        is_word(right),
        has_plain_spaces(s),
        !text::occurs_in(s, left.push(' ') + right),
        !text::occurs_in(s, seq![left.last(), ' ', ' ']),
    ensures
        !text::occurs_in(text::spaced(text::words(s)), left.push(' ') + right),
{
    let list = text::words(s);
    let pattern = left.push(' ') + right;
    if text::occurs_in(text::spaced(list), pattern) {
        let at = choose|at: int| #[trigger] text::occurs_at(text::spaced(list), pattern, at);
        law_words_hold_the_visible(s);
        let i = lemma_across_two_words(list, left, right, at);
        let (a, b) = lemma_word_places(s, i);
        let w = list[i];
        let end = a + w.len();
        let start = end - left.len();
        assert forall|j: int| 0 <= j < left.len() implies s[start + j] == left[j] by {
            assert(s.subrange(a, end)[w.len() - left.len() + j] == w[w.len() - left.len() + j]);
            assert(w.subrange(w.len() - left.len(), w.len() as int)[j] == left[j]);
        }
        assert(text::is_space(s[end]));
        if end + 1 < b {
            assert(text::is_space(s[end + 1]));
            assert(s[start + (left.len() - 1)] == left[left.len() - 1]);
            assert(s.subrange(end - 1, end + 2) =~= seq![left.last(), ' ', ' ']);
            assert(text::occurs_at(s, seq![left.last(), ' ', ' '], end - 1));
        } else {
            assert forall|j: int| 0 <= j < right.len() implies s[b + j] == right[j] by {
                assert(list[i + 1].subrange(0, right.len() as int)[j] == right[j]);
                assert(s.subrange(b, b + list[i + 1].len())[j] == list[i + 1][j]);
            }
            assert(s.subrange(start, start + pattern.len()) =~= pattern) by {
                assert forall|j: int| 0 <= j < pattern.len() implies s[start + j] == pattern[j] by {
                    if j > left.len() {
                        assert(s[b + (j - left.len() - 1)] == right[j - left.len() - 1]);
                    }
                }
            }
            assert(text::occurs_at(s, pattern, start));
        }
    }
}

// ---------------------------------------------------------------------------
// Replacement
// ---------------------------------------------------------------------------

/// Whether putting `to` in place of `from` can never bring about an occurrence of
/// `pattern`: the two characters of `pattern` at `pair` are nowhere together in `to`, no
/// end of `to` begins `pattern`, and no beginning of `to` ends it that `from` does not
/// begin with as well.
pub open spec fn never_forms(
    from: Seq<char>,
    to: Seq<char>,
    pattern: Seq<char>,
    pair: int,
) -> bool {
    &&& from.len() > 0
    &&& to.len() >= 2
    &&& 0 <= pair < pattern.len() - 1
    &&& forall|i: int|
        0 <= i < to.len() - 1 ==> (#[trigger] to[i] != pattern[pair] || to[i + 1] != pattern[pair
            + 1])
    &&& forall|l: int|
        0 <= l < pattern.len() - 1 && l < to.len() ==> (#[trigger] pattern[l] != to.last()
            || to[to.len() - 1 - l] != pattern[0])
    &&& forall|j: int|
        1 <= j < pattern.len() ==> (#[trigger] pattern[j] != to[0] || if j + 1 < pattern.len() {
            pattern[j + 1] != to[1]
        } else {
            pattern[j] == from[0]
        })
}

/// Replacing a text that does not occur changes nothing.
pub proof fn law_replacing_nothing(s: Seq<char>, from: Seq<char>, to: Seq<char>)
    requires
        !text::occurs_in(s, from),
    ensures
        text::replaced(s, from, to) == s,
    decreases s.len(),
{
    if from.len() > 0 && s.len() >= from.len() {
        assert(!text::occurs_at(s, from, 0));
        assert forall|at: int| !#[trigger] text::occurs_at(s.skip(1), from, at) by {
            if text::occurs_at(s.skip(1), from, at) {
                assert(s.subrange(at + 1, at + 1 + from.len()) =~= s.skip(1).subrange(
                    at,
                    at + from.len(),
                ));
                assert(text::occurs_at(s, from, at + 1));
            }
        }
        law_replacing_nothing(s.skip(1), from, to);
        assert(seq![s[0]] + s.skip(1) =~= s);
    }
}

proof fn lemma_end_was_there(
    s: Seq<char>,
    from: Seq<char>,
    to: Seq<char>,
    pattern: Seq<char>,
    pair: int,
    j: int,
)
    requires
        never_forms(from, to, pattern, pair),
        1 <= j < pattern.len(),
        text::occurs_at(text::replaced(s, from, to), pattern.skip(j), 0),
    ensures
        text::occurs_at(s, pattern.skip(j), 0),
    decreases s.len(),
{
    let r = text::replaced(s, from, to);
    let q = pattern.skip(j);
    assert forall|i: int| 0 <= i < q.len() implies r[i] == pattern[j + i] by {
        assert(r.subrange(0, q.len() as int)[i] == q[i]);
    }
    if s.len() >= from.len() {
        assert(r[0] == pattern[j]);
        if text::occurs_at(s, from, 0) {
            assert(r[0] == to[0]);
            assert(r[1] == to[1]);
            if j + 1 < pattern.len() {
                assert(r[1] == pattern[j + 1]);
            }
            assert(j + 1 == pattern.len());
            assert(s.subrange(0, from.len() as int)[0] == from[0]);
            assert(s.subrange(0, 1) =~= q);
        } else {
            let later = text::replaced(s.skip(1), from, to);
            assert(r =~= seq![s[0]] + later);
            if j + 1 == pattern.len() {
                assert(s.subrange(0, 1) =~= q);
            } else {
                let q1 = pattern.skip(j + 1);
                assert(later.subrange(0, q1.len() as int) =~= q1) by {
                    assert forall|i: int| 0 <= i < q1.len() implies later[i] == q1[i] by {
                        assert(r[i + 1] == pattern[j + (i + 1)]);
                    }
                }
                lemma_end_was_there(s.skip(1), from, to, pattern, pair, j + 1);
                assert(s.subrange(0, q.len() as int) =~= q) by {
                    assert forall|i: int| 0 <= i < q.len() implies s[i] == q[i] by {
                        if i > 0 {
                            assert(s.skip(1).subrange(0, q1.len() as int)[i - 1] == q1[i - 1]);
                        }
                    }
                }
            }
        }
    }
}

/// A replacement leaves no occurrence of `pattern` behind, if `pattern` is what it
/// replaces or did not occur before, and if it never forms one.
pub proof fn lemma_replacement_leaves_none(
    s: Seq<char>,
    from: Seq<char>,
    to: Seq<char>,
    pattern: Seq<char>,
    pair: int,
)
    requires
        never_forms(from, to, pattern, pair),
        pattern == from || !text::occurs_in(s, pattern),
    ensures
        !text::occurs_in(text::replaced(s, from, to), pattern),
    decreases s.len(),
{
    let r = text::replaced(s, from, to);
    assert forall|i: int| !#[trigger] text::occurs_at(r, pattern, i) by {
        if text::occurs_at(r, pattern, i) {
            let found = r.subrange(i, i + pattern.len());
            assert forall|j: int| 0 <= j < pattern.len() implies r[i + j] == #[trigger] pattern[j] by {
                assert(found[j] == pattern[j]);
            }
            if s.len() < from.len() {
                assert(text::occurs_at(s, pattern, i));
            } else if text::occurs_at(s, from, 0) {
                let rest = s.skip(from.len() as int);
                let later = text::replaced(rest, from, to);
                lemma_suffix_has_none(s, from.len() as int, from, pattern);
                lemma_replacement_leaves_none(rest, from, to, pattern, pair);
                if i >= to.len() {
                    assert(later.subrange(i - to.len(), i - to.len() + pattern.len()) =~= found);
                    assert(text::occurs_at(later, pattern, i - to.len()));
                } else if i + pattern.len() <= to.len() {
                    assert(r[i + pair] == pattern[pair]);
                    assert(r[i + (pair + 1)] == pattern[pair + 1]);
                    assert(to[i + pair] == pattern[pair]);
                } else {
                    let l = to.len() - 1 - i;
                    assert(r[i + l] == pattern[l]);
                    assert(r[i] == pattern[0]);
                }
            } else {
                let rest = s.skip(1);
                let later = text::replaced(rest, from, to);
                lemma_suffix_has_none(s, 1, from, pattern);
                lemma_replacement_leaves_none(rest, from, to, pattern, pair);
                assert(r =~= seq![s[0]] + later);
                if i == 0 {
                    let q = pattern.skip(1);
                    assert(later.subrange(0, q.len() as int) =~= found.skip(1));
                    lemma_end_was_there(rest, from, to, pattern, pair, 1);
                    assert(s.subrange(0, pattern.len() as int) =~= pattern) by {
                        assert forall|j: int| 0 <= j < pattern.len() implies s[j] == pattern[j] by {
                            if j > 0 {
                                assert(rest.subrange(0, q.len() as int)[j - 1] == q[j - 1]);
                            } else {
                                assert(r[i] == pattern[0]);
                            }
                        }
                    }
                    assert(text::occurs_at(s, pattern, 0));
                } else {
                    assert(later.subrange(i - 1, i - 1 + pattern.len()) =~= found);
                    assert(text::occurs_at(later, pattern, i - 1));
                }
            }
        }
    }
}

proof fn lemma_suffix_has_none(s: Seq<char>, n: int, from: Seq<char>, pattern: Seq<char>)
    requires
        0 <= n <= s.len(),
        pattern == from || !text::occurs_in(s, pattern),
    ensures
        pattern == from || !text::occurs_in(s.skip(n), pattern),
{
    if pattern != from {
        assert forall|at: int| !#[trigger] text::occurs_at(s.skip(n), pattern, at) by {
            if text::occurs_at(s.skip(n), pattern, at) {
                assert(s.subrange(at + n, at + n + pattern.len()) =~= s.skip(n).subrange(
                    at,
                    at + pattern.len(),
                ));
                assert(text::occurs_at(s, pattern, at + n));
            }
        }
    }
}

/// A replacement brings in no other white space than that of `to`.
pub proof fn lemma_replacement_keeps_spaces_plain(s: Seq<char>, from: Seq<char>, to: Seq<char>)
    requires
        has_plain_spaces(s),
        has_plain_spaces(to),
    ensures
        has_plain_spaces(text::replaced(s, from, to)),
    decreases s.len(),
{
    if from.len() > 0 && s.len() >= from.len() {
        let n: int = if text::occurs_at(s, from, 0) {
            from.len() as int
        } else {
            1
        };
        let rest = s.skip(n);
        assert forall|i: int| 0 <= i < rest.len() && text::is_space(#[trigger] rest[i]) implies
            rest[i] == ' ' by {
            assert(rest[i] == s[i + n]);
        }
        lemma_replacement_keeps_spaces_plain(rest, from, to);
    }
}

/// Replacing text by tidy text keeps a tidy text tidy.
pub proof fn lemma_replacement_keeps_tidy(s: Seq<char>, from: Seq<char>, to: Seq<char>)
    requires
        is_tidy(to),
    ensures
        s.len() > 0 && !text::is_space(s[0]) ==> {
            let r = text::replaced(s, from, to);
            r.len() > 0 && !text::is_space(r[0])
        },
        s.len() > 0 && !text::is_space(s.last()) ==> {
            let r = text::replaced(s, from, to);
            r.len() > 0 && !text::is_space(r.last())
        },
    decreases s.len(),
{
    let r = text::replaced(s, from, to);
    if from.len() > 0 && s.len() >= from.len() {
        let n: int = if text::occurs_at(s, from, 0) {
            from.len() as int
        } else {
            1
        };
        let rest = s.skip(n);
        let later = text::replaced(rest, from, to);
        lemma_replacement_keeps_tidy(rest, from, to);
        if rest.len() == 0 {
            assert(later =~= seq![]);
        } else {
            assert(rest.last() == s.last());
        }
    }
}

} // verus!
