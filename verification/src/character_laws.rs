//! What the text operations do, said of the characters of their results.

use vstd::prelude::*;
use vstd::string::*;

use crate::text;
use crate::text_laws;

verus! {

/// White space is what Unicode gives the property `White_Space`, and nothing else.
pub proof fn law_white_space(c: char)
    ensures
        text::is_space(c) <==> {
            ||| c == ' ' || c == '\t' || c == '\n' || c == '\r'
            ||| c == '\u{b}' || c == '\u{c}' || c == '\u{85}' || c == '\u{a0}' || c == '\u{1680}'
            ||| '\u{2000}' <= c && c <= '\u{200a}'
            ||| c == '\u{2028}' || c == '\u{2029}' || c == '\u{202f}' || c == '\u{205f}' || c
                == '\u{3000}'
        },
{
}

/// A trimmed text is a stretch of the text with nothing but white space before and behind
/// it. The stretch is empty or begins and ends with something other than white space, so
/// there is only one.
pub proof fn law_trimmed_is_the_middle(s: Seq<char>) -> (at: int)
    ensures
        ({
            let t = text::trimmed(s);
            &&& 0 <= at <= at + t.len() <= s.len()
            &&& t == s.subrange(at, at + t.len())
            &&& forall|i: int| 0 <= i < at ==> text::is_space(#[trigger] s[i])
            &&& forall|i: int| at + t.len() <= i < s.len() ==> text::is_space(#[trigger] s[i])
            &&& t.len() > 0 ==> !text::is_space(t[0]) && !text::is_space(t[t.len() - 1])
        }),
{
    let at = lemma_trim_start_place(s);
    let u = text::trim_start(s);
    law_trimmed_end(u);
    let t = text::trimmed(s);
    assert(s.subrange(at, at + t.len()) =~= u.subrange(0, t.len() as int));
    assert forall|i: int| at + t.len() <= i < s.len() implies text::is_space(#[trigger] s[i]) by {
        assert(u[i - at] == s[i]);
    }
    text_laws::law_trimmed_is_tidy(s);
    at
}

proof fn lemma_trim_start_place(s: Seq<char>) -> (at: int)
    ensures
        0 <= at <= s.len(),
        text::trim_start(s) == s.subrange(at, s.len() as int),
        forall|i: int| 0 <= i < at ==> text::is_space(#[trigger] s[i]),
    decreases s.len(),
{
    if s.len() == 0 || !text::is_space(s[0]) {
        assert(s.subrange(0, s.len() as int) =~= s);
        0
    } else {
        let at = lemma_trim_start_place(s.skip(1));
        assert(s.subrange(at + 1, s.len() as int) =~= s.skip(1).subrange(at, s.len() - 1));
        assert forall|i: int| 0 <= i < at + 1 implies text::is_space(#[trigger] s[i]) by {
            if i > 0 {
                assert(s.skip(1)[i - 1] == s[i]);
            }
        }
        at + 1
    }
}

/// A text whose end is trimmed is a stretch from its start, with nothing but white space
/// behind it and something else at its end.
pub proof fn law_trimmed_end(s: Seq<char>)
    ensures
        ({
            let n = text::trim_end(s).len() as int;
            &&& n <= s.len()
            &&& text::trim_end(s) == s.subrange(0, n)
            &&& forall|i: int| n <= i < s.len() ==> text::is_space(#[trigger] s[i])
            &&& n > 0 ==> !text::is_space(s[n - 1])
        }),
    decreases s.len(),
{
    if s.len() == 0 || !text::is_space(s.last()) {
        assert(s.subrange(0, s.len() as int) =~= s);
    } else {
        let shorter = s.drop_last();
        law_trimmed_end(shorter);
        let n = text::trim_end(s).len() as int;
        assert(shorter.subrange(0, n) =~= s.subrange(0, n));
        assert forall|i: int| n <= i < s.len() implies text::is_space(#[trigger] s[i]) by {
            if i < shorter.len() {
                assert(shorter[i] == s[i]);
            }
        }
    }
}

/// A text is blank exactly if it holds nothing but white space, and that is exactly if
/// nothing is left of it once it is trimmed.
pub proof fn law_which_texts_are_blank(s: Seq<char>)
    ensures
        text::is_blank(s) <==> text::trimmed(s).len() == 0,
        text::is_blank(s) <==> forall|i: int| 0 <= i < s.len() ==> text::is_space(#[trigger] s[i]),
{
    let at = law_trimmed_is_the_middle(s);
    let t = text::trimmed(s);
    if t.len() > 0 {
        assert(t[0] == s[at]);
    }
}

/// A text occurs at a place exactly if its characters stand there, and it occurs in another
/// exactly if there is such a place.
pub proof fn law_where_a_text_occurs(s: Seq<char>, pattern: Seq<char>, at: int)
    ensures
        text::occurs_at(s, pattern, at) <==> 0 <= at <= at + pattern.len() <= s.len() && (forall|
            i: int,
        |
            0 <= i < pattern.len() ==> s[at + i] == #[trigger] pattern[i]),
        text::occurs_at(s, pattern, at) ==> text::occurs_in(s, pattern),
        text::occurs_in(s, pattern) <==> exists|k: int| #[trigger] text::occurs_at(s, pattern, k),
{
    if text::occurs_at(s, pattern, at) {
        let found = s.subrange(at, at + pattern.len());
        assert forall|i: int| 0 <= i < pattern.len() implies s[at + i] == #[trigger] pattern[i] by {
            assert(found[i] == s[at + i]);
        }
    }
    if 0 <= at <= at + pattern.len() <= s.len() && (forall|i: int|
        0 <= i < pattern.len() ==> s[at + i] == #[trigger] pattern[i]) {
        assert(s.subrange(at, at + pattern.len()) =~= pattern);
    }
}

/// The words of a text are its stretches without white space, whole and in order: word
/// `i` stands at a place with white space or the end of the text on either side, and
/// between one word and the next there is nothing but white space.
pub proof fn law_words_stand_between_spaces(s: Seq<char>, i: int) -> (at: int)
    requires
        0 <= i < text::words(s).len(),
    ensures
        ({
            let w = text::words(s)[i];
            &&& 0 <= at < at + w.len() <= s.len()
            &&& w == s.subrange(at, at + w.len())
            &&& forall|j: int| 0 <= j < w.len() ==> !text::is_space(#[trigger] w[j])
            &&& at == 0 || text::is_space(s[at - 1])
            &&& at + w.len() == s.len() || text::is_space(s[at + w.len()])
        }),
    decreases s.len(),
{
    let list = text::words(s);
    if text::is_space(s[0]) {
        let rest = s.skip(1);
        let at = law_words_stand_between_spaces(rest, i);
        let w = list[i];
        assert(s.subrange(at + 1, at + 1 + w.len()) =~= rest.subrange(at, at + w.len()));
        if at > 0 {
            assert(rest[at - 1] == s[at]);
        }
        if at + w.len() < rest.len() {
            assert(rest[at + w.len()] == s[at + 1 + w.len()]);
        }
        at + 1
    } else {
        lemma_first_word_length(s);
        let n = text::word_length(s) as int;
        let rest = s.skip(n);
        assert(list == seq![s.take(n)] + text::words(rest));
        if i == 0 {
            assert(list[0] == s.take(n));
            assert(s.take(n) =~= s.subrange(0, n));
            0
        } else {
            assert(list[i] == text::words(rest)[i - 1]);
            let at = law_words_stand_between_spaces(rest, i - 1);
            let w = list[i];
            assert(s.subrange(at + n, at + n + w.len()) =~= rest.subrange(at, at + w.len()));
            assert(rest[at] == s[at + n]);
            assert(w[0] == rest[at]);
            if at > 0 {
                assert(rest[at - 1] == s[at + n - 1]);
            } else {
                assert(text::is_space(s[n]));
            }
            if at + w.len() < rest.len() {
                assert(rest[at + w.len()] == s[at + n + w.len()]);
            }
            at + n
        }
    }
}

proof fn lemma_first_word_length(s: Seq<char>)
    ensures
        text::word_length(s) <= s.len(),
        forall|j: int| 0 <= j < text::word_length(s) ==> !text::is_space(#[trigger] s[j]),
        text::word_length(s) < s.len() ==> text::is_space(s[text::word_length(s) as int]),
    decreases s.len(),
{
    if s.len() > 0 && !text::is_space(s[0]) {
        lemma_first_word_length(s.skip(1));
        assert forall|j: int| 0 <= j < text::word_length(s) implies !text::is_space(
            #[trigger] s[j],
        ) by {
            if j > 0 {
                assert(s.skip(1)[j - 1] == s[j]);
            }
        }
    }
}

/// The words of a text hold its characters but for the white space, and no others.
pub proof fn law_words_lose_nothing(s: Seq<char>)
    ensures
        text::words(s).flatten() == s.filter(|c: char| !text::is_space(c)),
{
    text_laws::law_words_hold_the_visible(s);
    law_concatenated_is_flat(text::words(s));
}

/// Parts that are put one after the other are kept whole and in order.
pub proof fn law_concatenated_is_flat(list: Seq<Seq<char>>)
    ensures
        text::concatenated(list) == list.flatten(),
    decreases list.len(),
{
    list.lemma_flatten_and_flatten_alt_are_equivalent();
    if list.len() > 0 {
        law_concatenated_is_flat(list.drop_last());
        list.drop_last().lemma_flatten_and_flatten_alt_are_equivalent();
    }
}

/// Texts that are put one space apart keep their characters: the first comes first, and
/// each further one follows behind one space.
pub proof fn law_spaced_texts_follow_one_another(list: Seq<Seq<char>>, next: Seq<char>)
    ensures
        text::spaced(Seq::<Seq<char>>::empty()).len() == 0,
        text::spaced(seq![next]) == next,
        list.len() > 0 ==> text::spaced(list.push(next)) == text::spaced(list) + seq![' '] + next,
{
    assert(list.push(next).drop_last() =~= list);
    assert(text::spaced(list).push(' ') =~= text::spaced(list) + seq![' ']);
}

/// A replacement takes out the first occurrence, puts the new text in its place, keeps
/// what stands before it, and goes on behind it.
pub proof fn law_replacing_the_first_occurrence(
    s: Seq<char>,
    from: Seq<char>,
    to: Seq<char>,
    at: int,
)
    requires
        from.len() > 0,
        0 <= at <= at + from.len() <= s.len(),
        s.subrange(at, at + from.len()) == from,
        forall|i: int| 0 <= i < at ==> #[trigger] s.subrange(i, i + from.len()) != from,
    ensures
        text::replaced(s, from, to) == s.subrange(0, at) + to + text::replaced(
            s.subrange(at + from.len(), s.len() as int),
            from,
            to,
        ),
    decreases at,
{
    if at == 0 {
        assert(s.skip(from.len() as int) =~= s.subrange(from.len() as int, s.len() as int));
        assert(s.subrange(0, 0) + to =~= to);
    } else {
        let rest = s.skip(1);
        let first: int = 0;
        assert(s.subrange(first, first + from.len()) != from);
        assert(rest.subrange(at - 1, at - 1 + from.len()) =~= from) by {
            assert(s.subrange(at, at + from.len()) =~= rest.subrange(at - 1, at - 1 + from.len()));
        }
        assert forall|i: int| 0 <= i < at - 1 implies #[trigger] rest.subrange(i, i + from.len())
            != from by {
            assert(rest.subrange(i, i + from.len()) =~= s.subrange(i + 1, i + 1 + from.len()));
        }
        law_replacing_the_first_occurrence(rest, from, to, at - 1);
        let later = text::replaced(s.subrange(at + from.len(), s.len() as int), from, to);
        assert(rest.subrange(at - 1 + from.len(), rest.len() as int) =~= s.subrange(
            at + from.len(),
            s.len() as int,
        ));
        assert(text::replaced(s, from, to) =~= seq![s[0]] + text::replaced(rest, from, to));
        assert(seq![s[0]] + rest.subrange(0, at - 1) =~= s.subrange(0, at));
        assert(text::replaced(s, from, to) =~= s.subrange(0, at) + to + later);
    }
}

/// The number that a text of decimal digits stands for.
pub open spec fn number_of(digits: Seq<char>) -> nat
    decreases digits.len(),
{
    if digits.len() == 0 {
        0
    } else {
        (number_of(digits.drop_last()) * 10 + (digits.last() as int - '0' as int)) as nat
    }
}

/// A number in decimal notation is made of digits, stands for the number, and begins with
/// no zero unless it is zero.
pub proof fn law_decimal_stands_for_the_number(n: nat)
    ensures
        text::decimal(n).len() > 0,
        forall|i: int|
            0 <= i < text::decimal(n).len() ==> '0' <= (#[trigger] text::decimal(n)[i])
                && text::decimal(n)[i] <= '9',
        number_of(text::decimal(n)) == n,
        text::decimal(n)[0] == '0' ==> n == 0 && text::decimal(n).len() == 1,
    decreases n,
{
    let d = text::decimal(n);
    if n < 10 {
        assert(d.drop_last() =~= Seq::<char>::empty());
        assert(number_of(d.drop_last()) == 0);
    } else {
        law_decimal_stands_for_the_number(n / 10);
        assert(d.drop_last() =~= text::decimal(n / 10));
        assert(d[0] == text::decimal(n / 10)[0]);
    }
}

/// Lower case changes the letters from A to Z, to those that stand for them, and nothing
/// else.
pub proof fn law_ascii_lower(s: Seq<char>, i: int)
    requires
        0 <= i < s.len(),
    ensures
        text::ascii_lower(s).len() == s.len(),
        'A' <= s[i] && s[i] <= 'Z' ==> text::ascii_lower(s)[i] as int == s[i] as int + ('a' as int
            - 'A' as int),
        !('A' <= s[i] && s[i] <= 'Z') ==> text::ascii_lower(s)[i] == s[i],
{
}

/// A plain name is put behind its directory, with one slash between them.
pub proof fn law_joined_path(dir: Seq<char>, name: Seq<char>)
    requires
        name.len() == 0 || name[0] != '/',
    ensures
        text::joined_path(dir, name) == if dir.len() == 0 || dir[dir.len() - 1] == '/' {
            dir + name
        } else {
            dir + seq!['/'] + name
        },
        name.len() > 0 ==> text::joined_path(dir, seq!['/'] + name) == seq!['/'] + name,
{
    assert(dir.push('/') =~= dir + seq!['/']);
}

} // verus!
