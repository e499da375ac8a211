//! What holds of a text as it is spoken: which terms are gone from it, how its words are
//! spaced, and that it stays as it is.

use vstd::prelude::*;
use vstd::string::*;

use crate::speech_text;
use crate::text;
use crate::text_laws;

verus! {

// ---------------------------------------------------------------------------
// The terms that are spelled out
// ---------------------------------------------------------------------------

/// `s` after the first `n` replacements of the terms.
spec fn after_terms(s: Seq<char>, n: int) -> Seq<char> {
    speech_text::spelled_out(s, speech_text::spoken_terms(), n as nat)
}

/// Whether none of the replacements from `first` on ever forms `pattern`.
spec fn none_forms(pattern: Seq<char>, pair: int, first: int) -> bool
    decreases 16 - first,
{
    first < 0 || first >= 16 || {
        &&& text_laws::never_forms(
            speech_text::spoken_terms()[first].0,
            speech_text::spoken_terms()[first].1,
            pattern,
            pair,
        )
        &&& none_forms(pattern, pair, first + 1)
    }
}

proof fn lemma_stays_away(s: Seq<char>, pattern: Seq<char>, pair: int, first: int)
    requires
        0 <= first < 16,
        none_forms(pattern, pair, first),
        pattern == speech_text::spoken_terms()[first].0 || !text::occurs_in(
            after_terms(s, first),
            pattern,
        ),
    ensures
        !text::occurs_in(after_terms(s, 16), pattern),
    decreases 16 - first,
{
    text_laws::lemma_replacement_leaves_none(
        after_terms(s, first),
        speech_text::spoken_terms()[first].0,
        speech_text::spoken_terms()[first].1,
        pattern,
        pair,
    );
    if first + 1 < 16 {
        lemma_stays_away(s, pattern, pair, first + 1);
    }
}

proof fn lemma_none_forms()
    ensures
        none_forms("O("@, 0, 3),
        none_forms("impl Trait"@, 4, 4),
        none_forms("K8s"@, 0, 5),
        none_forms("ElastiCache"@, 5, 6),
        none_forms("EKS"@, 0, 7),
        none_forms("AKS"@, 0, 8),
        none_forms("S3"@, 0, 9),
        none_forms("CRD"@, 0, 11),
        none_forms("createdb"@, 6, 12),
        none_forms("GPU"@, 0, 13),
        none_forms("CPU"@, 0, 14),
        none_forms("CLI"@, 0, 15),
        none_forms("l  "@, 1, 0),
{
    reveal_strlit("l  ");
    reveal_strlit("O(log n)");
    reveal_strlit("big O of log n");
    reveal_strlit("O(n)");
    reveal_strlit("big O of n");
    reveal_strlit("O(1)");
    reveal_strlit("big O of constant time");
    reveal_strlit("O(");
    reveal_strlit("big O of ");
    reveal_strlit("impl Trait");
    reveal_strlit("impl trait");
    reveal_strlit("K8s");
    reveal_strlit("Kubernetes");
    reveal_strlit("ElastiCache");
    reveal_strlit("Elastic Cache");
    reveal_strlit("EKS");
    reveal_strlit("E K S");
    reveal_strlit("AKS");
    reveal_strlit("A K S");
    reveal_strlit("S3");
    reveal_strlit("S 3");
    reveal_strlit("CRDs");
    reveal_strlit("C R Ds");
    reveal_strlit("CRD");
    reveal_strlit("C R D");
    reveal_strlit("createdb");
    reveal_strlit("create database");
    reveal_strlit("GPU");
    reveal_strlit("G P U");
    reveal_strlit("CPU");
    reveal_strlit("C P U");
    reveal_strlit("CLI");
    reveal_strlit("C L I");
    reveal_with_fuel(none_forms, 17);
}

proof fn lemma_terms_hold_no_space(pattern: Seq<char>)
    requires
        pattern == "O("@ || pattern == "K8s"@ || pattern == "ElastiCache"@ || pattern == "EKS"@
            || pattern == "AKS"@ || pattern == "S3"@ || pattern == "CRD"@ || pattern
            == "createdb"@ || pattern == "GPU"@ || pattern == "CPU"@ || pattern == "CLI"@,
    ensures
        text_laws::is_word(pattern),
{
    reveal_strlit("O(");
    reveal_strlit("K8s");
    reveal_strlit("ElastiCache");
    reveal_strlit("EKS");
    reveal_strlit("AKS");
    reveal_strlit("S3");
    reveal_strlit("CRD");
    reveal_strlit("createdb");
    reveal_strlit("GPU");
    reveal_strlit("CPU");
    reveal_strlit("CLI");
}

proof fn lemma_term_is_gone(s: Seq<char>, pattern: Seq<char>, pair: int, first: int)
    requires
        0 <= first < 16,
        none_forms(pattern, pair, first),
        pattern == speech_text::spoken_terms()[first].0,
        text_laws::is_word(pattern),
    ensures
        !text::occurs_in(speech_text::spoken(s), pattern),
{
    lemma_stays_away(s, pattern, pair, first);
    text_laws::lemma_spacing_leaves_none(after_terms(s, 16), pattern);
}

/// Whether a text holds none of the terms that are spelled out. `impl Trait`, which is
/// only written in small letters, is not among them.
pub open spec fn is_spelled_out(s: Seq<char>) -> bool {
    &&& !text::occurs_in(s, "O("@)
    &&& !text::occurs_in(s, "K8s"@)
    &&& !text::occurs_in(s, "ElastiCache"@)
    &&& !text::occurs_in(s, "EKS"@)
    &&& !text::occurs_in(s, "AKS"@)
    &&& !text::occurs_in(s, "S3"@)
    &&& !text::occurs_in(s, "CRD"@)
    &&& !text::occurs_in(s, "createdb"@)
    &&& !text::occurs_in(s, "GPU"@)
    &&& !text::occurs_in(s, "CPU"@)
    &&& !text::occurs_in(s, "CLI"@)
}

/// No term that is spelled out is left in a spoken text.
pub proof fn law_no_term_is_left(s: Seq<char>)
    ensures
        is_spelled_out(speech_text::spoken(s)),
{
    lemma_none_forms();
    lemma_terms_hold_no_space("O("@);
    lemma_terms_hold_no_space("K8s"@);
    lemma_terms_hold_no_space("ElastiCache"@);
    lemma_terms_hold_no_space("EKS"@);
    lemma_terms_hold_no_space("AKS"@);
    lemma_terms_hold_no_space("S3"@);
    lemma_terms_hold_no_space("CRD"@);
    lemma_terms_hold_no_space("createdb"@);
    lemma_terms_hold_no_space("GPU"@);
    lemma_terms_hold_no_space("CPU"@);
    lemma_terms_hold_no_space("CLI"@);
    lemma_term_is_gone(s, "O("@, 0, 3);
    lemma_term_is_gone(s, "K8s"@, 0, 5);
    lemma_term_is_gone(s, "ElastiCache"@, 5, 6);
    lemma_term_is_gone(s, "EKS"@, 0, 7);
    lemma_term_is_gone(s, "AKS"@, 0, 8);
    lemma_term_is_gone(s, "S3"@, 0, 9);
    lemma_term_is_gone(s, "CRD"@, 0, 11);
    lemma_term_is_gone(s, "createdb"@, 6, 12);
    lemma_term_is_gone(s, "GPU"@, 0, 13);
    lemma_term_is_gone(s, "CPU"@, 0, 14);
    lemma_term_is_gone(s, "CLI"@, 0, 15);
}

// ---------------------------------------------------------------------------
// Spacing
// ---------------------------------------------------------------------------

/// The words of a spoken text are one space apart: there is no other white space in it,
/// and speaking its words again, one space apart, gives the same text.
pub proof fn law_spoken_text_is_single_spaced(s: Seq<char>)
    ensures
        text_laws::is_single_spaced(speech_text::spoken(s)),
        speech_text::spoken(s).len() == 0 || text_laws::is_tidy(speech_text::spoken(s)),
        text::spaced(text::words(speech_text::spoken(s))) == speech_text::spoken(s),
{
    let list = text::words(after_terms(s, 16));
    text_laws::law_words_hold_the_visible(after_terms(s, 16));
    text_laws::law_spaced_words_are_found_again(list);
    text_laws::law_spaced_words_are_single_spaced(list);
}

// ---------------------------------------------------------------------------
// Speaking a spoken text again
// ---------------------------------------------------------------------------

proof fn lemma_longer_is_absent(s: Seq<char>, longer: Seq<char>, term: Seq<char>)
    requires
        !text::occurs_in(s, term),
        text::occurs_at(longer, term, 0),
    ensures
        !text::occurs_in(s, longer),
{
    if text::occurs_in(s, longer) {
        text_laws::lemma_occurs_within(s, longer, term);
    }
}

proof fn lemma_first_terms_are_absent(s: Seq<char>)
    requires
        !text::occurs_in(s, "O("@),
        !text::occurs_in(s, "CRD"@),
    ensures
        !text::occurs_in(s, "O(log n)"@),
        !text::occurs_in(s, "O(n)"@),
        !text::occurs_in(s, "O(1)"@),
        !text::occurs_in(s, "CRDs"@),
{
    reveal_strlit("O(");
    reveal_strlit("O(log n)");
    reveal_strlit("O(n)");
    reveal_strlit("O(1)");
    reveal_strlit("CRD");
    reveal_strlit("CRDs");
    assert("O(log n)"@.subrange(0, 2) =~= "O("@);
    assert("O(n)"@.subrange(0, 2) =~= "O("@);
    assert("O(1)"@.subrange(0, 2) =~= "O("@);
    assert("CRDs"@.subrange(0, 3) =~= "CRD"@);
    lemma_longer_is_absent(s, "O(log n)"@, "O("@);
    lemma_longer_is_absent(s, "O(n)"@, "O("@);
    lemma_longer_is_absent(s, "O(1)"@, "O("@);
    lemma_longer_is_absent(s, "CRDs"@, "CRD"@);
}

proof fn lemma_nothing_to_spell_out(s: Seq<char>, n: int)
    requires
        0 <= n <= 16,
        is_spelled_out(s),
        !text::occurs_in(s, "impl Trait"@),
    ensures
        after_terms(s, n) == s,
    decreases n,
{
    if n > 0 {
        let term = speech_text::spoken_terms()[n - 1];
        lemma_nothing_to_spell_out(s, n - 1);
        lemma_first_terms_are_absent(s);
        assert(!text::occurs_in(s, term.0));
        text_laws::law_replacing_nothing(s, term.0, term.1);
    }
}

/// Speaking a spoken text again changes nothing, unless `impl` and `Trait` have come one
/// space apart in it.
pub proof fn law_spoken_text_stays(s: Seq<char>)
    requires
        !text::occurs_in(speech_text::spoken(s), "impl Trait"@),
    ensures
        speech_text::spoken(speech_text::spoken(s)) == speech_text::spoken(s),
{
    law_no_term_is_left(s);
    lemma_nothing_to_spell_out(speech_text::spoken(s), 16);
    law_spoken_text_is_single_spaced(s);
}

proof fn lemma_terms_have_plain_spaces(n: int)
    requires
        0 <= n < 16,
    ensures
        text_laws::has_plain_spaces(speech_text::spoken_terms()[n].1),
{
    reveal_strlit("big O of log n");
    reveal_strlit("big O of n");
    reveal_strlit("big O of constant time");
    reveal_strlit("big O of ");
    reveal_strlit("impl trait");
    reveal_strlit("Kubernetes");
    reveal_strlit("Elastic Cache");
    reveal_strlit("E K S");
    reveal_strlit("A K S");
    reveal_strlit("S 3");
    reveal_strlit("C R Ds");
    reveal_strlit("C R D");
    reveal_strlit("create database");
    reveal_strlit("G P U");
    reveal_strlit("C P U");
    reveal_strlit("C L I");
}

proof fn lemma_spaces_stay_plain(s: Seq<char>, n: int)
    requires
        0 <= n <= 16,
        text_laws::has_plain_spaces(s),
    ensures
        text_laws::has_plain_spaces(after_terms(s, n)),
    decreases n,
{
    if n > 0 {
        let term = speech_text::spoken_terms()[n - 1];
        lemma_spaces_stay_plain(s, n - 1);
        lemma_terms_have_plain_spaces(n - 1);
        text_laws::lemma_replacement_keeps_spaces_plain(
            after_terms(s, n - 1),
            term.0,
            term.1,
        );
    }
}

/// Speaking a text a second time changes nothing, where the text holds no white space but
/// single spaces.
pub proof fn law_speaking_is_idempotent(s: Seq<char>)
    requires
        text_laws::is_single_spaced(s),
    ensures
        speech_text::spoken(speech_text::spoken(s)) == speech_text::spoken(s),
{
    reveal_strlit("l  ");
    reveal_strlit("impl");
    reveal_strlit("Trait");
    reveal_strlit("impl Trait");
    let t = after_terms(s, 16);
    lemma_none_forms();
    assert forall|at: int| !#[trigger] text::occurs_at(s, "l  "@, at) by {
        if text::occurs_at(s, "l  "@, at) {
            let found = s.subrange(at, at + 3);
            assert(found[1] == ' ' && found[2] == ' ');
            assert(s[at + 1] == ' ' && s[at + 2] == ' ');
        }
    }
    lemma_stays_away(s, "l  "@, 1, 0);
    lemma_stays_away(s, "impl Trait"@, 4, 4);
    lemma_spaces_stay_plain(s, 16);
    assert("impl"@.push(' ') + "Trait"@ =~= "impl Trait"@);
    assert(seq!["impl"@.last(), ' ', ' '] =~= "l  "@);
    text_laws::lemma_spacing_joins_none(t, "impl"@, "Trait"@);
    law_spoken_text_stays(s);
}

/// Speaking a text a third time changes nothing, whatever the text.
pub proof fn law_speaking_settles(s: Seq<char>)
    ensures
        speech_text::spoken(speech_text::spoken(speech_text::spoken(s))) == speech_text::spoken(
            speech_text::spoken(s),
        ),
{
    law_spoken_text_is_single_spaced(s);
    law_speaking_is_idempotent(speech_text::spoken(s));
}

// ---------------------------------------------------------------------------
// What speaking changes
// ---------------------------------------------------------------------------

/// A text that holds no technical term is spoken as its own words, one space apart.
pub proof fn law_plain_text_is_kept(s: Seq<char>)
    requires
        !text::occurs_in(s, "O("@),
        !text::occurs_in(s, "impl Trait"@),
        !text::occurs_in(s, "K8s"@),
        !text::occurs_in(s, "ElastiCache"@),
        !text::occurs_in(s, "EKS"@),
        !text::occurs_in(s, "AKS"@),
        !text::occurs_in(s, "S3"@),
        !text::occurs_in(s, "CRD"@),
        !text::occurs_in(s, "createdb"@),
        !text::occurs_in(s, "GPU"@),
        !text::occurs_in(s, "CPU"@),
        !text::occurs_in(s, "CLI"@),
    ensures
        speech_text::spoken(s) == text::spaced(text::words(s)),
{
    lemma_nothing_to_spell_out(s, 16);
}

/// Whether a term is spelled out as `spelled`.
pub open spec fn is_spelled(term: Seq<char>, spelled: Seq<char>) -> bool {
    ||| term == "O(log n)"@ && spelled == "big O of log n"@
    ||| term == "O(n)"@ && spelled == "big O of n"@
    ||| term == "O(1)"@ && spelled == "big O of constant time"@
    ||| term == "O("@ && spelled == "big O of "@
    ||| term == "impl Trait"@ && spelled == "impl trait"@
    ||| term == "K8s"@ && spelled == "Kubernetes"@
    ||| term == "ElastiCache"@ && spelled == "Elastic Cache"@
    ||| term == "EKS"@ && spelled == "E K S"@
    ||| term == "AKS"@ && spelled == "A K S"@
    ||| term == "S3"@ && spelled == "S 3"@
    ||| term == "CRDs"@ && spelled == "C R Ds"@
    ||| term == "CRD"@ && spelled == "C R D"@
    ||| term == "createdb"@ && spelled == "create database"@
    ||| term == "GPU"@ && spelled == "G P U"@
    ||| term == "CPU"@ && spelled == "C P U"@
    ||| term == "CLI"@ && spelled == "C L I"@
}

proof fn lemma_place_of_term(term: Seq<char>, spelled: Seq<char>) -> (k: int)
    requires
        is_spelled(term, spelled),
    ensures
        0 <= k < 16,
        speech_text::spoken_terms()[k] == (term, spelled),
        term.len() > 0,
        forall|n: int|
            0 <= n < k ==> !text::occurs_at(term, (#[trigger] speech_text::spoken_terms()[n]).0, 0),
{
    reveal_strlit("O(log n)");
    reveal_strlit("O(n)");
    reveal_strlit("O(1)");
    reveal_strlit("O(");
    reveal_strlit("impl Trait");
    reveal_strlit("K8s");
    reveal_strlit("ElastiCache");
    reveal_strlit("EKS");
    reveal_strlit("AKS");
    reveal_strlit("S3");
    reveal_strlit("CRDs");
    reveal_strlit("CRD");
    reveal_strlit("createdb");
    reveal_strlit("GPU");
    reveal_strlit("CPU");
    reveal_strlit("CLI");
    let terms = speech_text::spoken_terms();
    let k = if (term, spelled) == terms[0] {
        0int
    } else if (term, spelled) == terms[1] {
        1
    } else if (term, spelled) == terms[2] {
        2
    } else if (term, spelled) == terms[3] {
        3
    } else if (term, spelled) == terms[4] {
        4
    } else if (term, spelled) == terms[5] {
        5
    } else if (term, spelled) == terms[6] {
        6
    } else if (term, spelled) == terms[7] {
        7
    } else if (term, spelled) == terms[8] {
        8
    } else if (term, spelled) == terms[9] {
        9
    } else if (term, spelled) == terms[10] {
        10
    } else if (term, spelled) == terms[11] {
        11
    } else if (term, spelled) == terms[12] {
        12
    } else if (term, spelled) == terms[13] {
        13
    } else if (term, spelled) == terms[14] {
        14
    } else {
        15
    };
    lemma_terms_differ(k);
    k
}

/// No term begins with one that stands before it in the list.
proof fn lemma_terms_differ(k: int)
    requires
        0 <= k < 16,
    ensures
        forall|n: int|
            0 <= n < k ==> !text::occurs_at(
                speech_text::spoken_terms()[k].0,
                (#[trigger] speech_text::spoken_terms()[n]).0,
                0,
            ),
{
    reveal_strlit("O(log n)");
    reveal_strlit("O(n)");
    reveal_strlit("O(1)");
    reveal_strlit("O(");
    reveal_strlit("impl Trait");
    reveal_strlit("K8s");
    reveal_strlit("ElastiCache");
    reveal_strlit("EKS");
    reveal_strlit("AKS");
    reveal_strlit("S3");
    reveal_strlit("CRDs");
    reveal_strlit("CRD");
    reveal_strlit("createdb");
    reveal_strlit("GPU");
    reveal_strlit("CPU");
    reveal_strlit("CLI");
    let terms = speech_text::spoken_terms();
    let term = terms[k].0;
    assert forall|n: int| 0 <= n < k implies !text::occurs_at(
        term,
        (#[trigger] terms[n]).0,
        0,
    ) by {
        let other = terms[n].0;
        if text::occurs_at(term, other, 0) {
            let start = term.subrange(0, other.len() as int);
            assert(start[0] == term[0] && start[1] == term[1]);
            assert(term[0] == other[0] && term[1] == other[1]);
            if other.len() > 2 {
                assert(start[2] == term[2]);
                assert(term[2] == other[2]);
            }
        }
    }
}

proof fn lemma_terms_are_spelled(n: int)
    requires
        0 <= n < 16,
    ensures
        is_spelled(speech_text::spoken_terms()[n].0, speech_text::spoken_terms()[n].1),
{
}

proof fn lemma_one_term(
    before: Seq<char>,
    term: Seq<char>,
    spelled: Seq<char>,
    behind: Seq<char>,
    k: int,
    n: int,
)
    requires
        0 <= k < 16,
        0 <= n <= 16,
        speech_text::spoken_terms()[k] == (term, spelled),
        term.len() > 0,
        forall|i: int|
            0 <= i < k ==> !text::occurs_at(term, (#[trigger] speech_text::spoken_terms()[i]).0, 0),
        forall|other: Seq<char>, word: Seq<char>, at: int|
            #![trigger is_spelled(other, word), text::occurs_at(before + term + behind, other, at)]
            is_spelled(other, word) && text::occurs_at(before + term + behind, other, at) ==> at
                == before.len() && other.len() <= term.len(),
        forall|other: Seq<char>, word: Seq<char>|
            #[trigger] is_spelled(other, word) ==> !text::occurs_in(
                before + spelled + behind,
                other,
            ),
    ensures
        after_terms(before + term + behind, n) == if n <= k {
            before + term + behind
        } else {
            before + spelled + behind
        },
    decreases n,
{
    let s = before + term + behind;
    let t = before + spelled + behind;
    if n > 0 {
        let i = n - 1;
        let other = speech_text::spoken_terms()[i];
        lemma_one_term(before, term, spelled, behind, k, i);
        lemma_terms_are_spelled(i);
        if i < k {
            assert(!text::occurs_in(s, other.0)) by {
                if text::occurs_in(s, other.0) {
                    let at = choose|at: int| text::occurs_at(s, other.0, at);
                    assert(is_spelled(other.0, other.1));
                    assert(at == before.len());
                    assert(term.subrange(0, other.0.len() as int) =~= s.subrange(
                        at,
                        at + other.0.len(),
                    ));
                    assert(text::occurs_at(term, other.0, 0));
                }
            }
            text_laws::law_replacing_nothing(s, other.0, other.1);
        } else if i == k {
            let at = before.len() as int;
            assert(is_spelled(term, spelled));
            assert(s.subrange(at, at + term.len()) =~= term);
            assert forall|j: int| 0 <= j < at implies #[trigger] s.subrange(j, j + term.len())
                != term by {
                assert(!text::occurs_at(s, term, j));
            }
            crate::character_laws::law_replacing_the_first_occurrence(s, term, spelled, at);
            assert(s.subrange(0, at) =~= before);
            assert(s.subrange(at + term.len(), s.len() as int) =~= behind);
            assert(!text::occurs_in(behind, term)) by {
                if text::occurs_in(behind, term) {
                    let later = choose|later: int| text::occurs_at(behind, term, later);
                    let place = later + at + term.len();
                    assert(s.subrange(place, place + term.len()) =~= behind.subrange(
                        later,
                        later + term.len(),
                    ));
                    assert(text::occurs_at(s, term, place));
                }
            }
            text_laws::law_replacing_nothing(behind, term, spelled);
        } else {
            assert(!text::occurs_in(t, other.0));
            text_laws::law_replacing_nothing(t, other.0, other.1);
        }
    }
}

/// A term that stands alone in a text, in whatever company, is spelled out in its place,
/// and nothing else of the text changes but its white space: where the text holds no other
/// term, and none is formed by what the term is spelled as.
pub proof fn law_a_term_is_spelled_out_in_place(
    before: Seq<char>,
    term: Seq<char>,
    spelled: Seq<char>,
    behind: Seq<char>,
)
    requires
        is_spelled(term, spelled),
        forall|other: Seq<char>, word: Seq<char>, at: int|
            #![trigger is_spelled(other, word), text::occurs_at(before + term + behind, other, at)]
            is_spelled(other, word) && text::occurs_at(before + term + behind, other, at) ==> at
                == before.len() && other.len() <= term.len(),
        forall|other: Seq<char>, word: Seq<char>|
            #[trigger] is_spelled(other, word) ==> !text::occurs_in(
                before + spelled + behind,
                other,
            ),
    ensures
        speech_text::spoken(before + term + behind) == text::spaced(
            text::words(before + spelled + behind),
        ),
{
    let k = lemma_place_of_term(term, spelled);
    lemma_one_term(before, term, spelled, behind, k, 16);
}

/// The terms are spelled out one after the other, each wherever it then occurs; the words
/// of what that comes to are spoken one space apart.
pub proof fn law_terms_are_spelled_out_in_turn(s: Seq<char>)
    ensures
        ({
            let t = text::replaced(s, "O(log n)"@, "big O of log n"@);
            let t = text::replaced(t, "O(n)"@, "big O of n"@);
            let t = text::replaced(t, "O(1)"@, "big O of constant time"@);
            let t = text::replaced(t, "O("@, "big O of "@);
            let t = text::replaced(t, "impl Trait"@, "impl trait"@);
            let t = text::replaced(t, "K8s"@, "Kubernetes"@);
            let t = text::replaced(t, "ElastiCache"@, "Elastic Cache"@);
            let t = text::replaced(t, "EKS"@, "E K S"@);
            let t = text::replaced(t, "AKS"@, "A K S"@);
            let t = text::replaced(t, "S3"@, "S 3"@);
            let t = text::replaced(t, "CRDs"@, "C R Ds"@);
            let t = text::replaced(t, "CRD"@, "C R D"@);
            let t = text::replaced(t, "createdb"@, "create database"@);
            let t = text::replaced(t, "GPU"@, "G P U"@);
            let t = text::replaced(t, "CPU"@, "C P U"@);
            let t = text::replaced(t, "CLI"@, "C L I"@);
            speech_text::spoken(s) == text::spaced(text::words(t))
        }),
{
    reveal_with_fuel(speech_text::spelled_out, 17);
}

} // verus!
