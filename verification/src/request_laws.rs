//! What holds of what a request asks for: its texts are only tidied, and its parameters
//! mean what they say.

use vstd::prelude::*;
use vstd::string::*;

use crate::character_laws;
use crate::instructions;
use crate::queue::RequestView;
use crate::runtime;
use crate::runtime::AppView;
use crate::state;
use crate::state::{OverridesView, ParameterError};
use crate::text;
use crate::text_laws;

verus! {

// ---------------------------------------------------------------------------
// Overrides
// ---------------------------------------------------------------------------

/// Whether `after` is what is left of an optional text that was tidied: the text without
/// the white space round it, or nothing where nothing else was there.
pub open spec fn is_tidied(before: Option<Seq<char>>, after: Option<Seq<char>>) -> bool {
    match before {
        Some(value) => if text::trimmed(value).len() > 0 {
            after == Some(text::trimmed(value))
        } else {
            after is None
        },
        None => after is None,
    }
}

/// Whether an optional text that is set has no white space round it and is not empty.
pub open spec fn is_tidy_if_set(value: Option<Seq<char>>) -> bool {
    value matches Some(found) ==> found.len() > 0 && !text::is_space(found[0]) && !text::is_space(
        found[found.len() - 1],
    )
}

/// Every text of the overrides is tidied, and nothing else of them changes.
pub proof fn law_overrides_are_only_tidied(overrides: OverridesView)
    ensures
        ({
            let after = state::normalized_overrides(overrides);
            &&& is_tidied(overrides.voice_preset, after.voice_preset)
            &&& is_tidied(overrides.style, after.style)
            &&& is_tidied(overrides.description, after.description)
            &&& is_tidied(overrides.reference_audio_path, after.reference_audio_path)
            &&& is_tidied(overrides.reference_preset_id, after.reference_preset_id)
            &&& is_tidied(overrides.reference_preset_name, after.reference_preset_name)
            &&& is_tidied(overrides.output_dir, after.output_dir)
            &&& after.cfg_scale == overrides.cfg_scale
            &&& after.temperature == overrides.temperature
            &&& after.max_tokens == overrides.max_tokens
            &&& after.chunk_size == overrides.chunk_size
            &&& after.save_audio == overrides.save_audio
        }),
{
}

/// Whether every text that the overrides set is tidy.
pub open spec fn sets_tidy_texts(overrides: OverridesView) -> bool {
    &&& is_tidy_if_set(overrides.voice_preset)
    &&& is_tidy_if_set(overrides.style)
    &&& is_tidy_if_set(overrides.description)
    &&& is_tidy_if_set(overrides.reference_audio_path)
    &&& is_tidy_if_set(overrides.reference_preset_id)
    &&& is_tidy_if_set(overrides.reference_preset_name)
    &&& is_tidy_if_set(overrides.output_dir)
}

proof fn lemma_tidy_option_stays(value: Option<Seq<char>>)
    requires
        is_tidy_if_set(value),
    ensures
        is_tidied(value, value),
{
    if let Some(found) = value {
        text_laws::lemma_tidy_is_trimmed(found);
    }
}

/// Overrides whose texts are tidy are kept as they are.
pub proof fn law_tidy_overrides_are_kept(overrides: OverridesView)
    requires
        sets_tidy_texts(overrides),
    ensures
        state::normalized_overrides(overrides) == overrides,
{
    lemma_tidy_option_stays(overrides.voice_preset);
    lemma_tidy_option_stays(overrides.style);
    lemma_tidy_option_stays(overrides.description);
    lemma_tidy_option_stays(overrides.reference_audio_path);
    lemma_tidy_option_stays(overrides.reference_preset_id);
    lemma_tidy_option_stays(overrides.reference_preset_name);
    lemma_tidy_option_stays(overrides.output_dir);
}

/// A request that the selected model takes, and whose texts are tidy, is queued behind all
/// others, with exactly the overrides that it came with.
pub proof fn law_a_tidy_request_is_queued_as_it_came(
    app: AppView,
    selection: Seq<char>,
    overrides: OverridesView,
    reference_exists: bool,
    playback_empty: bool,
)
    requires
        text::trimmed(selection).len() > 0,
        sets_tidy_texts(overrides),
        instructions::override_error(app.config.voice_model, overrides, reference_exists) is None,
    ensures
        runtime::enqueue_error(app, selection, overrides, reference_exists) is None,
        runtime::after_enqueue(
            app,
            selection,
            overrides,
            reference_exists,
            playback_empty,
        ).queue.items == app.queue.items + seq![
            RequestView { text: text::trimmed(selection), overrides },
        ],
{
    law_tidy_overrides_are_kept(overrides);
    assert(app.queue.items.push(RequestView { text: text::trimmed(selection), overrides })
        =~= app.queue.items + seq![RequestView { text: text::trimmed(selection), overrides }]);
}

// ---------------------------------------------------------------------------
// Parameters
// ---------------------------------------------------------------------------

/// The texts that stand for a truth value, in whatever case and with whatever white space
/// round them; no other text stands for one.
pub proof fn law_what_a_flag_means(s: Seq<char>)
    ensures
        ({
            let word = text::ascii_lower(text::trimmed(s));
            &&& state::flag_value(s) == Some(true) <==> word == "1"@ || word == "true"@ || word
                == "yes"@ || word == "on"@
            &&& state::flag_value(s) == Some(false) <==> word == "0"@ || word == "false"@ || word
                == "no"@ || word == "off"@
        }),
{
    reveal_strlit("1");
    reveal_strlit("true");
    reveal_strlit("yes");
    reveal_strlit("on");
    reveal_strlit("0");
    reveal_strlit("false");
    reveal_strlit("no");
    reveal_strlit("off");
    let word = text::ascii_lower(text::trimmed(s));
    assert(word == "0"@ ==> word.len() == 1 && word[0] == '0');
    assert(word == "no"@ ==> word.len() == 2 && word[0] == 'n');
    assert(word == "off"@ ==> word.len() == 3 && word[0] == 'o');
    assert(word == "false"@ ==> word.len() == 5);
    assert(word == "1"@ ==> word.len() == 1 && word[0] == '1');
    assert(word == "on"@ ==> word.len() == 2 && word[0] == 'o');
    assert(word == "yes"@ ==> word.len() == 3 && word[0] == 'y');
    assert(word == "true"@ ==> word.len() == 4);
}

/// Whether a text is made of decimal digits.
pub open spec fn all_digits(s: Seq<char>) -> bool {
    forall|i: int| 0 <= i < s.len() ==> '0' <= #[trigger] s[i] && s[i] <= '9'
}

proof fn lemma_prefix_is_smaller(s: Seq<char>, n: int)
    requires
        all_digits(s),
        0 <= n <= s.len(),
    ensures
        character_laws::number_of(s.take(n)) <= character_laws::number_of(s),
    decreases s.len(),
{
    if n == s.len() {
        assert(s.take(n) =~= s);
    } else {
        lemma_prefix_is_smaller(s.drop_last(), n);
        assert(s.drop_last().take(n) =~= s.take(n));
        assert('0' <= s[s.len() - 1]);
    }
}

proof fn lemma_digits_read(s: Seq<char>, n: int)
    requires
        0 <= n <= s.len(),
        all_digits(s.take(n)),
        n > 0 ==> character_laws::number_of(s.take(n)) <= usize::MAX,
    ensures
        match state::digits_read(s.skip(n), character_laws::number_of(s.take(n))) {
            Ok(value) => all_digits(s) && value == character_laws::number_of(s) && value
                <= usize::MAX,
            Err(error) => {
                ||| error == ParameterError::InvalidDigit && exists|k: int|
                    0 <= k < s.len() && all_digits(#[trigger] s.take(k)) && !('0' <= s[k] && s[k]
                        <= '9') && character_laws::number_of(s.take(k)) <= usize::MAX
                ||| error == ParameterError::TooLarge && exists|k: int|
                    0 <= k <= s.len() && all_digits(#[trigger] s.take(k))
                        && character_laws::number_of(s.take(k)) > usize::MAX
            },
        },
    decreases s.len() - n,
{
    if n == s.len() {
        assert(s.take(n) =~= s);
        if n == 0 {
            assert(character_laws::number_of(s) == 0);
        }
    } else {
        let rest = s.skip(n);
        assert(rest[0] == s[n]);
        assert(rest.skip(1) =~= s.skip(n + 1));
        let next = s.take(n + 1);
        assert(next.drop_last() =~= s.take(n));
        assert(next.last() == s[n]);
        if n == 0 {
            assert(character_laws::number_of(s.take(n)) == 0);
        }
        if '0' <= s[n] && s[n] <= '9' {
            assert forall|i: int| 0 <= i < next.len() implies '0' <= #[trigger] next[i] && next[i]
                <= '9' by {
                if i < n {
                    assert(s.take(n)[i] == next[i]);
                }
            }
            if character_laws::number_of(next) <= usize::MAX {
                lemma_digits_read(s, n + 1);
            } else {
                assert(all_digits(s.take(n + 1)));
            }
        } else {
            assert(all_digits(s.take(n)));
        }
    }
}

/// A text of decimal digits, at least one, with or without a plus sign in front, stands
/// for the number that they write, where that is a number a length can have; no other text
/// stands for a number.
pub proof fn law_what_a_count_means(s: Seq<char>, value: nat)
    ensures
        ({
            let digits = if s.len() > 0 && s[0] == '+' {
                s.subrange(1, s.len() as int)
            } else {
                s
            };
            state::count_value(s) == Ok::<nat, ParameterError>(value) <==> digits.len() > 0
                && all_digits(digits) && character_laws::number_of(digits) == value && value
                <= usize::MAX
        }),
        state::count_value(s) == Err::<nat, ParameterError>(ParameterError::Empty) <==> s.len()
            == 0,
        state::count_value(s) is Err ==> state::count_value(s)->Err_0 == ParameterError::Empty
            || state::count_value(s)->Err_0 == ParameterError::InvalidDigit
            || state::count_value(s)->Err_0 == ParameterError::TooLarge,
{
    let digits = if s.len() > 0 && s[0] == '+' {
        s.subrange(1, s.len() as int)
    } else {
        s
    };
    if s.len() > 0 && s[0] == '+' {
        assert(s.skip(1) =~= digits);
    }
    assert(digits.take(0).len() == 0);
    assert(digits.skip(0) =~= digits);
    assert(character_laws::number_of(digits.take(0)) == 0);
    lemma_digits_read(digits, 0);
    if all_digits(digits) {
        assert forall|k: int| 0 <= k <= digits.len() implies character_laws::number_of(
            #[trigger] digits.take(k),
        ) <= character_laws::number_of(digits) by {
            lemma_prefix_is_smaller(digits, k);
        }
    }
    if s.len() == 1 && s[0] == '-' {
        assert(!('0' <= digits[0]));
    }
}

/// A number is too large exactly if the digits in front of the first character that is no
/// digit write a number that no length can have.
pub proof fn law_when_a_count_is_too_large(digits: Seq<char>, k: int)
    requires
        digits.len() > 0,
        digits[0] != '+',
        0 <= k <= digits.len(),
        all_digits(digits.subrange(0, k)),
        k < digits.len() ==> !('0' <= digits[k] && digits[k] <= '9'),
    ensures
        state::count_value(digits) == Err::<nat, ParameterError>(ParameterError::TooLarge)
            <==> character_laws::number_of(digits.subrange(0, k)) > usize::MAX,
{
    let front = digits.subrange(0, k);
    assert(digits.take(0).len() == 0);
    assert(digits.skip(0) =~= digits);
    assert(character_laws::number_of(digits.take(0)) == 0);
    lemma_digits_read(digits, 0);
    assert(digits.take(k) =~= front);
    assert forall|n: int| 0 <= n <= digits.len() && all_digits(#[trigger] digits.take(n)) implies n
        <= k && character_laws::number_of(digits.take(n)) <= character_laws::number_of(
        front,
    ) by {
        if n > k {
            assert(digits.take(n)[k] == digits[k]);
        }
        lemma_prefix_is_smaller(front, n);
        assert(front.take(n) =~= digits.take(n));
    }
    assert forall|n: int|
        0 <= n < digits.len() && all_digits(#[trigger] digits.take(n)) && !('0' <= digits[n]
            && digits[n] <= '9') implies n == k by {
        if n < k {
            assert(front[n] == digits[n]);
        }
    }
    if k == digits.len() {
        assert(front =~= digits);
    }
    if digits.len() == 1 && digits[0] == '-' {
        assert(k == 0);
        assert(character_laws::number_of(front) == 0);
    }
}

/// Every number that a length can have is read back from its decimal notation.
pub proof fn law_counts_are_read_back(n: nat)
    requires
        n <= usize::MAX,
    ensures
        state::count_value(text::decimal(n)) == Ok::<nat, ParameterError>(n),
{
    character_laws::law_decimal_stands_for_the_number(n);
    let d = text::decimal(n);
    assert('0' <= d[0]);
    law_what_a_count_means(d, n);
}

} // verus!
