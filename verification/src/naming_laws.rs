//! What a preset's name, id and files are made of.

use vstd::prelude::*;
use vstd::string::*;

use crate::paths;
use crate::presets;
use crate::presets::{PresetSource, PresetView, ReferenceView};
use crate::text;
use crate::text_laws;

verus! {

// ---------------------------------------------------------------------------
// What a name gives to an id
// ---------------------------------------------------------------------------

/// Whether a character is an ASCII letter or digit.
pub open spec fn is_plain(c: char) -> bool {
    'a' <= c && c <= 'z' || 'A' <= c && c <= 'Z' || '0' <= c && c <= '9'
}

/// Whether a text holds nothing but ASCII letters and digits.
pub open spec fn all_plain(s: Seq<char>) -> bool {
    forall|i: int| 0 <= i < s.len() ==> is_plain(#[trigger] s[i])
}

/// Whether a text holds no ASCII letter or digit.
pub open spec fn none_plain(s: Seq<char>) -> bool {
    forall|i: int| 0 <= i < s.len() ==> !is_plain(#[trigger] s[i])
}

proof fn lemma_dashed_word(x: Seq<char>, word: Seq<char>)
    requires
        all_plain(word),
    ensures
        presets::dashed(x + word) == presets::dashed(x) + text::ascii_lower(word),
    decreases word.len(),
{
    if word.len() == 0 {
        assert(x + word =~= x);
        assert(presets::dashed(x) + text::ascii_lower(word) =~= presets::dashed(x));
    } else {
        let front = word.drop_last();
        assert forall|i: int| 0 <= i < front.len() implies is_plain(#[trigger] front[i]) by {
            assert(front[i] == word[i]);
        }
        lemma_dashed_word(x, front);
        assert((x + word).drop_last() =~= x + front);
        assert((x + word).last() == word.last());
        assert(is_plain(word[word.len() - 1]));
        assert(presets::dashed(x + word) =~= presets::dashed(x) + text::ascii_lower(word));
    }
}

proof fn lemma_dashed_gap(x: Seq<char>, gap: Seq<char>)
    requires
        none_plain(gap),
        gap.len() > 0,
    ensures
        presets::dashed(x + gap) == if presets::dashed(x).len() > 0 && presets::dashed(x).last()
            == '-' {
            presets::dashed(x)
        } else {
            presets::dashed(x).push('-')
        },
    decreases gap.len(),
{
    let front = gap.drop_last();
    assert((x + gap).drop_last() =~= x + front);
    assert((x + gap).last() == gap.last());
    assert(!is_plain(gap[gap.len() - 1]));
    if front.len() == 0 {
        assert(x + front =~= x);
    } else {
        assert forall|i: int| 0 <= i < front.len() implies !is_plain(#[trigger] front[i]) by {
            assert(front[i] == gap[i]);
        }
        lemma_dashed_gap(x, front);
    }
}

proof fn lemma_undashed_start_of(s: Seq<char>, more: Seq<char>)
    requires
        presets::undashed_start(s).len() > 0,
    ensures
        presets::undashed_start(s + more) == presets::undashed_start(s) + more,
    decreases s.len(),
{
    if s.len() > 0 && s[0] == '-' {
        lemma_undashed_start_of(s.skip(1), more);
        assert((s + more).skip(1) =~= s.skip(1) + more);
    }
}

proof fn lemma_undashed_start_keeps_end(s: Seq<char>)
    requires
        s.len() > 0,
        s.last() != '-',
    ensures
        presets::undashed_start(s).len() > 0,
        presets::undashed_start(s).last() == s.last(),
    decreases s.len(),
{
    if s[0] == '-' {
        assert(s.skip(1).last() == s.last());
        lemma_undashed_start_keeps_end(s.skip(1));
    }
}

/// A name of ASCII letters and digits gives them all to the id, in lower case.
pub proof fn law_a_plain_name_is_its_own_slug(name: Seq<char>)
    requires
        all_plain(name),
        0 < name.len() <= 48,
    ensures
        presets::preset_slug(name) == text::ascii_lower(name),
{
    let lower = text::ascii_lower(name);
    assert(is_plain(name[0]) && is_plain(name[name.len() - 1]));
    text_laws::lemma_tidy_is_trimmed(name);
    let none = Seq::<char>::empty();
    lemma_dashed_word(none, name);
    assert(none + name =~= name);
    assert(presets::dashed(none) + lower =~= lower);
    assert(lower[0] != '-' && lower[lower.len() - 1] != '-');
}

/// Behind whatever else stands between two words of a name, the second one follows the
/// first by one dash.
pub proof fn law_words_of_a_name_are_dashed(front: Seq<char>, gap: Seq<char>, word: Seq<char>)
    requires
        front.len() > 0,
        !text::is_space(front[0]),
        is_plain(front[front.len() - 1]),
        gap.len() > 0,
        none_plain(gap),
        word.len() > 0,
        all_plain(word),
        presets::preset_slug(front).len() + 1 + word.len() <= 48,
    ensures
        presets::preset_slug(front + gap + word) == presets::preset_slug(front) + seq!['-']
            + text::ascii_lower(word),
{
    let name = front + gap + word;
    let lower = text::ascii_lower(word);
    assert(name[0] == front[0]);
    assert(name[name.len() - 1] == word[word.len() - 1]);
    assert(is_plain(word[word.len() - 1]));
    text_laws::lemma_tidy_is_trimmed(front);
    text_laws::lemma_tidy_is_trimmed(name);
    let start = presets::dashed(front);
    assert(start.len() > 0 && start.last() == text::ascii_lower_char(front.last()));
    assert(start.last() != '-');
    lemma_dashed_gap(front, gap);
    lemma_dashed_word(front + gap, word);
    assert(presets::dashed(name) == start.push('-') + lower);
    let tail = seq!['-'] + lower;
    assert(start.push('-') + lower =~= start + tail);
    lemma_undashed_start_keeps_end(start);
    lemma_undashed_start_of(start, tail);
    let first = presets::undashed_start(start);
    let whole = first + tail;
    assert(whole.last() == lower.last());
    assert(is_plain(word.last()));
    assert(lower.last() == text::ascii_lower_char(word.last()));
    assert(presets::undashed_end(whole) == whole);
    assert(presets::undashed_end(first) == first);
    if first.len() > 48 {
        assert(presets::preset_slug(front).len() == 48);
    }
    assert(presets::preset_slug(front) == first);
    assert(whole =~= first + seq!['-'] + lower);
}

/// A name without any ASCII letter or digit gives the id a word of its own.
pub proof fn law_a_name_without_letters(name: Seq<char>)
    requires
        none_plain(name),
    ensures
        presets::preset_slug(name) == "preset"@,
{
    let t = text::trimmed(name);
    let at = crate::character_laws::law_trimmed_is_the_middle(name);
    assert forall|i: int| 0 <= i < t.len() implies !is_plain(#[trigger] t[i]) by {
        assert(t[i] == name[at + i]);
    }
    let none = Seq::<char>::empty();
    if t.len() > 0 {
        lemma_dashed_gap(none, t);
        assert(none + t =~= t);
        let d = presets::dashed(t);
        assert(d =~= seq!['-']);
        assert(d.skip(1).len() == 0);
        assert(presets::undashed_start(d) =~= none) by {
            reveal_with_fuel(presets::undashed_start, 2);
        }
        assert(presets::undashed_end(none) =~= none);
    } else {
        assert(presets::dashed(t) =~= none);
        assert(presets::undashed_start(none) =~= none);
        assert(presets::undashed_end(none) =~= none);
    }
}

/// The letters and digits of a text, in lower case.
pub open spec fn plain_letters(s: Seq<char>) -> Seq<char> {
    text::ascii_lower(s.filter(|c: char| is_plain(c)))
}

/// A text without its dashes.
pub open spec fn without_dashes(s: Seq<char>) -> Seq<char> {
    s.filter(|c: char| c != '-')
}

proof fn lemma_dashed_letters(s: Seq<char>)
    ensures
        without_dashes(presets::dashed(s)) == plain_letters(s),
    decreases s.len(),
{
    reveal(Seq::filter);
    if s.len() > 0 {
        let front = s.drop_last();
        lemma_dashed_letters(front);
        let d = presets::dashed(front);
        assert(d.push('-').drop_last() =~= d);
        assert(d.push(text::ascii_lower_char(s.last())).drop_last() =~= d);
        if is_plain(s.last()) {
            assert(text::ascii_lower_char(s.last()) != '-');
            assert(plain_letters(s) =~= plain_letters(front).push(
                text::ascii_lower_char(s.last()),
            ));
        }
    } else {
        assert(without_dashes(presets::dashed(s)) =~= plain_letters(s));
    }
}

proof fn lemma_undashing_keeps_letters(s: Seq<char>)
    ensures
        without_dashes(presets::undashed_start(s)) == without_dashes(s),
        without_dashes(presets::undashed_end(s)) == without_dashes(s),
    decreases s.len(),
{
    reveal(Seq::filter);
    if s.len() > 0 && s[0] == '-' {
        lemma_undashing_keeps_letters(s.skip(1));
        let keep = |c: char| c != '-';
        Seq::filter_distributes_over_add(seq!['-'], s.skip(1), keep);
        assert(seq!['-'] + s.skip(1) =~= s);
        assert(seq!['-'].drop_last() =~= Seq::<char>::empty());
        assert(seq!['-'].drop_last().filter(keep) =~= Seq::<char>::empty());
        assert(seq!['-'].last() == '-');
        assert(seq!['-'].filter(keep) =~= Seq::<char>::empty());
        assert(Seq::<char>::empty() + s.skip(1).filter(keep) =~= s.skip(1).filter(keep));
    }
    if s.len() > 0 && s.last() == '-' {
        lemma_undashing_keeps_letters(s.drop_last());
    }
}

/// What a name gives to an id are its ASCII letters and digits, in lower case and in
/// order: all of them where the id has room, and as many as fit otherwise.
pub proof fn law_a_slug_keeps_the_letters(name: Seq<char>)
    requires
        plain_letters(name).len() > 0,
    ensures
        ({
            let slug = presets::preset_slug(name);
            let letters = plain_letters(name);
            let kept = without_dashes(slug);
            &&& kept.len() <= letters.len()
            &&& kept == letters.subrange(0, kept.len() as int)
            &&& slug.len() < 48 ==> kept == letters
        }),
{
    let t = text::trimmed(name);
    lemma_trimming_keeps_letters(name);
    lemma_dashed_letters(t);
    let d = presets::dashed(t);
    lemma_undashing_keeps_letters(d);
    lemma_undashing_keeps_letters(presets::undashed_start(d));
    let s = presets::undashed_end(presets::undashed_start(d));
    let letters = plain_letters(name);
    assert(without_dashes(s) == letters);
    assert(s.len() > 0) by {
        reveal(Seq::filter);
    }
    if s.len() > 48 {
        let head = s.take(48);
        let tail = s.skip(48);
        let keep = |c: char| c != '-';
        assert(head + tail =~= s);
        Seq::filter_distributes_over_add(head, tail, keep);
        assert(letters.subrange(0, without_dashes(head).len() as int) =~= without_dashes(head));
    } else {
        assert(letters.subrange(0, letters.len() as int) =~= letters);
    }
}

proof fn lemma_undashed_end_ends_plain(s: Seq<char>)
    ensures
        presets::undashed_end(s).len() > 0 ==> presets::undashed_end(s)[presets::undashed_end(
            s,
        ).len() - 1] != '-',
    decreases s.len(),
{
    if s.len() > 0 && s.last() == '-' {
        lemma_undashed_end_ends_plain(s.drop_last());
    }
}

/// What a name gives to an id ends with a letter or a digit, unless the id had no room for
/// more.
pub proof fn law_a_slug_ends_with_a_letter(name: Seq<char>)
    requires
        presets::preset_slug(name).len() < 48,
    ensures
        presets::preset_slug(name)[presets::preset_slug(name).len() - 1] != '-',
{
    reveal_strlit("preset");
    lemma_undashed_end_ends_plain(
        presets::undashed_start(presets::dashed(text::trimmed(name))),
    );
}

proof fn lemma_trimming_keeps_letters(name: Seq<char>)
    ensures
        plain_letters(text::trimmed(name)) == plain_letters(name),
{
    let t = text::trimmed(name);
    let at = crate::character_laws::law_trimmed_is_the_middle(name);
    let keep = |c: char| is_plain(c);
    let front = name.subrange(0, at);
    let back = name.subrange(at + t.len(), name.len() as int);
    assert(name =~= front + (t + back));
    Seq::filter_distributes_over_add(front, t + back, keep);
    Seq::filter_distributes_over_add(t, back, keep);
    lemma_spaces_hold_no_letters(front);
    lemma_spaces_hold_no_letters(back);
    assert(Seq::<char>::empty() + (t.filter(keep) + Seq::<char>::empty()) =~= t.filter(keep));
}

proof fn lemma_spaces_hold_no_letters(s: Seq<char>)
    requires
        forall|i: int| 0 <= i < s.len() ==> text::is_space(#[trigger] s[i]),
    ensures
        s.filter(|c: char| is_plain(c)) == Seq::<char>::empty(),
    decreases s.len(),
{
    reveal(Seq::filter);
    if s.len() > 0 {
        let front = s.drop_last();
        assert forall|i: int| 0 <= i < front.len() implies text::is_space(#[trigger] front[i]) by {
            assert(front[i] == s[i]);
        }
        lemma_spaces_hold_no_letters(front);
        assert(text::is_space(s[s.len() - 1]));
    }
}

/// An id is what a name gives to it, a dash and the time, so that two times give two ids.
pub proof fn law_two_times_give_two_ids(name: Seq<char>, one: u128, other: u128)
    ensures
        presets::new_id(name, one) == presets::preset_slug(name) + seq!['-'] + text::decimal(
            one as nat,
        ),
        one != other ==> presets::new_id(name, one) != presets::new_id(name, other),
{
    reveal_strlit("-");
    assert("-"@ =~= seq!['-']);
    let front = presets::preset_slug(name) + seq!['-'];
    let a = text::decimal(one as nat);
    let b = text::decimal(other as nat);
    let left = presets::new_id(name, one);
    let right = presets::new_id(name, other);
    if one != other && left == right {
        assert(left.subrange(front.len() as int, left.len() as int) =~= a);
        assert(right.subrange(front.len() as int, right.len() as int) =~= b);
        crate::character_laws::law_decimal_stands_for_the_number(one as nat);
        crate::character_laws::law_decimal_stands_for_the_number(other as nat);
    }
}

/// A text is an id exactly if, without the white space round it, it is not empty and holds
/// nothing but ASCII letters, digits, dashes and underscores.
pub proof fn law_which_texts_are_ids(id: Seq<char>)
    ensures
        ({
            let t = text::trimmed(id);
            let good = forall|i: int|
                0 <= i < t.len() ==> is_plain(#[trigger] t[i]) || t[i] == '-' || t[i] == '_';
            presets::id_error(id) == if t.len() == 0 {
                Some("Preset id cannot be empty."@)
            } else if !good {
                Some("Preset id must use only letters, numbers, hyphens, or underscores."@)
            } else {
                None
            }
        }),
{
    let t = text::trimmed(id);
    let good = forall|i: int|
        0 <= i < t.len() ==> is_plain(#[trigger] t[i]) || t[i] == '-' || t[i] == '_';
    if good {
        assert forall|i: int| 0 <= i < t.len() implies presets::is_id_char(#[trigger] t[i]) by {
            assert(is_plain(t[i]) || t[i] == '-' || t[i] == '_');
        }
    }
    if presets::is_id(t) {
        assert forall|i: int| 0 <= i < t.len() implies is_plain(#[trigger] t[i]) || t[i] == '-'
            || t[i] == '_' by {
            assert(presets::is_id_char(t[i]));
        }
        assert(good);
    }
}

// ---------------------------------------------------------------------------
// Names
// ---------------------------------------------------------------------------

/// Whether two names are the same but for case and the white space round them.
pub open spec fn is_same_name(one: Seq<char>, other: Seq<char>) -> bool {
    text::unicode_lower(text::trimmed(one)) == text::unicode_lower(text::trimmed(other))
}

proof fn lemma_first_of_name(list: Seq<PresetView>, name: Seq<char>, from: int, i: int)
    requires
        0 <= from <= i <= list.len(),
        forall|j: int| from <= j < i ==> !is_same_name((#[trigger] list[j]).name, name),
        i < list.len() ==> is_same_name(list[i].name, name),
    ensures
        presets::first_named(list, text::unicode_lower(text::trimmed(name)), from) == if i
            < list.len() {
            Some(i)
        } else {
            None
        },
    decreases i - from,
{
    if from < i {
        assert(!is_same_name(list[from].name, name));
        lemma_first_of_name(list, name, from + 1, i);
    }
}

/// A name that is not blank is free for a new preset exactly if no preset has the same
/// name; otherwise the first one that has it is reported, with its id.
pub proof fn law_when_a_name_is_taken(list: Seq<PresetView>, name: Seq<char>, i: int)
    requires
        text::trimmed(name).len() > 0,
        0 <= i <= list.len(),
        forall|j: int| 0 <= j < i ==> !is_same_name((#[trigger] list[j]).name, name),
        i < list.len() ==> is_same_name(list[i].name, name),
    ensures
        i == list.len() ==> presets::name_error(list, name) is None,
        i < list.len() ==> presets::name_error(list, name) == Some(
            "A VibeVoice preset named '"@ + list[i].name + "' already exists with id '"@
                + list[i].id + "'. Use a unique name."@,
        ),
{
    lemma_first_of_name(list, name, 0, i);
}

/// A preset is found by a name exactly if it is the only one that has it. Where none has
/// it, or more than one, that is reported.
pub proof fn law_which_preset_is_found(list: Seq<PresetView>, name: Seq<char>, i: int, k: int)
    requires
        text::trimmed(name).len() > 0,
        0 <= i <= list.len(),
        forall|j: int| 0 <= j < i ==> !is_same_name((#[trigger] list[j]).name, name),
        i < list.len() ==> is_same_name(list[i].name, name),
        i < list.len() ==> i < k <= list.len(),
        forall|j: int| i < j < k ==> !is_same_name((#[trigger] list[j]).name, name),
        k < list.len() ==> is_same_name(list[k].name, name),
    ensures
        i == list.len() ==> presets::lookup_error(list, name) == Some(
            "No VibeVoice preset named '"@ + text::trimmed(name) + "' was found."@,
        ),
        i < list.len() && k == list.len() ==> presets::lookup_error(list, name) is None
            && presets::first_named(list, presets::comparable_name(name), 0) == Some(i),
        i < list.len() && k < list.len() ==> presets::lookup_error(list, name) == Some(
            "Multiple VibeVoice presets named '"@ + text::trimmed(name)
                + "' were found. Use reference_preset_id instead."@,
        ),
{
    lemma_first_of_name(list, name, 0, i);
    if i < list.len() {
        lemma_first_of_name(list, name, i + 1, k);
    }
}

/// A new preset has the name that was asked for, tidied; where that is blank or was not
/// asked for, that of the file that it comes from.
pub proof fn law_how_a_preset_is_named(source: Seq<char>, name: Option<Seq<char>>)
    ensures
        name is Some && text::trimmed(name->0).len() > 0 ==> presets::new_name(source, name)
            == text::trimmed(name->0),
        !(name is Some && text::trimmed(name->0).len() > 0) ==> presets::new_name(source, name)
            == match paths::file_stem(source) {
            Some(stem) => stem,
            None => "VibeVoice preset"@,
        },
{
}

/// A new preset keeps what is known of its audio, and its own copy of it in the directory
/// for that, under its id and with the extension of the source, or as a wave file where
/// the source has none.
pub proof fn law_what_a_new_preset_holds(
    asset_root: Seq<char>,
    source: PresetSource,
    name: Option<Seq<char>>,
)
    ensures
        ({
            let preset = presets::new_preset(asset_root, source, name);
            let ending = match paths::extension(source.path@) {
                Some(found) => if text::trimmed(found).len() > 0 {
                    found
                } else {
                    "wav"@
                },
                None => "wav"@,
            };
            &&& preset.name == presets::new_name(source.path@, name)
            &&& preset.id == presets::new_id(preset.name, source.created_at_millis)
            &&& preset.clip_duration_secs == source.clip_duration_secs
            &&& preset.sample_rate == source.sample_rate
            &&& preset.created_at_unix_secs == source.created_at_unix_secs
            &&& preset.source_audio_path == text::joined_path(
                text::joined_path(asset_root, "vibevoice-preset-audio"@),
                preset.id + "."@ + ending,
            )
        }),
{
}

/// A preset is kept in a file of its id.
pub proof fn law_where_a_preset_is_kept(preset_dir: Seq<char>, id: Seq<char>)
    ensures
        presets::preset_file(preset_dir, id) == text::joined_path(preset_dir, id + ".json"@),
{
}

/// The reference voice of a request is the audio file that it names, or else the preset by
/// its id, or else the preset by its name; blank texts name nothing.
pub proof fn law_which_voice_is_referred_to(
    path: Option<Seq<char>>,
    id: Option<Seq<char>>,
    name: Option<Seq<char>>,
)
    ensures
        ({
            let voice = presets::reference_voice(path, id, name);
            let by_path = path is Some && text::trimmed(path->0).len() > 0;
            let by_id = id is Some && text::trimmed(id->0).len() > 0;
            let by_name = name is Some && text::trimmed(name->0).len() > 0;
            &&& by_path ==> voice == ReferenceView::AudioFile(text::trimmed(path->0))
            &&& !by_path && by_id ==> voice == ReferenceView::PresetId(text::trimmed(id->0))
            &&& !by_path && !by_id && by_name ==> voice == ReferenceView::PresetName(
                text::trimmed(name->0),
            )
            &&& !by_path && !by_id && !by_name ==> voice is Unset
        }),
{
}

} // verus!
