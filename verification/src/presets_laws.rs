//! What holds of saved reference voices, whichever were saved.

use vstd::prelude::*;
use vstd::string::*;

use crate::paths;
use crate::presets;
use crate::presets::{PresetSource, PresetView};
use crate::text;
use crate::text_laws;

verus! {

// ---------------------------------------------------------------------------
// Ids
// ---------------------------------------------------------------------------

/// Whether a character is a small ASCII letter, a digit or a dash.
pub open spec fn is_slug_char(c: char) -> bool {
    ('a' <= c && c <= 'z') || ('0' <= c && c <= '9') || c == '-'
}

/// Whether a text holds nothing but small ASCII letters, digits and dashes.
pub open spec fn is_slug_text(s: Seq<char>) -> bool {
    forall|i: int| 0 <= i < s.len() ==> is_slug_char(#[trigger] s[i])
}

/// Whether no two dashes stand next to each other.
pub open spec fn has_single_dashes(s: Seq<char>) -> bool {
    forall|i: int| 0 <= i < s.len() - 1 ==> (#[trigger] s[i] != '-' || s[i + 1] != '-')
}

proof fn lemma_part_of_slug(s: Seq<char>, from: int, to: int)
    requires
        0 <= from <= to <= s.len(),
        is_slug_text(s),
        has_single_dashes(s),
    ensures
        is_slug_text(s.subrange(from, to)),
        has_single_dashes(s.subrange(from, to)),
{
    let part = s.subrange(from, to);
    assert forall|i: int| 0 <= i < part.len() implies is_slug_char(#[trigger] part[i]) by {
        assert(part[i] == s[from + i]);
    }
    assert forall|i: int| 0 <= i < part.len() - 1 implies (#[trigger] part[i] != '-' || part[i + 1]
        != '-') by {
        assert(part[i] == s[from + i]);
    }
}

proof fn lemma_dashed(s: Seq<char>)
    ensures
        is_slug_text(presets::dashed(s)),
        has_single_dashes(presets::dashed(s)),
    decreases s.len(),
{
    if s.len() > 0 {
        lemma_dashed(s.drop_last());
    }
}

proof fn lemma_undashed_start(s: Seq<char>)
    requires
        is_slug_text(s),
        has_single_dashes(s),
    ensures
        is_slug_text(presets::undashed_start(s)),
        has_single_dashes(presets::undashed_start(s)),
        presets::undashed_start(s).len() > 0 ==> presets::undashed_start(s)[0] != '-',
    decreases s.len(),
{
    if s.len() > 0 && s[0] == '-' {
        lemma_part_of_slug(s, 1, s.len() as int);
        assert(s.skip(1) =~= s.subrange(1, s.len() as int));
        lemma_undashed_start(s.skip(1));
    }
}

proof fn lemma_undashed_end(s: Seq<char>)
    requires
        is_slug_text(s),
        has_single_dashes(s),
        s.len() > 0 ==> s[0] != '-',
    ensures
        is_slug_text(presets::undashed_end(s)),
        has_single_dashes(presets::undashed_end(s)),
        presets::undashed_end(s).len() > 0 ==> presets::undashed_end(s)[0] != '-',
    decreases s.len(),
{
    if s.len() > 0 && s.last() == '-' {
        lemma_part_of_slug(s, 0, s.len() - 1);
        assert(s.drop_last() =~= s.subrange(0, s.len() - 1));
        lemma_undashed_end(s.drop_last());
    }
}

/// What a name gives to an id is never empty, never too long, begins with no dash, has no
/// two dashes together, and holds nothing but small ASCII letters, digits and dashes. By
/// itself it is a valid id, as it stands.
pub proof fn law_slug_shape(name: Seq<char>)
    ensures
        1 <= presets::preset_slug(name).len() <= presets::SLUG_LENGTH,
        is_slug_text(presets::preset_slug(name)),
        presets::preset_slug(name)[0] != '-',
        has_single_dashes(presets::preset_slug(name)),
        presets::id_error(presets::preset_slug(name)) is None,
        text::trimmed(presets::preset_slug(name)) == presets::preset_slug(name),
{
    reveal_strlit("preset");
    let d = presets::dashed(text::trimmed(name));
    lemma_dashed(text::trimmed(name));
    lemma_undashed_start(d);
    lemma_undashed_end(presets::undashed_start(d));
    let s = presets::undashed_end(presets::undashed_start(d));
    let most = presets::SLUG_LENGTH as int;
    if s.len() > most {
        lemma_part_of_slug(s, 0, most);
        assert(s.take(most) =~= s.subrange(0, most));
    }
    let slug = presets::preset_slug(name);
    assert forall|i: int| 0 <= i < slug.len() implies presets::is_id_char(#[trigger] slug[i])
        && !text::is_space(slug[i]) by {
        assert(is_slug_char(slug[i]));
    }
    assert(!text::is_space(slug[0]));
    assert(!text::is_space(slug[slug.len() - 1]));
    text_laws::lemma_tidy_is_trimmed(slug);
}

proof fn lemma_decimal_is_digits(n: nat)
    ensures
        text::decimal(n).len() > 0,
        forall|i: int|
            0 <= i < text::decimal(n).len() ==> '0' <= (#[trigger] text::decimal(n)[i])
                && text::decimal(n)[i] <= '9',
    decreases n,
{
    if n >= 10 {
        lemma_decimal_is_digits(n / 10);
    }
}

/// The id of a new preset is a valid id, as it stands.
pub proof fn law_new_id_is_valid(name: Seq<char>, created_at_millis: u128)
    ensures
        presets::id_error(presets::new_id(name, created_at_millis)) is None,
        text::trimmed(presets::new_id(name, created_at_millis)) == presets::new_id(
            name,
            created_at_millis,
        ),
{
    reveal_strlit("-");
    let slug = presets::preset_slug(name);
    let digits = text::decimal(created_at_millis as nat);
    let id = presets::new_id(name, created_at_millis);
    law_slug_shape(name);
    lemma_decimal_is_digits(created_at_millis as nat);
    assert(id == slug + "-"@ + digits);
    assert forall|i: int| 0 <= i < id.len() implies presets::is_id_char(#[trigger] id[i])
        && !text::is_space(id[i]) by {
        if i < slug.len() {
            assert(id[i] == slug[i]);
            assert(is_slug_char(slug[i]));
        } else if i > slug.len() {
            assert(id[i] == digits[i - slug.len() - 1]);
        } else {
            assert(id[i] == '-');
        }
    }
    assert(!text::is_space(id[0]));
    assert(!text::is_space(id[id.len() - 1]));
    text_laws::lemma_tidy_is_trimmed(id);
}

/// A valid id leads to a file of its own in the directory of the presets, named by the id,
/// and two ids lead to two files.
pub proof fn law_preset_file_stays_in_its_directory(
    preset_dir: Seq<char>,
    preset_id: Seq<char>,
    other: Seq<char>,
)
    requires
        preset_id.len() > 0,
        presets::is_id(preset_id),
    ensures
        paths::parent(presets::preset_file(preset_dir, preset_id)) matches Some(found)
            && paths::is_same_path(found, preset_dir) && (paths::path_body(preset_dir)
            == preset_dir ==> found == preset_dir),
        paths::file_name(presets::preset_file(preset_dir, preset_id)) == Some(
            preset_id + ".json"@,
        ),
        other.len() > 0 && presets::is_id(other) && other != preset_id ==> paths::file_name(
            presets::preset_file(preset_dir, other),
        ) != paths::file_name(presets::preset_file(preset_dir, preset_id)),
{
    lemma_preset_file(preset_dir, preset_id);
    if other.len() > 0 && presets::is_id(other) && other != preset_id {
        lemma_preset_file(preset_dir, other);
        if other + ".json"@ == preset_id + ".json"@ {
            assert(other.len() == preset_id.len());
            assert(other =~= (other + ".json"@).take(other.len() as int));
            assert(preset_id =~= (preset_id + ".json"@).take(other.len() as int));
        }
    }
}

proof fn lemma_preset_file(preset_dir: Seq<char>, preset_id: Seq<char>)
    requires
        preset_id.len() > 0,
        presets::is_id(preset_id),
    ensures
        paths::parent(presets::preset_file(preset_dir, preset_id)) matches Some(found)
            && paths::is_same_path(found, preset_dir) && (paths::path_body(preset_dir)
            == preset_dir ==> found == preset_dir),
        paths::file_name(presets::preset_file(preset_dir, preset_id)) == Some(
            preset_id + ".json"@,
        ),
{
    reveal_strlit(".json");
    reveal_strlit(".");
    reveal_strlit("..");
    let name = preset_id + ".json"@;
    assert forall|i: int| 0 <= i < name.len() implies name[i] != '/' by {
        if i < preset_id.len() {
            assert(name[i] == preset_id[i]);
            assert(presets::is_id_char(preset_id[i]));
        } else {
            assert(name[i] == ".json"@[i - preset_id.len()]);
        }
    }
    assert(name.len() != "."@.len());
    assert(name.len() != ".."@.len());
    paths::law_parent_of_joined(preset_dir, name);
}

proof fn lemma_name_has_no_slash(s: Seq<char>)
    ensures
        paths::name_start(s) <= s.len(),
        forall|i: int| paths::name_start(s) <= i < s.len() ==> #[trigger] s[i] != '/',
    decreases s.len(),
{
    if s.len() > 0 && s.last() != '/' {
        lemma_name_has_no_slash(s.drop_last());
        assert forall|i: int| paths::name_start(s) <= i < s.len() implies #[trigger] s[i] != '/' by {
            if i < s.len() - 1 {
                assert(s.drop_last()[i] == s[i]);
            }
        }
    }
}

proof fn lemma_dot_is_inside(name: Seq<char>)
    ensures
        paths::last_dot(name) matches Some(at) ==> at < name.len(),
    decreases name.len(),
{
    if name.len() > 0 && name.last() != '.' {
        lemma_dot_is_inside(name.drop_last());
    }
}

proof fn lemma_extension_has_no_slash(source: Seq<char>)
    ensures
        forall|i: int|
            0 <= i < presets::audio_extension(source).len() ==> #[trigger] presets::audio_extension(
                source,
            )[i] != '/',
{
    reveal_strlit("wav");
    let body = paths::path_body(source);
    let start = paths::name_start(body) as int;
    let name = body.skip(start);
    lemma_name_has_no_slash(body);
    lemma_dot_is_inside(name);
    if let Some(found) = paths::extension(source) {
        if let Some(at) = paths::last_dot(name) {
            assert forall|i: int| 0 <= i < found.len() implies #[trigger] found[i] != '/' by {
                assert(found[i] == body[start + at + 1 + i]);
            }
        }
    }
}

/// A new preset keeps its own copy of its audio, in the directory for that and named by
/// its id, wherever its source lies.
pub proof fn law_preset_audio_is_kept_apart(
    asset_root: Seq<char>,
    source: PresetSource,
    name: Option<Seq<char>>,
)
    ensures
        paths::parent(presets::new_preset(asset_root, source, name).source_audio_path) == Some(
            text::joined_path(asset_root, presets::PRESET_AUDIO_DIR@),
        ),
        paths::file_name(presets::new_preset(asset_root, source, name).source_audio_path) == Some(
            presets::new_preset(asset_root, source, name).id + "."@ + presets::audio_extension(
                source.path@,
            ),
        ),
{
    reveal_strlit("vibevoice-preset-audio");
    reveal_strlit(".");
    reveal_strlit("..");
    let dir = text::joined_path(asset_root, presets::PRESET_AUDIO_DIR@);
    let id = presets::new_id(
        presets::new_name(source.path@, name),
        source.created_at_millis,
    );
    let extension = presets::audio_extension(source.path@);
    let file = id + "."@ + extension;
    law_new_id_is_valid(presets::new_name(source.path@, name), source.created_at_millis);
    lemma_extension_has_no_slash(source.path@);
    assert forall|i: int| 0 <= i < file.len() implies file[i] != '/' by {
        if i < id.len() {
            assert(file[i] == id[i]);
            assert(presets::is_id_char(id[i]));
        } else if i > id.len() {
            assert(file[i] == extension[i - id.len() - 1]);
        }
    }
    assert(dir.last() == 'o');
    assert(file.len() >= id.len() + 1);
    assert(presets::is_id_char(id[0]));
    assert(file[0] != '.');
    paths::law_parent_of_joined(dir, file);
}

// ---------------------------------------------------------------------------
// Names
// ---------------------------------------------------------------------------

/// Whether no two presets go by the same name.
pub open spec fn has_unique_names(list: Seq<PresetView>) -> bool {
    forall|i: int, j: int|
        0 <= i < j < list.len() ==> presets::comparable_name((#[trigger] list[i]).name)
            != presets::comparable_name((#[trigger] list[j]).name)
}

proof fn lemma_first_named(list: Seq<PresetView>, comparable: Seq<char>, from: int)
    requires
        0 <= from <= list.len(),
    ensures
        match presets::first_named(list, comparable, from) {
            Some(i) => {
                &&& from <= i < list.len()
                &&& presets::is_named(list[i], comparable)
                &&& forall|j: int|
                    from <= j < i ==> !presets::is_named(#[trigger] list[j], comparable)
            },
            None => forall|j: int|
                from <= j < list.len() ==> !presets::is_named(#[trigger] list[j], comparable),
        },
    decreases list.len() - from,
{
    if from < list.len() && !presets::is_named(list[from], comparable) {
        lemma_first_named(list, comparable, from + 1);
    }
}

/// Where names are unique, every preset is found by its own name.
pub proof fn law_presets_are_found_by_name(list: Seq<PresetView>, at: int)
    requires
        has_unique_names(list),
        0 <= at < list.len(),
        !text::is_blank(list[at].name),
    ensures
        presets::lookup_error(list, list[at].name) is None,
        presets::first_named(list, presets::comparable_name(list[at].name), 0) == Some(at),
{
    let comparable = presets::comparable_name(list[at].name);
    lemma_first_named(list, comparable, 0);
    assert(presets::is_named(list[at], comparable));
    match presets::first_named(list, comparable, 0) {
        Some(i) => {
            if i < at {
                assert(presets::comparable_name(list[i].name) != presets::comparable_name(
                    list[at].name,
                ));
            }
            assert(i == at);
            lemma_first_named(list, comparable, at + 1);
            if let Some(j) = presets::first_named(list, comparable, at + 1) {
                assert(presets::comparable_name(list[at].name) != presets::comparable_name(
                    list[j].name,
                ));
            }
        },
        None => {},
    }
}

/// Creating a preset keeps names unique, and the new preset is found by its name.
pub proof fn law_created_preset_is_found(
    list: Seq<PresetView>,
    asset_root: Seq<char>,
    source: PresetSource,
    name: Option<Seq<char>>,
)
    requires
        has_unique_names(list),
        presets::name_error(list, presets::new_name(source.path@, name)) is None,
    ensures
        ({
            let preset = presets::new_preset(asset_root, source, name);
            let longer = list.push(preset);
            &&& has_unique_names(longer)
            &&& presets::lookup_error(longer, preset.name) is None
            &&& presets::first_named(longer, presets::comparable_name(preset.name), 0) == Some(
                list.len() as int,
            )
        }),
{
    let preset = presets::new_preset(asset_root, source, name);
    let longer = list.push(preset);
    let comparable = presets::comparable_name(preset.name);
    lemma_first_named(list, comparable, 0);
    assert forall|i: int, j: int| 0 <= i < j < longer.len() implies presets::comparable_name(
        (#[trigger] longer[i]).name,
    ) != presets::comparable_name((#[trigger] longer[j]).name) by {
        assert(longer[i] == list[i]);
        if j < list.len() {
            assert(longer[j] == list[j]);
        } else {
            assert(!presets::is_named(list[i], comparable));
        }
    }
    assert(longer[list.len() as int] == preset);
    law_presets_are_found_by_name(longer, list.len() as int);
}

/// A name that a preset goes by already is refused, in whatever case it is written and
/// whatever white space stands round it.
pub proof fn law_taken_names_are_refused(list: Seq<PresetView>, at: int, name: Seq<char>)
    requires
        0 <= at < list.len(),
        presets::comparable_name(name) == presets::comparable_name(list[at].name),
    ensures
        presets::name_error(list, name) is Some,
{
    lemma_first_named(list, presets::comparable_name(name), 0);
    assert(presets::is_named(list[at], presets::comparable_name(name)));
}

/// A blank name is refused as empty, both for a new preset and for a lookup, and no other
/// name is.
pub proof fn law_only_blank_names_are_empty(list: Seq<PresetView>, name: Seq<char>)
    ensures
        text::is_blank(name) <==> presets::name_error(list, name) == Some(
            "Preset name cannot be empty."@,
        ),
        text::is_blank(name) <==> presets::lookup_error(list, name) == Some(
            "Preset name cannot be empty."@,
        ),
{
    reveal_strlit("Preset name cannot be empty.");
    reveal_strlit("A VibeVoice preset named '");
    reveal_strlit("No VibeVoice preset named '");
    reveal_strlit("Multiple VibeVoice presets named '");
    assert("Preset name cannot be empty."@[0] == 'P');
    if !text::is_blank(name) {
        if let Some(message) = presets::name_error(list, name) {
            assert(message[0] == 'A');
        }
        if let Some(message) = presets::lookup_error(list, name) {
            assert(message[0] == 'N' || message[0] == 'M');
        }
    }
}

// ---------------------------------------------------------------------------
// Listing
// ---------------------------------------------------------------------------

proof fn lemma_count_at_time(list: Seq<PresetView>, preset: PresetView)
    ensures
        list.to_multiset().count(preset) == presets::created_at(
            list,
            preset.created_at_unix_secs,
        ).to_multiset().count(preset),
    decreases list.len(),
{
    broadcast use vstd::seq_lib::group_to_multiset_ensures;

    reveal(Seq::filter);
    if list.len() > 0 {
        lemma_count_at_time(list.drop_last(), preset);
        assert(list =~= list.drop_last().push(list.last()));
    } else {
        assert(presets::created_at(list, preset.created_at_unix_secs) =~= list);
    }
}

/// A list that holds the same presets of every time holds the same presets.
pub proof fn law_listing_loses_nothing(list: Seq<PresetView>, sorted: Seq<PresetView>)
    requires
        forall|time: u64| #[trigger]
            presets::created_at(sorted, time) == presets::created_at(list, time),
    ensures
        sorted.to_multiset() == list.to_multiset(),
{
    assert forall|preset: PresetView| sorted.to_multiset().count(preset)
        == list.to_multiset().count(preset) by {
        lemma_count_at_time(list, preset);
        lemma_count_at_time(sorted, preset);
        assert(presets::created_at(sorted, preset.created_at_unix_secs) == presets::created_at(
            list,
            preset.created_at_unix_secs,
        ));
    }
    assert(sorted.to_multiset() =~= list.to_multiset());
}

} // verus!
