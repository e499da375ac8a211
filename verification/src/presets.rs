//! Saved reference voices: how they are named, found, listed and created.

use vstd::prelude::*;
use vstd::string::*;

use crate::cache::TextCache;
use crate::paths;
use crate::state;
use crate::state::{Real32, SpeechOverrides};
use crate::text;

verus! {

/// Below the assets: where presets are kept.
pub const PRESET_DIR: &'static str = "vibevoice-presets";

/// Below the assets: where the audio of presets is kept.
pub const PRESET_AUDIO_DIR: &'static str = "vibevoice-preset-audio";

/// The most characters that a name gives to an id.
pub const SLUG_LENGTH: usize = 48;

/// What is known of a preset.
#[derive(Debug)]
pub struct VibeVoicePresetInfo {
    pub id: String,
    pub name: String,
    pub source_audio_path: String,
    pub clip_duration_secs: Real32,
    pub sample_rate: u32,
    pub created_at_unix_secs: u64,
}

/// What is known of a preset, as a mathematical value.
#[verifier::ext_equal]
pub struct PresetView {
    pub id: Seq<char>,
    pub name: Seq<char>,
    pub source_audio_path: Seq<char>,
    pub clip_duration_secs: Real32,
    pub sample_rate: u32,
    pub created_at_unix_secs: u64,
}

impl View for VibeVoicePresetInfo {
    type V = PresetView;

    open spec fn view(&self) -> PresetView {
        PresetView {
            id: self.id@,
            name: self.name@,
            source_audio_path: self.source_audio_path@,
            clip_duration_secs: self.clip_duration_secs,
            sample_rate: self.sample_rate,
            created_at_unix_secs: self.created_at_unix_secs,
        }
    }
}

impl Clone for VibeVoicePresetInfo {
    fn clone(&self) -> (res: Self)
        ensures
            res@ == self@,
    {
        VibeVoicePresetInfo {
            id: self.id.clone(),
            name: self.name.clone(),
            source_audio_path: self.source_audio_path.clone(),
            clip_duration_secs: self.clip_duration_secs,
            sample_rate: self.sample_rate,
            created_at_unix_secs: self.created_at_unix_secs,
        }
    }
}

/// The presets as mathematical values.
pub open spec fn preset_views(presets: Seq<VibeVoicePresetInfo>) -> Seq<PresetView> {
    presets.map_values(|preset: VibeVoicePresetInfo| preset@)
}

// ---------------------------------------------------------------------------
// Names and ids
// ---------------------------------------------------------------------------

/// A text in lower case, with every run of other characters than ASCII letters and
/// digits turned into one dash.
pub open spec fn dashed(s: Seq<char>) -> Seq<char>
    decreases s.len(),
{
    if s.len() == 0 {
        Seq::empty()
    } else {
        let front = dashed(s.drop_last());
        if text::is_ascii_alnum(s.last()) {
            front.push(text::ascii_lower_char(s.last()))
        } else if front.len() > 0 && front.last() == '-' {
            front
        } else {
            front.push('-')
        }
    }
}

/// A text without the dashes in front.
pub open spec fn undashed_start(s: Seq<char>) -> Seq<char>
    decreases s.len(),
{
    if s.len() > 0 && s[0] == '-' {
        undashed_start(s.skip(1))
    } else {
        s
    }
}

/// A text without the dashes at its end.
pub open spec fn undashed_end(s: Seq<char>) -> Seq<char>
    decreases s.len(),
{
    if s.len() > 0 && s.last() == '-' {
        undashed_end(s.drop_last())
    } else {
        s
    }
}

/// The first characters of a text, at most so many.
pub open spec fn cut(s: Seq<char>, most: int) -> Seq<char> {
    if s.len() <= most {
        s
    } else {
        s.take(most)
    }
}

/// The part of an id that comes from a name.
pub open spec fn preset_slug(name: Seq<char>) -> Seq<char> {
    let s = cut(undashed_end(undashed_start(dashed(text::trimmed(name)))), SLUG_LENGTH as int);
    if s.len() == 0 {
        "preset"@
    } else {
        s
    }
}

/// The part of an id that comes from the name.
pub fn slugify_preset_name(name: &str) -> (res: String)
    ensures
        res@ == preset_slug(name@),
{
    let trimmed = text::trim(name);
    let chars = text::chars_of(trimmed.as_str());
    let mut out: Vec<char> = Vec::new();
    let mut i: usize = 0;
    assert(chars@.take(0) =~= Seq::empty());
    while i < chars.len()
        invariant
            i <= chars@.len(),
            out@ == dashed(chars@.take(i as int)),
        decreases chars@.len() - i,
    {
        let c = chars[i];
        assert(chars@.take(i + 1).drop_last() =~= chars@.take(i as int));
        assert(chars@.take(i + 1).last() == c);
        if text::ascii_alnum(c) {
            out.push(text::lower_ascii_char(c));
        } else if !(out.len() > 0 && out[out.len() - 1] == '-') {
            out.push('-');
        }
        i = i + 1;
    }
    assert(chars@.take(i as int) =~= chars@);
    let mut lo: usize = 0;
    let len: usize = out.len();
    assert(out@.skip(0) =~= out@);
    while lo < len && out[lo] == '-'
        invariant
            lo <= len,
            len == out@.len(),
            undashed_start(out@) == undashed_start(out@.skip(lo as int)),
        decreases len - lo,
    {
        assert(out@.skip(lo as int).skip(1) =~= out@.skip(lo + 1));
        lo = lo + 1;
    }
    let mut hi: usize = len;
    assert(out@.subrange(lo as int, len as int) =~= out@.skip(lo as int));
    while lo < hi && out[hi - 1] == '-'
        invariant
            lo <= hi <= len,
            len == out@.len(),
            undashed_end(out@.skip(lo as int)) == undashed_end(
                out@.subrange(lo as int, hi as int),
            ),
        decreases hi - lo,
    {
        assert(out@.subrange(lo as int, hi as int).drop_last() =~= out@.subrange(
            lo as int,
            hi - 1,
        ));
        hi = hi - 1;
    }
    let end: usize = if hi - lo <= SLUG_LENGTH {
        hi
    } else {
        lo + SLUG_LENGTH
    };
    if lo == end {
        return "preset".to_owned();
    }
    let slug = text::text_of(&out, lo, end);
    assert(slug@ =~= cut(out@.subrange(lo as int, hi as int), SLUG_LENGTH as int));
    slug
}

/// The form in which names are compared.
pub open spec fn comparable_name(name: Seq<char>) -> Seq<char> {
    text::unicode_lower(text::trimmed(name))
}

/// The form in which names are compared: trimmed and in lower case.
pub fn normalize_vibevoice_preset_name(name: &str) -> (res: String)
    ensures
        res@ == comparable_name(name@),
{
    let trimmed = text::trim(name);
    trimmed.as_str().to_lowercase()
}

/// Whether a preset goes by a name, given in the form in which names are compared.
pub open spec fn is_named(preset: PresetView, comparable: Seq<char>) -> bool {
    comparable_name(preset.name) == comparable
}

/// The first of the presets from `from` on that goes by a name.
pub open spec fn first_named(
    presets: Seq<PresetView>,
    comparable: Seq<char>,
    from: int,
) -> Option<int>
    decreases presets.len() - from,
{
    if from < 0 || from >= presets.len() {
        None
    } else if is_named(presets[from], comparable) {
        Some(from)
    } else {
        first_named(presets, comparable, from + 1)
    }
}

/// How a name that is taken is reported.
pub open spec fn duplicate_message(preset: PresetView) -> Seq<char> {
    "A VibeVoice preset named '"@ + preset.name + "' already exists with id '"@ + preset.id
        + "'. Use a unique name."@
}

/// Why a new preset cannot have a name, if it cannot.
pub open spec fn name_error(presets: Seq<PresetView>, name: Seq<char>) -> Option<Seq<char>> {
    if text::is_blank(name) {
        Some("Preset name cannot be empty."@)
    } else {
        match first_named(presets, comparable_name(name), 0) {
            Some(i) => Some(duplicate_message(presets[i])),
            None => None,
        }
    }
}

fn find_named(presets: &Vec<VibeVoicePresetInfo>, comparable: &str, from: usize) -> (res: Option<
    usize,
>)
    ensures
        match res {
            Some(i) => from <= i < presets@.len() && first_named(
                preset_views(presets@),
                comparable@,
                from as int,
            ) == Some(i as int),
            None => first_named(preset_views(presets@), comparable@, from as int) is None,
        },
{
    let mut i: usize = from;
    while i < presets.len()
        invariant
            from <= i,
            first_named(preset_views(presets@), comparable@, from as int) == first_named(
                preset_views(presets@),
                comparable@,
                i as int,
            ),
        decreases presets@.len() - i,
    {
        let name = normalize_vibevoice_preset_name(presets[i].name.as_str());
        assert(preset_views(presets@)[i as int] == presets@[i as int]@);
        if text::same_text(name.as_str(), comparable) {
            return Some(i);
        }
        i = i + 1;
    }
    None
}

/// Checks that no preset goes by the name yet.
pub fn ensure_unique_vibevoice_preset_name(
    presets: &Vec<VibeVoicePresetInfo>,
    preset_name: &str,
) -> (res: Result<(), String>)
    ensures
        match name_error(preset_views(presets@), preset_name@) {
            Some(message) => res matches Err(error) && error@ == message,
            None => res is Ok,
        },
{
    if text::blank(preset_name) {
        return Err("Preset name cannot be empty.".to_owned());
    }
    let comparable = normalize_vibevoice_preset_name(preset_name);
    match find_named(presets, comparable.as_str(), 0) {
        Some(i) => {
            assert(preset_views(presets@)[i as int] == presets@[i as int]@);
            let message = text::concat3(
                "A VibeVoice preset named '",
                presets[i].name.as_str(),
                "' already exists with id '",
            );
            Err(
                text::concat3(
                    message.as_str(),
                    presets[i].id.as_str(),
                    "'. Use a unique name.",
                ),
            )
        },
        None => Ok(()),
    }
}

/// Why no preset is found by a name, if none is: there is none, or more than one.
pub open spec fn lookup_error(presets: Seq<PresetView>, name: Seq<char>) -> Option<Seq<char>> {
    let comparable = comparable_name(name);
    if text::is_blank(name) {
        Some("Preset name cannot be empty."@)
    } else {
        match first_named(presets, comparable, 0) {
            None => Some(
                "No VibeVoice preset named '"@ + text::trimmed(name) + "' was found."@,
            ),
            Some(i) => if first_named(presets, comparable, i + 1) is Some {
                Some(
                    "Multiple VibeVoice presets named '"@ + text::trimmed(name)
                        + "' were found. Use reference_preset_id instead."@,
                )
            } else {
                None
            },
        }
    }
}

/// Where the one preset that goes by the name stands.
pub fn find_vibevoice_preset_by_name(
    presets: &Vec<VibeVoicePresetInfo>,
    preset_name: &str,
) -> (res: Result<usize, String>)
    ensures
        match lookup_error(preset_views(presets@), preset_name@) {
            Some(message) => res matches Err(error) && error@ == message,
            None => res matches Ok(i) && i < presets@.len() && first_named(
                preset_views(presets@),
                comparable_name(preset_name@),
                0,
            ) == Some(i as int),
        },
{
    if text::blank(preset_name) {
        return Err("Preset name cannot be empty.".to_owned());
    }
    let comparable = normalize_vibevoice_preset_name(preset_name);
    let trimmed = text::trim(preset_name);
    match find_named(presets, comparable.as_str(), 0) {
        None => Err(
            text::concat3("No VibeVoice preset named '", trimmed.as_str(), "' was found."),
        ),
        Some(i) => {
            assert(i < presets.len());
            if find_named(presets, comparable.as_str(), i + 1).is_some() {
                return Err(
                    text::concat3(
                        "Multiple VibeVoice presets named '",
                        trimmed.as_str(),
                        "' were found. Use reference_preset_id instead.",
                    ),
                );
            }
            Ok(i)
        },
    }
}

/// Whether a character may stand in an id.
pub open spec fn is_id_char(c: char) -> bool {
    text::is_ascii_alnum(c) || c == '-' || c == '_'
}

/// Whether every character of a text may stand in an id.
pub open spec fn is_id(s: Seq<char>) -> bool {
    forall|i: int| 0 <= i < s.len() ==> is_id_char(#[trigger] s[i])
}

/// Why a text is no id, if it is none.
pub open spec fn id_error(id: Seq<char>) -> Option<Seq<char>> {
    let t = text::trimmed(id);
    if t.len() == 0 {
        Some("Preset id cannot be empty."@)
    } else if !is_id(t) {
        Some("Preset id must use only letters, numbers, hyphens, or underscores."@)
    } else {
        None
    }
}

/// The id, trimmed, if it is one.
pub fn validate_vibevoice_preset_id(preset_id: &str) -> (res: Result<String, String>)
    ensures
        match id_error(preset_id@) {
            Some(message) => res matches Err(error) && error@ == message,
            None => res matches Ok(id) && id@ == text::trimmed(preset_id@),
        },
{
    let id = text::trim(preset_id);
    if id.as_str().is_empty() {
        return Err("Preset id cannot be empty.".to_owned());
    }
    let chars = text::chars_of(id.as_str());
    let mut i: usize = 0;
    while i < chars.len()
        invariant
            i <= chars@.len(),
            chars@ == id@,
            id@ == text::trimmed(preset_id@),
            id@.len() > 0,
            forall|j: int| 0 <= j < i ==> is_id_char(#[trigger] chars@[j]),
        decreases chars@.len() - i,
    {
        let c = chars[i];
        if !(text::ascii_alnum(c) || c == '-' || c == '_') {
            assert(!is_id_char(id@[i as int]));
            return Err(
                "Preset id must use only letters, numbers, hyphens, or underscores.".to_owned(),
            );
        }
        i = i + 1;
    }
    Ok(id)
}

// ---------------------------------------------------------------------------
// Files
// ---------------------------------------------------------------------------

/// Where a preset is kept.
pub open spec fn preset_file(preset_dir: Seq<char>, preset_id: Seq<char>) -> Seq<char> {
    text::joined_path(preset_dir, preset_id + ".json"@)
}

/// Where a preset is kept.
pub fn vibevoice_preset_path(preset_dir: &str, preset_id: &str) -> (res: String)
    ensures
        res@ == preset_file(preset_dir@, preset_id@),
{
    let name = text::concat2(preset_id, ".json");
    text::join_path(preset_dir, name.as_str())
}

/// Whether a file in the directory of the presets is a preset.
pub fn is_preset_file(path: &str) -> (res: bool)
    ensures
        res == (paths::extension(path@) == Some("json"@)),
{
    match paths::path_extension(path) {
        Some(extension) => text::same_text(extension.as_str(), "json"),
        None => false,
    }
}

/// The extension that a preset's audio is kept with: that of its source, or `wav`
/// where the source has none.
pub open spec fn audio_extension(source: Seq<char>) -> Seq<char> {
    match paths::extension(source) {
        Some(found) if !text::is_blank(found) => found,
        _ => "wav"@,
    }
}

/// Where the audio of a preset is kept.
pub open spec fn preset_audio_file(
    source: Seq<char>,
    audio_dir: Seq<char>,
    preset_id: Seq<char>,
) -> Seq<char> {
    text::joined_path(audio_dir, preset_id + "."@ + audio_extension(source))
}

/// Where the audio of a preset is kept.
pub fn preset_audio_path(source_path: &str, audio_dir: &str, preset_id: &str) -> (res: String)
    ensures
        res@ == preset_audio_file(source_path@, audio_dir@, preset_id@),
{
    let extension = match paths::path_extension(source_path) {
        Some(found) => if text::blank(found.as_str()) {
            "wav".to_owned()
        } else {
            found
        },
        None => "wav".to_owned(),
    };
    let name = text::concat3(preset_id, ".", extension.as_str());
    text::join_path(audio_dir, name.as_str())
}

// ---------------------------------------------------------------------------
// Creation
// ---------------------------------------------------------------------------

/// The name of a new preset: the one that was asked for, or that of its source.
pub open spec fn new_name(source: Seq<char>, name: Option<Seq<char>>) -> Seq<char> {
    match name {
        Some(asked) if !text::is_blank(asked) => text::trimmed(asked),
        _ => match paths::file_stem(source) {
            Some(stem) => stem,
            None => "VibeVoice preset"@,
        },
    }
}

/// The name of a new preset.
pub fn new_preset_name(source_path: &str, name: Option<&str>) -> (res: String)
    ensures
        res@ == new_name(
            source_path@,
            match name {
                Some(asked) => Some(asked@),
                None => None,
            },
        ),
{
    if let Some(asked) = name {
        let trimmed = text::trim(asked);
        if !trimmed.as_str().is_empty() {
            return trimmed;
        }
    }
    match paths::path_stem(source_path) {
        Some(stem) => stem,
        None => "VibeVoice preset".to_owned(),
    }
}

/// The id of a new preset.
pub open spec fn new_id(name: Seq<char>, created_at_millis: u128) -> Seq<char> {
    preset_slug(name) + "-"@ + text::decimal(created_at_millis as nat)
}

/// What a new preset is made from.
#[derive(Debug)]
pub struct PresetSource {
    /// The file that its audio comes from.
    pub path: String,
    pub clip_duration_secs: Real32,
    /// The rate that its audio is kept at.
    pub sample_rate: u32,
    pub created_at_unix_secs: u64,
    pub created_at_millis: u128,
}

/// A new preset, and the files that it is to be kept in.
#[derive(Debug)]
pub struct PresetPlan {
    pub info: VibeVoicePresetInfo,
    pub preset_path: String,
}

/// A new preset.
pub open spec fn new_preset(
    asset_root: Seq<char>,
    source: PresetSource,
    name: Option<Seq<char>>,
) -> PresetView {
    let id = new_id(new_name(source.path@, name), source.created_at_millis);
    PresetView {
        id,
        name: new_name(source.path@, name),
        source_audio_path: preset_audio_file(
            source.path@,
            text::joined_path(asset_root, PRESET_AUDIO_DIR@),
            id,
        ),
        clip_duration_secs: source.clip_duration_secs,
        sample_rate: source.sample_rate,
        created_at_unix_secs: source.created_at_unix_secs,
    }
}

/// The preset to create and the files to keep it in; its audio is to be copied to its
/// audio path. A name that is taken is refused.
pub fn create_vibevoice_preset(
    asset_root: &str,
    source: &PresetSource,
    name: Option<&str>,
    existing: &Vec<VibeVoicePresetInfo>,
) -> (res: Result<PresetPlan, String>)
    ensures
        ({
            let asked = match name {
                Some(asked) => Some(asked@),
                None => None,
            };
            match name_error(preset_views(existing@), new_name(source.path@, asked)) {
                Some(message) => res matches Err(error) && error@ == message,
                None => {
                    &&& res matches Ok(plan)
                    &&& plan.info@ == new_preset(asset_root@, *source, asked)
                    &&& plan.preset_path@ == preset_file(
                        text::joined_path(asset_root@, PRESET_DIR@),
                        plan.info@.id,
                    )
                },
            }
        }),
{
    let preset_name = new_preset_name(source.path.as_str(), name);
    match ensure_unique_vibevoice_preset_name(existing, preset_name.as_str()) {
        Ok(_) => {},
        Err(error) => {
            return Err(error);
        },
    }
    let slug = slugify_preset_name(preset_name.as_str());
    let millis = text::decimal_text(source.created_at_millis);
    let id = text::concat3(slug.as_str(), "-", millis.as_str());
    let audio_dir = text::join_path(asset_root, PRESET_AUDIO_DIR);
    let source_audio_path = preset_audio_path(
        source.path.as_str(),
        audio_dir.as_str(),
        id.as_str(),
    );
    let preset_dir = text::join_path(asset_root, PRESET_DIR);
    let preset_path = vibevoice_preset_path(preset_dir.as_str(), id.as_str());
    Ok(
        PresetPlan {
            info: VibeVoicePresetInfo {
                id,
                name: preset_name,
                source_audio_path,
                clip_duration_secs: source.clip_duration_secs,
                sample_rate: source.sample_rate,
                created_at_unix_secs: source.created_at_unix_secs,
            },
            preset_path,
        },
    )
}

/// What has to be done to reference audio before it is kept with a preset.
#[derive(Debug, Clone, Copy, PartialEq, Eq, Structural)]
pub struct ReferenceProcessing {
    /// The rate that it is to be brought to, where it has another.
    pub resample_to: Option<u32>,
    /// Whether its loudness is to be evened out behind that.
    pub normalize_loudness: bool,
}

/// What has to be done to the reference audio before it is kept with a preset.
pub fn normalize_vibevoice_reference_audio(
    sample_rate: u32,
    target_rate: u32,
    db_normalize: bool,
) -> (res: ReferenceProcessing)
    ensures
        res.resample_to == if sample_rate != target_rate {
            Some(target_rate)
        } else {
            None
        },
        res.normalize_loudness == db_normalize,
{
    let resample_to = if sample_rate != target_rate {
        Some(target_rate)
    } else {
        None
    };
    ReferenceProcessing { resample_to, normalize_loudness: db_normalize }
}

// ---------------------------------------------------------------------------
// Listing
// ---------------------------------------------------------------------------

/// Whether presets stand with the newest first.
pub open spec fn is_newest_first(presets: Seq<PresetView>) -> bool {
    forall|i: int, j: int|
        0 <= i <= j < presets.len() ==> (#[trigger] presets[i]).created_at_unix_secs >= (
        #[trigger] presets[j]).created_at_unix_secs
}

/// The presets that were created at a time, in the order in which they stand.
pub open spec fn created_at(presets: Seq<PresetView>, time: u64) -> Seq<PresetView> {
    presets.filter(|preset: PresetView| preset.created_at_unix_secs == time)
}

/// The presets with the newest first; those of the same time stay in order.
pub fn list_vibevoice_presets(presets: Vec<VibeVoicePresetInfo>) -> (res: Vec<
    VibeVoicePresetInfo,
>)
    ensures
        is_newest_first(preset_views(res@)),
        res@.len() == presets@.len(),
        forall|time: u64| #[trigger]
            created_at(preset_views(res@), time) == created_at(preset_views(presets@), time),
{
    let ghost views = preset_views(presets@);
    let mut out: Vec<VibeVoicePresetInfo> = Vec::new();
    assert(preset_views(out@) =~= views.take(0));
    for preset in it: presets
        invariant
            preset_views(it.seq()) == views,
            out@.len() == it.index(),
            is_newest_first(preset_views(out@)),
            forall|time: u64| #[trigger]
                created_at(preset_views(out@), time) == created_at(views.take(it.index()), time),
    {
        let ghost before = preset_views(out@);
        let ghost added = preset@;
        let ghost done = views.take(it.index());
        assert(preset_views(it.seq())[it.index()] == it.seq()[it.index()]@);
        assert(views.take(it.index() + 1) =~= done.push(added));
        let mut at: usize = 0;
        while at < out.len() && out[at].created_at_unix_secs >= preset.created_at_unix_secs
            invariant
                at <= out@.len(),
                before == preset_views(out@),
                added == preset@,
                forall|i: int|
                    0 <= i < at ==> (#[trigger] before[i]).created_at_unix_secs
                        >= added.created_at_unix_secs,
            decreases out@.len() - at,
        {
            assert(before[at as int] == out@[at as int]@);
            at = at + 1;
        }
        assert(at < out@.len() ==> before[at as int] == out@[at as int]@);
        out.insert(at, preset);
        assert(preset_views(out@) =~= before.insert(at as int, added));
        proof {
            lemma_inserted_in_order(before, at as int, added);
            assert forall|time: u64| #[trigger]
                created_at(preset_views(out@), time) == created_at(done.push(added), time) by {
                lemma_inserted_keeps_times(before, at as int, added, time);
                assert(created_at(before, time) == created_at(done, time));
                lemma_created_at_push(done, added, time);
            }
        }
    }
    assert(views.take(views.len() as int) =~= views);
    out
}

proof fn lemma_created_at_push(presets: Seq<PresetView>, added: PresetView, time: u64)
    ensures
        created_at(presets.push(added), time) == if added.created_at_unix_secs == time {
            created_at(presets, time).push(added)
        } else {
            created_at(presets, time)
        },
{
    reveal(Seq::filter);
    assert(presets.push(added).drop_last() =~= presets);
}

proof fn lemma_inserted_in_order(presets: Seq<PresetView>, at: int, added: PresetView)
    requires
        is_newest_first(presets),
        0 <= at <= presets.len(),
        forall|i: int|
            0 <= i < at ==> (#[trigger] presets[i]).created_at_unix_secs
                >= added.created_at_unix_secs,
        at < presets.len() ==> presets[at].created_at_unix_secs < added.created_at_unix_secs,
    ensures
        is_newest_first(presets.insert(at, added)),
{
    let longer = presets.insert(at, added);
    assert forall|i: int, j: int| 0 <= i <= j < longer.len() implies (
    #[trigger] longer[i]).created_at_unix_secs >= (#[trigger] longer[j]).created_at_unix_secs by {
        if i == at && j > at {
            assert(presets[at].created_at_unix_secs >= presets[j - 1].created_at_unix_secs);
            assert(longer[j] == presets[j - 1]);
        } else if i < at && j > at {
            assert(longer[j] == presets[j - 1]);
            assert(presets[i].created_at_unix_secs >= presets[j - 1].created_at_unix_secs);
        } else if i > at {
            assert(longer[i] == presets[i - 1]);
            assert(longer[j] == presets[j - 1]);
            assert(presets[i - 1].created_at_unix_secs >= presets[j - 1].created_at_unix_secs);
        } else if j < at {
            assert(presets[i].created_at_unix_secs >= presets[j].created_at_unix_secs);
        }
    }
}

proof fn lemma_none_created_at(presets: Seq<PresetView>, time: u64)
    requires
        forall|i: int| 0 <= i < presets.len() ==> (#[trigger] presets[i]).created_at_unix_secs != time,
    ensures
        created_at(presets, time) == Seq::<PresetView>::empty(),
    decreases presets.len(),
{
    reveal(Seq::filter);
    if presets.len() > 0 {
        let front = presets.drop_last();
        assert forall|i: int| 0 <= i < front.len() implies (
        #[trigger] front[i]).created_at_unix_secs != time by {
            assert(front[i] == presets[i]);
        }
        lemma_none_created_at(front, time);
        assert(presets[presets.len() - 1].created_at_unix_secs != time);
    }
}

proof fn lemma_inserted_keeps_times(
    presets: Seq<PresetView>,
    at: int,
    added: PresetView,
    time: u64,
)
    requires
        is_newest_first(presets),
        0 <= at <= presets.len(),
        at < presets.len() ==> presets[at].created_at_unix_secs < added.created_at_unix_secs,
    ensures
        created_at(presets.insert(at, added), time) == if added.created_at_unix_secs == time {
            created_at(presets, time).push(added)
        } else {
            created_at(presets, time)
        },
{
    let head = presets.take(at);
    let tail = presets.skip(at);
    let pred = |preset: PresetView| preset.created_at_unix_secs == time;
    assert(presets.insert(at, added) =~= head.push(added) + tail);
    assert(presets =~= head + tail);
    Seq::filter_distributes_over_add(head.push(added), tail, pred);
    Seq::filter_distributes_over_add(head, tail, pred);
    lemma_created_at_push(head, added, time);
    if added.created_at_unix_secs == time {
        assert forall|i: int| 0 <= i < tail.len() implies (
        #[trigger] tail[i]).created_at_unix_secs != time by {
            assert(tail[i] == presets[at + i]);
            assert(presets[at].created_at_unix_secs >= presets[at + i].created_at_unix_secs);
        }
        lemma_none_created_at(tail, time);
        assert(created_at(presets, time) =~= created_at(head, time));
        assert(created_at(presets.insert(at, added), time) =~= created_at(head, time).push(added));
    }
}

// ---------------------------------------------------------------------------
// Which voice a request asks for
// ---------------------------------------------------------------------------

/// Where the reference voice of a request comes from.
#[derive(Debug)]
pub enum ReferenceVoice {
    /// An audio file.
    AudioFile(String),
    /// The preset with this id.
    PresetId(String),
    /// The preset with this name.
    PresetName(String),
    /// The model's own voice.
    Unset,
}

/// Where the reference voice of a request comes from, as a mathematical value.
pub enum ReferenceView {
    AudioFile(Seq<char>),
    PresetId(Seq<char>),
    PresetName(Seq<char>),
    Unset,
}

impl View for ReferenceVoice {
    type V = ReferenceView;

    open spec fn view(&self) -> ReferenceView {
        match *self {
            ReferenceVoice::AudioFile(path) => ReferenceView::AudioFile(path@),
            ReferenceVoice::PresetId(id) => ReferenceView::PresetId(id@),
            ReferenceVoice::PresetName(name) => ReferenceView::PresetName(name@),
            ReferenceVoice::Unset => ReferenceView::Unset,
        }
    }
}

/// Where the reference voice of a request comes from: a file before a preset, an id
/// before a name, and blank texts count for nothing.
pub open spec fn reference_voice(
    path: Option<Seq<char>>,
    id: Option<Seq<char>>,
    name: Option<Seq<char>>,
) -> ReferenceView {
    match state::trimmed_option(path) {
        Some(found) => ReferenceView::AudioFile(found),
        None => match state::trimmed_option(id) {
            Some(found) => ReferenceView::PresetId(found),
            None => match state::trimmed_option(name) {
                Some(found) => ReferenceView::PresetName(found),
                None => ReferenceView::Unset,
            },
        },
    }
}

/// Where the reference voice of the request comes from.
pub fn resolve_vibevoice_reference_audio_source(overrides: &SpeechOverrides) -> (res:
    ReferenceVoice)
    ensures
        res@ == reference_voice(
            overrides@.reference_audio_path,
            overrides@.reference_preset_id,
            overrides@.reference_preset_name,
        ),
{
    let path = state::trim_option(state::clone_text(&overrides.reference_audio_path));
    if let Some(found) = path {
        return ReferenceVoice::AudioFile(found);
    }
    let id = state::trim_option(state::clone_text(&overrides.reference_preset_id));
    if let Some(found) = id {
        return ReferenceVoice::PresetId(found);
    }
    let name = state::trim_option(
        state::clone_text(&overrides.reference_preset_name),
    );
    if let Some(found) = name {
        return ReferenceVoice::PresetName(found);
    }
    ReferenceVoice::Unset
}

/// What is to be done to get the voice of a preset.
#[derive(Debug)]
pub enum PresetLookup<T> {
    /// It is at hand.
    Cached(T),
    /// It has to be read from a file and kept under its id.
    Load { id: String, path: String },
}

/// The voice of the preset with an id, if it is at hand, or the file to read it from.
pub fn load_vibevoice_preset_embedding<'a, T>(
    kept: &'a TextCache<T>,
    asset_root: &str,
    preset_id: &str,
) -> (res: Result<PresetLookup<&'a T>, String>)
    ensures
        match id_error(preset_id@) {
            Some(message) => res matches Err(error) && error@ == message,
            None => {
                let id = text::trimmed(preset_id@);
                if kept@.contains_key(id) {
                    res matches Ok(PresetLookup::Cached(value)) && *value == kept@[id]
                } else {
                    res matches Ok(PresetLookup::Load { id: found, path }) && found@ == id
                        && path@ == preset_file(
                        text::joined_path(asset_root@, PRESET_DIR@),
                        id,
                    )
                }
            },
        },
{
    let id = match validate_vibevoice_preset_id(preset_id) {
        Ok(id) => id,
        Err(error) => {
            return Err(error);
        },
    };
    match kept.get(id.as_str()) {
        Some(value) => Ok(PresetLookup::Cached(value)),
        None => {
            let preset_dir = text::join_path(asset_root, PRESET_DIR);
            let path = vibevoice_preset_path(preset_dir.as_str(), id.as_str());
            Ok(PresetLookup::Load { id, path })
        },
    }
}

/// The file that the preset with an id is kept in.
pub fn load_vibevoice_preset_info_by_id(asset_root: &str, preset_id: &str) -> (res: Result<
    String,
    String,
>)
    ensures
        match id_error(preset_id@) {
            Some(message) => res matches Err(error) && error@ == message,
            None => res matches Ok(path) && path@ == preset_file(
                text::joined_path(asset_root@, PRESET_DIR@),
                text::trimmed(preset_id@),
            ),
        },
{
    match validate_vibevoice_preset_id(preset_id) {
        Ok(id) => {
            let preset_dir = text::join_path(asset_root, PRESET_DIR);
            Ok(vibevoice_preset_path(preset_dir.as_str(), id.as_str()))
        },
        Err(error) => Err(error),
    }
}

} // verus!
