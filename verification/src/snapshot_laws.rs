//! What is fetched for a model, from where, and what follows each outcome.

use vstd::prelude::*;
use vstd::string::*;

use crate::config::VoiceModel;
use crate::models;
use crate::snapshots;
use crate::snapshots::{ActionView, FetchView, Phase, SnapshotEvent, TargetView, WhenView};
use crate::text;

verus! {

// ---------------------------------------------------------------------------
// The files
// ---------------------------------------------------------------------------

/// Everything that is fetched for a model comes from where it is published; only a
/// tokenizer may come from elsewhere.
pub proof fn law_where_files_come_from(model: VoiceModel, i: int)
    requires
        0 <= i < snapshots::fetches(model).len(),
    ensures
        ({
            let fetch = snapshots::fetches(model)[i];
            ||| fetch.owner + seq!['/'] + fetch.repo == models::published_id(model)
            ||| fetch.owner == "Qwen"@ && fetch.repo == "Qwen2.5-0.5B"@ && fetch.target
                == TargetView::File("tokenizer.json"@) && (model == VoiceModel::VibeVoiceRealtime
                || model == VoiceModel::VibeVoice)
        }),
{
    reveal_strlit("microsoft");
    reveal_strlit("VibeVoice-Realtime-0.5B");
    reveal_strlit("VibeVoice-1.5B");
    reveal_strlit("hexgrad");
    reveal_strlit("Kokoro-82M");
    reveal_strlit("parler-tts");
    reveal_strlit("parler-tts-mini-v1");
    reveal_strlit("microsoft/VibeVoice-Realtime-0.5B");
    reveal_strlit("microsoft/VibeVoice-1.5B");
    reveal_strlit("parler-tts/parler-tts-mini-v1");
    reveal_strlit("hexgrad/Kokoro-82M");
    assert("microsoft"@ + seq!['/'] + "VibeVoice-Realtime-0.5B"@
        =~= "microsoft/VibeVoice-Realtime-0.5B"@);
    assert("microsoft"@ + seq!['/'] + "VibeVoice-1.5B"@ =~= "microsoft/VibeVoice-1.5B"@);
    assert("hexgrad"@ + seq!['/'] + "Kokoro-82M"@ =~= "hexgrad/Kokoro-82M"@);
    assert("parler-tts"@ + seq!['/'] + "parler-tts-mini-v1"@
        =~= "parler-tts/parler-tts-mini-v1"@);
}

/// Every file without which a model cannot be loaded is fetched, and so is a
/// configuration, whose failure ends the job.
pub proof fn law_required_files_are_fetched(model: VoiceModel, k: int)
    requires
        0 <= k < snapshots::required_files(model).len(),
    ensures
        exists|i: int|
            0 <= i < snapshots::fetches(model).len() && (#[trigger] snapshots::fetches(
                model,
            )[i]).target == TargetView::File(snapshots::required_files(model)[k]),
        snapshots::fetches(model)[0].target == TargetView::File("config.json"@),
        snapshots::fetches(model)[0].needed is Some,
{
    let list = snapshots::fetches(model);
    let name = snapshots::required_files(model)[k];
    match model {
        VoiceModel::VibeVoiceRealtime => {
            assert(list[0].target == TargetView::File("config.json"@));
            assert(list[1].target == TargetView::File("model.safetensors"@));
            assert(list[4].target == TargetView::File("tokenizer.json"@));
        },
        VoiceModel::VibeVoice => {
            assert(list[0].target == TargetView::File("config.json"@));
            assert(list[4].target == TargetView::File("tokenizer.json"@));
        },
        VoiceModel::Kokoro => {
            assert(list[0].target == TargetView::File("config.json"@));
        },
        VoiceModel::ParlerTts => {
            assert(list[0].target == TargetView::File("config.json"@));
            assert(list[1].target == TargetView::File("tokenizer.json"@));
            assert(list[2].target == TargetView::File("model.safetensors"@));
        },
    }
    assert(name == "config.json"@ || name == "tokenizer.json"@ || name == "model.safetensors"@);
}

/// What is fetched for each model, in order: the file or the pattern, when, and whether
/// the job can do without it.
pub proof fn law_what_is_fetched(model: VoiceModel)
    ensures
        ({
            let list = snapshots::fetches(model);
            let targets = list.map_values(|fetch: FetchView| fetch.target);
            let whens = list.map_values(|fetch: FetchView| fetch.when);
            let needs = list.map_values(|fetch: FetchView| fetch.needed is Some);
            match model {
                VoiceModel::VibeVoiceRealtime => {
                    &&& targets == seq![
                        TargetView::File("config.json"@),
                        TargetView::File("model.safetensors"@),
                        TargetView::File("preprocessor_config.json"@),
                        TargetView::Matching("voices/*.pt"@),
                        TargetView::File("tokenizer.json"@),
                    ]
                    &&& whens == seq![
                        WhenView::Always,
                        WhenView::Always,
                        WhenView::Always,
                        WhenView::Always,
                        WhenView::Missing("tokenizer.json"@),
                    ]
                    &&& needs == seq![true, true, false, false, true]
                },
                VoiceModel::VibeVoice => {
                    &&& targets == seq![
                        TargetView::File("config.json"@),
                        TargetView::File("model.safetensors"@),
                        TargetView::Matching("model-*.safetensors"@),
                        TargetView::File("preprocessor_config.json"@),
                        TargetView::File("tokenizer.json"@),
                        TargetView::File("tokenizer.json"@),
                    ]
                    &&& whens == seq![
                        WhenView::Always,
                        WhenView::Always,
                        WhenView::Failed,
                        WhenView::Always,
                        WhenView::Missing("tokenizer.json"@),
                        WhenView::Failed,
                    ]
                    &&& needs == seq![true, false, false, false, false, true]
                },
                VoiceModel::Kokoro => {
                    &&& targets == seq![
                        TargetView::File("config.json"@),
                        TargetView::File("model.safetensors"@),
                        TargetView::Matching("*.pth"@),
                        TargetView::Matching("voices/*.pt"@),
                    ]
                    &&& whens == seq![
                        WhenView::Always,
                        WhenView::Always,
                        WhenView::Failed,
                        WhenView::Always,
                    ]
                    &&& needs == seq![true, false, false, false]
                },
                VoiceModel::ParlerTts => {
                    &&& targets == seq![
                        TargetView::File("config.json"@),
                        TargetView::File("tokenizer.json"@),
                        TargetView::File("model.safetensors"@),
                    ]
                    &&& whens == seq![
                        WhenView::Missing("config.json"@),
                        WhenView::Missing("tokenizer.json"@),
                        WhenView::Missing("model.safetensors"@),
                    ]
                    &&& needs == seq![true, true, true]
                },
            }
        }),
{
}

// ---------------------------------------------------------------------------
// The order of things
// ---------------------------------------------------------------------------

/// Whether the job asks for one fetch, into the directory of the model.
pub open spec fn asks_for(action: ActionView, fetch: FetchView, local_dir: Seq<char>) -> bool {
    action == (ActionView::Fetch {
        owner: fetch.owner,
        repo: fetch.repo,
        target: fetch.target,
        local_dir,
    })
}

/// At a fetch the job asks for it at once, or first looks for the file that may make it
/// needless; one that only stands in for the fetch before is passed over unless that was
/// tried and failed.
pub proof fn law_what_is_done_at_a_fetch(
    model: VoiceModel,
    local_dir: Seq<char>,
    at: usize,
    failed: bool,
)
    requires
        at < snapshots::fetches(model).len(),
    ensures
        ({
            let here = Phase::Fetching { at, failed };
            let (phase, action) = snapshots::next_action(model, local_dir, here);
            let fetch = snapshots::fetches(model)[at as int];
            match fetch.when {
                WhenView::Always => phase == here && asks_for(action, fetch, local_dir),
                WhenView::Missing(name) => phase == here && action == ActionView::Check(
                    text::joined_path(local_dir, name),
                ),
                WhenView::Failed => if failed {
                    phase == here && asks_for(action, fetch, local_dir)
                } else {
                    (phase, action) == snapshots::next_action(
                        model,
                        local_dir,
                        Phase::Fetching { at: (at + 1) as usize, failed: false },
                    )
                },
            }
        }),
{
}

/// A file that is missing is fetched; one that is there is passed over. A fetch that fails
/// ends the job where it is needed, with what it was for, and otherwise the job goes on
/// with the next one, which is told of the failure.
pub proof fn law_what_follows_a_fetch(
    model: VoiceModel,
    local_dir: Seq<char>,
    at: usize,
    failed: bool,
    outcome: Result<(), String>,
)
    requires
        at < snapshots::fetches(model).len(),
    ensures
        ({
            let here = Phase::Fetching { at, failed };
            let fetch = snapshots::fetches(model)[at as int];
            let missing = snapshots::next_step(
                model,
                local_dir,
                here,
                SnapshotEvent::Exists(false),
            );
            let present = snapshots::next_step(
                model,
                local_dir,
                here,
                SnapshotEvent::Exists(true),
            );
            let fetched = snapshots::next_step(
                model,
                local_dir,
                here,
                SnapshotEvent::Fetched(outcome),
            );
            let on = snapshots::next_action(
                model,
                local_dir,
                Phase::Fetching { at: (at + 1) as usize, failed: false },
            );
            &&& missing.0 == here && asks_for(missing.1, fetch, local_dir)
            &&& present == on
            &&& outcome is Ok ==> fetched == on
            &&& outcome is Err && fetch.needed is Some ==> fetched == (
                Phase::Over,
                ActionView::Failed(fetch.needed->0),
            )
            &&& outcome is Err && fetch.needed is None ==> fetched == snapshots::next_action(
                model,
                local_dir,
                Phase::Fetching { at: (at + 1) as usize, failed: true },
            )
        }),
{
}

/// Behind the last fetch come the voices, behind the last voice the check for the required
/// files, and behind the last of those the job is finished.
pub proof fn law_the_order_of_the_phases(
    model: VoiceModel,
    local_dir: Seq<char>,
    at: usize,
    failed: bool,
)
    ensures
        at >= snapshots::fetches(model).len() ==> snapshots::next_action(
            model,
            local_dir,
            Phase::Fetching { at, failed },
        ) == snapshots::next_action(model, local_dir, Phase::Voices { at: 0 }),
        at < snapshots::voice_files(model).len() ==> snapshots::next_action(
            model,
            local_dir,
            Phase::Voices { at },
        ) == (
            Phase::Voices { at },
            ActionView::Check(
                text::joined_path(
                    text::joined_path(local_dir, "voices"@),
                    snapshots::voice_files(model)[at as int],
                ),
            ),
        ),
        at >= snapshots::voice_files(model).len() ==> snapshots::next_action(
            model,
            local_dir,
            Phase::Voices { at },
        ) == snapshots::next_action(model, local_dir, Phase::Assets { at: 0 }),
        at < snapshots::required_files(model).len() ==> snapshots::next_action(
            model,
            local_dir,
            Phase::Assets { at },
        ) == (
            Phase::Assets { at },
            ActionView::Check(
                text::joined_path(local_dir, snapshots::required_files(model)[at as int]),
            ),
        ),
        at >= snapshots::required_files(model).len() ==> snapshots::next_action(
            model,
            local_dir,
            Phase::Assets { at },
        ) == (Phase::Over, ActionView::Finished(local_dir)),
{
    reveal_with_fuel(snapshots::next_action, 2);
}

/// A voice that is missing is fetched from where the voices are published, into the
/// directory of the voices; one that is there, or has been fetched, is followed by the
/// next, and one that cannot be fetched ends the job.
pub proof fn law_what_follows_a_voice(
    model: VoiceModel,
    local_dir: Seq<char>,
    at: usize,
    outcome: Result<(), String>,
)
    requires
        at < snapshots::voice_files(model).len(),
    ensures
        ({
            let here = Phase::Voices { at };
            let name = snapshots::voice_files(model)[at as int];
            let on = snapshots::next_action(
                model,
                local_dir,
                Phase::Voices { at: (at + 1) as usize },
            );
            let fetched = snapshots::next_step(
                model,
                local_dir,
                here,
                SnapshotEvent::Fetched(outcome),
            );
            &&& snapshots::next_step(model, local_dir, here, SnapshotEvent::Exists(false)) == (
                here,
                ActionView::FetchVoice {
                    url: snapshots::VOICE_PRESET_BASE_URL@ + "/"@ + name,
                    destination: text::joined_path(
                        text::joined_path(local_dir, "voices"@),
                        name,
                    ),
                },
            )
            &&& snapshots::next_step(model, local_dir, here, SnapshotEvent::Exists(true)) == on
            &&& outcome is Ok ==> fetched == on
            &&& outcome is Err ==> fetched == (Phase::Over, ActionView::Failed(outcome->Err_0@))
        }),
{
}

/// A required file that is there is followed by the next; one that is missing ends the job
/// and is named.
pub proof fn law_what_follows_a_required_file(
    model: VoiceModel,
    local_dir: Seq<char>,
    at: usize,
)
    requires
        at < snapshots::required_files(model).len(),
    ensures
        snapshots::next_step(
            model,
            local_dir,
            Phase::Assets { at },
            SnapshotEvent::Exists(true),
        ) == snapshots::next_action(model, local_dir, Phase::Assets { at: (at + 1) as usize }),
        snapshots::next_step(
            model,
            local_dir,
            Phase::Assets { at },
            SnapshotEvent::Exists(false),
        ) == (
            Phase::Over,
            ActionView::Failed(
                "Missing required model asset: "@ + text::joined_path(
                    local_dir,
                    snapshots::required_files(model)[at as int],
                ),
            ),
        ),
{
}

/// Only VibeVoice Realtime has voices of its own to fetch. Every model needs a
/// configuration; all but Kokoro need a tokenizer, and VibeVoice Realtime and Parler-TTS
/// their weights in one file.
pub proof fn law_which_files_are_required(model: VoiceModel)
    ensures
        model != VoiceModel::VibeVoiceRealtime ==> snapshots::voice_files(model).len() == 0,
        snapshots::required_files(model).contains("config.json"@),
        model != VoiceModel::Kokoro ==> snapshots::required_files(model).contains(
            "tokenizer.json"@,
        ),
        model == VoiceModel::VibeVoiceRealtime || model == VoiceModel::ParlerTts
            ==> snapshots::required_files(model).contains("model.safetensors"@),
        model == VoiceModel::Kokoro ==> snapshots::required_files(model).len() == 1,
        model == VoiceModel::VibeVoice ==> snapshots::required_files(model).len() == 2,
        model == VoiceModel::VibeVoiceRealtime || model == VoiceModel::ParlerTts
            ==> snapshots::required_files(model).len() == 3,
{
    let list = snapshots::required_files(model);
    assert(list[0] == "config.json"@);
    if model != VoiceModel::Kokoro {
        assert(list[1] == "tokenizer.json"@);
    }
    if model == VoiceModel::VibeVoiceRealtime || model == VoiceModel::ParlerTts {
        assert(list[2] == "model.safetensors"@);
    }
}

} // verus!
