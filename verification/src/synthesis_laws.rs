//! What holds of the voice, the words and the settings that a synthesiser is asked for.

use vstd::prelude::*;
use vstd::string::*;

use crate::config::{TtsPrecision, VoiceModel};
use crate::mlx;
use crate::mlx::{
    CommandView, ExchangeStage, ExchangeView, MlxRequestView, SetupStage, SetupStepView,
    VibeVoiceMlxResponse,
};
use crate::models;
use crate::models::{Device, Dtype, LoadPlan};
use crate::playback;
use crate::speech_text;
use crate::state::{OverridesView, Real64};
use crate::synthesis;
use crate::synthesis::{EmbeddingView, SeedView, SynthesisFailure};
use crate::text;

verus! {

// ---------------------------------------------------------------------------
// Voices
// ---------------------------------------------------------------------------

/// Whether the name of a voice is a text, whatever the case.
pub open spec fn is_named(voice: Seq<char>, preset: Seq<char>) -> bool {
    text::ascii_lower(voice) == text::ascii_lower(preset)
}

/// Whether the name of a voice holds a text, whatever the case.
pub open spec fn is_held(voice: Seq<char>, preset: Seq<char>) -> bool {
    exists|at: int|
        0 <= at <= at + preset.len() <= voice.len() && text::ascii_lower(
            #[trigger] voice.subrange(at, at + preset.len()),
        ) == text::ascii_lower(preset)
}

proof fn lemma_held(voice: Seq<char>, preset: Seq<char>)
    ensures
        text::occurs_in(text::ascii_lower(voice), text::ascii_lower(preset)) <==> is_held(
            voice,
            preset,
        ),
{
    let lower = text::ascii_lower(voice);
    let word = text::ascii_lower(preset);
    assert forall|at: int|
        0 <= at <= at + preset.len() <= voice.len() implies text::ascii_lower(
        #[trigger] voice.subrange(at, at + preset.len()),
    ) == lower.subrange(at, at + preset.len()) by {
        assert(text::ascii_lower(voice.subrange(at, at + preset.len())) =~= lower.subrange(
            at,
            at + preset.len(),
        ));
    }
    if text::occurs_in(lower, word) {
        let at = choose|at: int| text::occurs_at(lower, word, at);
        assert(text::ascii_lower(voice.subrange(at, at + preset.len())) == word);
    }
    if is_held(voice, preset) {
        let at = choose|at: int|
            0 <= at <= at + preset.len() <= voice.len() && text::ascii_lower(
                #[trigger] voice.subrange(at, at + preset.len()),
            ) == text::ascii_lower(preset);
        assert(text::occurs_at(lower, word, at));
    }
}

proof fn lemma_equal_from(voices: Seq<Seq<char>>, preset: Seq<char>, from: int, i: int)
    requires
        0 <= from <= i <= voices.len(),
        forall|j: int| from <= j < i ==> !is_named(#[trigger] voices[j], preset),
        i < voices.len() ==> is_named(voices[i], preset),
    ensures
        synthesis::first_equal(voices, text::ascii_lower(preset), from) == if i < voices.len() {
            Some(i)
        } else {
            None
        },
    decreases i - from,
{
    if from < i {
        assert(!is_named(voices[from], preset));
        lemma_equal_from(voices, preset, from + 1, i);
    }
}

proof fn lemma_holding_from(voices: Seq<Seq<char>>, preset: Seq<char>, from: int, i: int)
    requires
        0 <= from <= i <= voices.len(),
        forall|j: int| from <= j < i ==> !is_held(#[trigger] voices[j], preset),
        i < voices.len() ==> is_held(voices[i], preset),
    ensures
        synthesis::first_holding(voices, text::ascii_lower(preset), from) == if i < voices.len() {
            Some(i)
        } else {
            None
        },
    decreases i - from,
{
    if from < voices.len() {
        lemma_held(voices[from], preset);
    }
    if from < i {
        assert(!is_held(voices[from], preset));
        lemma_holding_from(voices, preset, from + 1, i);
    }
}

/// The first voice that has the name of the preset is chosen, whatever the case.
pub proof fn law_the_first_voice_of_a_name_is_chosen(
    voices: Seq<Seq<char>>,
    preset: Seq<char>,
    i: int,
)
    requires
        preset.len() > 0,
        0 <= i < voices.len(),
        is_named(voices[i], preset),
        forall|j: int| 0 <= j < i ==> !is_named(#[trigger] voices[j], preset),
    ensures
        synthesis::chosen_voice(voices, preset) == Some(voices[i]),
{
    lemma_equal_from(voices, preset, 0, i);
}

/// Where no voice has the name of the preset, the first one whose name holds it is chosen.
pub proof fn law_a_voice_is_chosen_by_a_part_of_its_name(
    voices: Seq<Seq<char>>,
    preset: Seq<char>,
    i: int,
)
    requires
        preset.len() > 0,
        0 <= i < voices.len(),
        forall|j: int| 0 <= j < voices.len() ==> !is_named(#[trigger] voices[j], preset),
        is_held(voices[i], preset),
        forall|j: int| 0 <= j < i ==> !is_held(#[trigger] voices[j], preset),
    ensures
        synthesis::chosen_voice(voices, preset) == Some(voices[i]),
{
    lemma_equal_from(voices, preset, 0, voices.len() as int);
    lemma_holding_from(voices, preset, 0, i);
}

/// Where the preset is empty, or no voice has it in its name, the first voice is chosen;
/// where there is no voice, none is.
pub proof fn law_otherwise_the_first_voice_is_chosen(voices: Seq<Seq<char>>, preset: Seq<char>)
    requires
        preset.len() == 0 || forall|j: int|
            0 <= j < voices.len() ==> !is_named(#[trigger] voices[j], preset) && !is_held(
                voices[j],
                preset,
            ),
    ensures
        voices.len() > 0 ==> synthesis::chosen_voice(voices, preset) == Some(voices[0]),
        voices.len() == 0 ==> synthesis::chosen_voice(voices, preset) is None,
{
    if preset.len() > 0 {
        lemma_equal_from(voices, preset, 0, voices.len() as int);
        lemma_holding_from(voices, preset, 0, voices.len() as int);
    }
}

/// A request that names a voice is spoken in it, any other in the voice of the settings.
pub proof fn law_a_request_may_name_its_voice(
    voices: Seq<Seq<char>>,
    saved: Seq<char>,
    overrides: OverridesView,
)
    ensures
        overrides.voice_preset matches Some(preset) ==> synthesis::voice_for(
            voices,
            saved,
            overrides,
        ) == synthesis::chosen_voice(voices, preset),
        overrides.voice_preset is None ==> synthesis::voice_for(voices, saved, overrides)
            == synthesis::chosen_voice(voices, saved),
{
}

// ---------------------------------------------------------------------------
// Requests
// ---------------------------------------------------------------------------

/// Every model is asked to speak the whole text, in English and in the chosen voice; what
/// else it is asked for is what it takes of the request, or its defaults.
pub proof fn law_what_a_model_is_asked_for(
    spoken: Seq<char>,
    model: VoiceModel,
    voice: Option<Seq<char>>,
    overrides: OverridesView,
    has_embedding: bool,
)
    ensures
        ({
            let asked = synthesis::request_for(spoken, model, voice, overrides, has_embedding);
            let realtime = model == VoiceModel::VibeVoiceRealtime;
            let long_form = model == VoiceModel::VibeVoice;
            &&& asked.text == spoken
            &&& asked.language == "en"@
            &&& asked.voice == voice
            &&& realtime && overrides.style is Some ==> asked.instruct == overrides.style
            &&& realtime && overrides.style is None ==> asked.instruct == Some(
                synthesis::STYLE_PROMPT@,
            )
            &&& !realtime ==> asked.instruct is None
            &&& realtime ==> asked.temperature == Some(Real64 { bits: 0x3FC3333333333333 })
            &&& long_form && overrides.temperature is Some ==> asked.temperature
                == overrides.temperature
            &&& long_form && overrides.temperature is None ==> asked.temperature == Some(
                Real64 { bits: 0 },
            )
            &&& long_form && overrides.cfg_scale is Some ==> asked.cfg_scale
                == overrides.cfg_scale
            &&& long_form && overrides.cfg_scale is None ==> asked.cfg_scale == Some(
                Real64 { bits: 0x3FF4CCCCCCCCCCCD },
            )
            &&& !long_form ==> asked.cfg_scale is None && asked.max_tokens is None
            &&& !long_form && !realtime ==> asked.temperature is None
            &&& long_form && has_embedding ==> asked.seed is Embedding
            &&& long_form && !has_embedding ==> match overrides.reference_audio_path {
                Some(path) => asked.seed == SeedView::AudioFile(path),
                None => asked.seed is Unset,
            }
            &&& !long_form ==> asked.seed is Unset
            &&& long_form ==> asked.max_tokens is Some && asked.max_tokens->0
                == speech_text::effective_tokens(spoken, overrides.max_tokens)
        }),
{
}

/// The voice of a preset is sought by its number where the request gives one, else by its
/// name, and otherwise there is none.
pub proof fn law_where_a_voice_is_sought(overrides: OverridesView)
    ensures
        overrides.reference_preset_id matches Some(id) ==> synthesis::embedding_for(overrides)
            == EmbeddingView::ById(id),
        overrides.reference_preset_id is None ==> match overrides.reference_preset_name {
            Some(name) => synthesis::embedding_for(overrides) == EmbeddingView::ByName(name),
            None => synthesis::embedding_for(overrides) is Unset,
        },
{
}

/// Parler-TTS speaks by the description of the request, or else by that of the voice; a
/// style follows it behind a space.
pub proof fn law_what_parler_speaks_by(preset: Option<Seq<char>>, overrides: OverridesView)
    ensures
        ({
            let base = match overrides.description {
                Some(description) => description,
                None => synthesis::voice_description(preset),
            };
            &&& overrides.style is None ==> synthesis::request_description(preset, overrides)
                == base
            &&& overrides.style matches Some(style) ==> synthesis::request_description(
                preset,
                overrides,
            ) == base + seq![' '] + style
        }),
{
    reveal_strlit(" ");
    assert(" "@ =~= seq![' ']);
}

/// Each voice of Parler-TTS has its own description, and whatever is no voice of it is
/// described as the first.
pub proof fn law_how_a_voice_is_described(preset: Seq<char>)
    ensures
        synthesis::voice_description(None) == synthesis::SENIOR_DEVELOPER@,
        preset == "clear_female"@ ==> synthesis::voice_description(Some(preset))
            == synthesis::CLEAR_FEMALE@,
        preset == "clear_male"@ ==> synthesis::voice_description(Some(preset))
            == synthesis::CLEAR_MALE@,
        preset == "warm_narrator"@ ==> synthesis::voice_description(Some(preset))
            == synthesis::WARM_NARRATOR@,
        preset != "clear_female"@ && preset != "clear_male"@ && preset != "warm_narrator"@
            ==> synthesis::voice_description(Some(preset)) == synthesis::SENIOR_DEVELOPER@,
{
    reveal_strlit("senior_developer");
    reveal_strlit("clear_female");
    reveal_strlit("clear_male");
    reveal_strlit("warm_narrator");
    assert("warm_narrator"@.len() == 13);
    assert("clear_female"@.len() == 12);
    assert("clear_male"@.len() == 10);
    assert("senior_developer"@.len() == 16);
}

/// A text is tried once more on the processor exactly if VibeVoice 1.5B was to choose its
/// precision, ran on the graphics device, and failed there.
pub proof fn law_when_a_text_is_tried_again(
    model: VoiceModel,
    precision: TtsPrecision,
    initial_runtime: Seq<char>,
    failure: SynthesisFailure,
)
    ensures
        synthesis::retries_on_cpu(model, precision, initial_runtime, failure) <==> {
            &&& model == VoiceModel::VibeVoice
            &&& precision == TtsPrecision::Auto
            &&& failure is Runtime
            &&& initial_runtime.len() >= 5
            &&& initial_runtime.subrange(0, 5) == "metal"@
        },
{
    reveal_strlit("metal");
    assert("metal"@.len() == 5);
}

/// The budget of a text: the recommended one is four for each word and sixteen more, kept
/// within 32 and 128. What a request asks for holds, unless the text is short and that is
/// more than the recommended budget.
pub proof fn law_what_a_text_may_cost(s: Seq<char>, requested: Option<usize>)
    ensures
        ({
            let words = text::words(s).len();
            let fitting: nat = if words <= 4 {
                32
            } else if words >= 28 {
                128
            } else {
                4 * words + 16
            };
            let short = words <= 24 && s.len() <= 160;
            let budget = speech_text::effective_tokens(s, requested);
            &&& speech_text::recommended_tokens(s) == fitting
            &&& requested is None ==> budget == fitting
            &&& requested matches Some(value) ==> budget == if short && value > fitting {
                fitting
            } else {
                value as nat
            }
        }),
{
}

// ---------------------------------------------------------------------------
// The worker of VibeVoice 1.5B
// ---------------------------------------------------------------------------

/// The worker is asked to speak the whole text, in the reference voice, within the budget
/// of the request, and to put the audio in a file of its own.
pub proof fn law_what_the_worker_is_asked_for(
    spoken: Seq<char>,
    overrides: OverridesView,
    reference_audio_path: Option<Seq<char>>,
    asset_root: Seq<char>,
    timestamp: u128,
)
    ensures
        mlx::speech_request(spoken, overrides, reference_audio_path, asset_root, timestamp) == (
        MlxRequestView::Synthesize {
            text: spoken,
            reference_audio_path,
            output_path: text::joined_path(
                text::joined_path(asset_root, "mlx-output"@),
                "vibevoice-mlx-"@ + text::decimal(timestamp as nat) + ".wav"@,
            ),
            cfg_scale: match overrides.cfg_scale {
                Some(scale) => scale,
                None => Real64 { bits: 0x3FF4CCCCCCCCCCCD },
            },
            max_speech_tokens: speech_text::effective_tokens(spoken, overrides.max_tokens),
        }),
{
}

/// What runs the model is what the worker says, or the usual label where it says nothing.
pub proof fn law_what_runs_the_worker(response: VibeVoiceMlxResponse)
    ensures
        response.runtime_label matches Some(label) ==> mlx::response_label(response) == label@,
        response.runtime_label is None ==> mlx::response_label(response)
            == "python:mlx-int8:no-semantic"@,
{
}

/// A request needs the interpreter; it is sent to the worker that runs, and otherwise to
/// one that is started. An answer ends it: a good one with the answer, any other with the
/// error that the worker tells.
pub proof fn law_how_the_worker_is_asked(
    python_found: bool,
    worker_running: bool,
    stage: ExchangeStage,
    response: VibeVoiceMlxResponse,
)
    ensures
        ({
            let begun = mlx::exchange_begun(python_found, worker_running);
            &&& python_found && worker_running ==> begun == (
                ExchangeStage::First,
                ExchangeView::Send,
            )
            &&& python_found && !worker_running ==> begun == (
                ExchangeStage::First,
                ExchangeView::StartAndSend,
            )
            &&& !python_found ==> begun == (
                ExchangeStage::Over,
                ExchangeView::Failed(
                    "VibeVoice MLX is unavailable because the Python runtime was not found."@,
                ),
            )
        }),
        ({
            let end = mlx::exchange_next(stage, Ok(response));
            &&& end.0 == ExchangeStage::Over
            &&& response.ok ==> end.1 == ExchangeView::Done(response)
            &&& !response.ok && response.error is Some ==> end.1 == ExchangeView::Failed(
                "VibeVoice MLX worker error: "@ + response.error->0@,
            )
            &&& !response.ok && response.error is None ==> end.1 == ExchangeView::Failed(
                "VibeVoice MLX worker error: "@ + "unknown worker error"@,
            )
        }),
{
}

/// The commands that set the runtime up: all but the first run the interpreter of its own
/// environment.
pub proof fn law_how_the_runtime_is_set_up(data_dir: Seq<char>)
    ensures
        ({
            let venv = text::joined_path(data_dir, "vibevoice-mlx-venv"@);
            let python = text::joined_path(venv, "bin/python"@);
            let check = CommandView {
                program: python,
                arguments: seq!["-c"@, "import vibevoice_mlx, scipy"@],
                description: "validate the VibeVoice MLX runtime"@,
            };
            &&& mlx::venv_python(data_dir) == python
            &&& mlx::setup_command(data_dir, SetupStage::Probing) == check
            &&& mlx::setup_command(data_dir, SetupStage::Validating) == check
            &&& mlx::setup_command(data_dir, SetupStage::CreatingVenv) == (CommandView {
                program: "python3"@,
                arguments: seq!["-m"@, "venv"@, venv],
                description: "create the VibeVoice MLX virtual environment"@,
            })
            &&& mlx::setup_command(data_dir, SetupStage::UpgradingPip) == (CommandView {
                program: python,
                arguments: seq!["-m"@, "pip"@, "install"@, "--upgrade"@, "pip"@],
                description: "upgrade pip for the VibeVoice MLX runtime"@,
            })
            &&& mlx::setup_command(data_dir, SetupStage::Installing) == (CommandView {
                program: python,
                arguments: seq!["-m"@, "pip"@, "install"@, mlx::MLX_INSTALL_SPEC@, "scipy"@],
                description: "install the VibeVoice MLX runtime dependencies"@,
            })
        }),
{
}

/// What is there and works is kept; what does not is set up from the beginning. A command
/// that fails on the way ends the setup with its error, and one that succeeds is followed
/// by the command of the next stage.
pub proof fn law_how_a_setup_goes_on(
    data_dir: Seq<char>,
    stage: SetupStage,
    outcome: Result<(), String>,
)
    requires
        stage != SetupStage::Over,
    ensures
        ({
            let after = mlx::setup_next(data_dir, stage, outcome);
            let ready = outcome is Ok && (stage == SetupStage::Probing || stage
                == SetupStage::Validating);
            let lost = outcome is Err && stage != SetupStage::Probing;
            &&& ready ==> after == (
                SetupStage::Over,
                SetupStepView::Ready(mlx::venv_python(data_dir)),
            )
            &&& lost ==> after == (SetupStage::Over, SetupStepView::Failed(outcome->Err_0@))
            &&& !ready && !lost ==> after.1 == SetupStepView::Run(
                mlx::setup_command(data_dir, after.0),
            ) && after.0 == match stage {
                SetupStage::Probing => SetupStage::CreatingVenv,
                SetupStage::CreatingVenv => SetupStage::UpgradingPip,
                SetupStage::UpgradingPip => SetupStage::Installing,
                _ => SetupStage::Validating,
            }
        }),
{
}

/// A command that failed is explained by what it wrote as an error, without the white
/// space round it; where that is nothing, by what else it wrote, and last by how it ended.
pub proof fn law_how_a_failed_command_is_explained(
    stderr: Seq<char>,
    stdout: Seq<char>,
    exit_status: Seq<char>,
)
    ensures
        mlx::failure_detail(stderr, stdout, exit_status) == if text::trimmed(stderr).len() > 0 {
            text::trimmed(stderr)
        } else if text::trimmed(stdout).len() > 0 {
            text::trimmed(stdout)
        } else {
            "process exited with status "@ + exit_status
        },
{
}

// ---------------------------------------------------------------------------
// Models
// ---------------------------------------------------------------------------

/// A precision that is asked for is used; left to itself, Kokoro runs at f16 and every
/// other model at f32.
pub proof fn law_which_precision_is_used(model: VoiceModel)
    ensures
        models::dtype_for(model, TtsPrecision::F32) == Dtype::F32,
        models::dtype_for(model, TtsPrecision::F16) == Dtype::F16,
        models::dtype_for(model, TtsPrecision::BF16) == Dtype::BF16,
        model == VoiceModel::Kokoro ==> models::dtype_for(model, TtsPrecision::Auto)
            == Dtype::F16,
        model != VoiceModel::Kokoro ==> models::dtype_for(model, TtsPrecision::Auto)
            == Dtype::F32,
{
}

/// A model is loaded at its precision, on the processor exactly where VibeVoice 1.5B runs
/// at f32. Only where Kokoro chose its own precision is f32 tried behind it, on the same
/// device, and nothing behind that.
pub proof fn law_how_a_model_is_loaded(model: VoiceModel, precision: TtsPrecision)
    ensures
        ({
            let plan = models::load_plan(model, precision);
            let retried = model == VoiceModel::Kokoro && precision == TtsPrecision::Auto;
            &&& plan.voice_model == model
            &&& plan.dtype == models::dtype_for(model, precision)
            &&& plan.device == if model == VoiceModel::VibeVoice && plan.dtype == Dtype::F32 {
                Device::Cpu
            } else {
                Device::Metal(0)
            }
            &&& retried ==> models::plan_after_failure(plan) == Some(
                LoadPlan {
                    voice_model: model,
                    device: Device::Metal(0),
                    dtype: Dtype::F32,
                    fallback: None,
                },
            )
            &&& !retried ==> models::plan_after_failure(plan) is None
        }),
{
}

/// What runs a model is told by the device and the number format.
pub proof fn law_how_a_runtime_is_told(ordinal: usize, dtype: Dtype)
    ensures
        models::label_of(Device::Cpu, dtype) == "cpu"@ + " ("@ + models::dtype_name(dtype)
            + ")"@,
        models::label_of(Device::Metal(ordinal), dtype) == "metal:"@ + text::decimal(
            ordinal as nat,
        ) + " ("@ + models::dtype_name(dtype) + ")"@,
        models::dtype_name(Dtype::F32) == "f32"@,
        models::dtype_name(Dtype::F16) == "f16"@,
        models::dtype_name(Dtype::BF16) == "bf16"@,
{
}

// ---------------------------------------------------------------------------
// Saved audio
// ---------------------------------------------------------------------------

/// Audio is saved under the name of the model and the time, so that no two times share a
/// file.
pub proof fn law_saved_audio_has_its_own_name(model: VoiceModel, one: u128, other: u128)
    requires
        one != other,
    ensures
        playback::output_name(model, one) != playback::output_name(model, other),
{
    let front = "devvoice-"@ + crate::instructions::slug(model) + "-"@;
    let back = ".wav"@;
    let a = text::decimal(one as nat);
    let b = text::decimal(other as nat);
    let left = playback::output_name(model, one);
    let right = playback::output_name(model, other);
    if left == right {
        assert(left == front + a + back);
        assert(right == front + b + back);
        assert(a.len() == b.len());
        assert(left.subrange(front.len() as int, (front.len() + a.len()) as int) =~= a);
        assert(right.subrange(front.len() as int, (front.len() + b.len()) as int) =~= b);
        crate::character_laws::law_decimal_stands_for_the_number(one as nat);
        crate::character_laws::law_decimal_stands_for_the_number(other as nat);
    }
}

/// The name of saved audio begins with that of the application, goes on with that of the
/// model and the time, and ends as audio does.
pub proof fn law_how_saved_audio_is_named(model: VoiceModel, timestamp: u128)
    ensures
        playback::output_name(model, timestamp) == "devvoice-"@ + match model {
            VoiceModel::VibeVoiceRealtime => "vibevoice-realtime"@,
            VoiceModel::VibeVoice => "vibevoice-1-5b"@,
            VoiceModel::ParlerTts => "parler-tts"@,
            VoiceModel::Kokoro => "kokoro"@,
        } + "-"@ + text::decimal(timestamp as nat) + ".wav"@,
{
}

/// Where a request names no directory, audio is saved among the downloads of the user, or
/// of the current directory where no home is known.
pub proof fn law_where_audio_is_saved(home: Option<Seq<char>>)
    ensures
        home matches Some(dir) ==> playback::default_output_dir(home) == text::joined_path(
            dir,
            "Downloads"@,
        ),
        home is None ==> playback::default_output_dir(home) == text::joined_path(
            "."@,
            "Downloads"@,
        ),
{
}

} // verus!
