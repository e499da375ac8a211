//! What holds of requests and of the parameters that a model takes.

use vstd::prelude::*;
use vstd::string::*;

use crate::config::VoiceModel;
use crate::instructions;
use crate::instructions::{OverrideError, Parameter};
use crate::state;
use crate::state::OverridesView;
use crate::text;
use crate::text_laws;

verus! {

/// Whether the instructions for a model list a parameter.
pub open spec fn is_listed(model: VoiceModel, parameter: Parameter) -> bool {
    exists|i: int|
        0 <= i < instructions::instructions(model).attributes.len()
            && (#[trigger] instructions::instructions(model).attributes[i]).query_param
            == instructions::parameter_name(parameter)
}

proof fn lemma_names_differ()
    ensures
        forall|a: Parameter, b: Parameter|
            #![trigger instructions::parameter_name(a), instructions::parameter_name(b)]
            instructions::parameter_name(a) == instructions::parameter_name(b) ==> a == b,
{
    reveal_strlit("voice_preset");
    reveal_strlit("style");
    reveal_strlit("description");
    reveal_strlit("reference_audio_path");
    reveal_strlit("reference_preset_id");
    reveal_strlit("reference_preset_name");
    reveal_strlit("cfg_scale");
    reveal_strlit("temperature");
    reveal_strlit("max_tokens");
    reveal_strlit("chunk_size");
    reveal_strlit("save_audio");
    reveal_strlit("output_dir");
    assert forall|a: Parameter, b: Parameter|
        #![trigger instructions::parameter_name(a), instructions::parameter_name(b)]
        instructions::parameter_name(a) == instructions::parameter_name(b) implies a == b by {
        let s = instructions::parameter_name(a);
        let t = instructions::parameter_name(b);
        assert(s.len() == t.len());
        assert(s[0] == t[0]);
        assert(s[1] == t[1]);
        assert(s[s.len() - 1] == t[t.len() - 1]);
    }
}

/// The instructions list exactly the parameters that the model takes.
pub proof fn law_instructions_list_what_is_supported(model: VoiceModel, parameter: Parameter)
    ensures
        is_listed(model, parameter) <==> instructions::supports(model, parameter),
{
    let list = instructions::instructions(model).attributes;
    let own = instructions::own_attributes(model);
    let common = instructions::common_attributes();
    lemma_names_differ();
    assert(list =~= own + common);
    assert(list[own.len() as int] == common[0]);
    assert(list[own.len() as int + 1] == common[1]);
    assert(list[own.len() as int + 2] == common[2]);
    assert(common[0].query_param == instructions::parameter_name(Parameter::ChunkSize));
    assert(common[1].query_param == instructions::parameter_name(Parameter::SaveAudio));
    assert(common[2].query_param == instructions::parameter_name(Parameter::OutputDir));
    match model {
        VoiceModel::VibeVoiceRealtime => {
            assert(own.len() == 2);
            assert(list[0].query_param == instructions::parameter_name(Parameter::VoicePreset));
            assert(list[1].query_param == instructions::parameter_name(Parameter::Style));
        },
        VoiceModel::VibeVoice => {
            assert(own.len() == 6);
            assert(list[0].query_param == instructions::parameter_name(Parameter::ReferenceAudioPath));
            assert(list[1].query_param == instructions::parameter_name(Parameter::ReferencePresetId));
            assert(list[2].query_param == instructions::parameter_name(Parameter::ReferencePresetName));
            assert(list[3].query_param == instructions::parameter_name(Parameter::CfgScale));
            assert(list[4].query_param == instructions::parameter_name(Parameter::Temperature));
            assert(list[5].query_param == instructions::parameter_name(Parameter::MaxTokens));
        },
        VoiceModel::ParlerTts => {
            assert(own.len() == 3);
            assert(list[0].query_param == instructions::parameter_name(Parameter::VoicePreset));
            assert(list[1].query_param == instructions::parameter_name(Parameter::Description));
            assert(list[2].query_param == instructions::parameter_name(Parameter::Style));
        },
        VoiceModel::Kokoro => {
            assert(own.len() == 1);
            assert(list[0].query_param == instructions::parameter_name(Parameter::VoicePreset));
        },
    }
}

/// A request is accepted exactly when the instructions list all that it sets, and it
/// names at most one reference voice, which is there if it is a file.
pub proof fn law_listed_parameters_are_accepted(
    model: VoiceModel,
    overrides: OverridesView,
    reference_exists: bool,
)
    ensures
        instructions::override_error(model, overrides, reference_exists) is None <==> {
            &&& forall|parameter: Parameter| #[trigger]
                instructions::is_set(overrides, parameter) ==> is_listed(model, parameter)
            &&& instructions::reference_count(overrides) <= 1
            &&& overrides.reference_audio_path is Some ==> reference_exists
        },
{
    assert forall|parameter: Parameter| #[trigger]
        instructions::is_set(overrides, parameter) implies (is_listed(model, parameter)
        <==> instructions::supports(model, parameter)) by {
        law_instructions_list_what_is_supported(model, parameter);
    }
}

/// A request that sets nothing is accepted for every model.
pub proof fn law_a_plain_request_is_accepted(model: VoiceModel, reference_exists: bool)
    ensures
        instructions::override_error(model, state::no_overrides(), reference_exists) is None,
{
}

/// A reference voice is taken by one model only.
pub proof fn law_only_one_model_takes_references(
    model: VoiceModel,
    overrides: OverridesView,
    reference_exists: bool,
)
    requires
        instructions::override_error(model, overrides, reference_exists) is None,
        instructions::reference_count(overrides) > 0,
    ensures
        model == VoiceModel::VibeVoice,
        instructions::reference_count(overrides) == 1,
{
    assert(instructions::is_set(overrides, Parameter::ReferenceAudioPath)
        || instructions::is_set(overrides, Parameter::ReferencePresetId)
        || instructions::is_set(overrides, Parameter::ReferencePresetName));
}

proof fn lemma_trimmed_option_twice(value: Option<Seq<char>>)
    ensures
        state::trimmed_option(state::trimmed_option(value)) == state::trimmed_option(value),
{
    if let Some(found) = value {
        if !text::is_blank(found) {
            text_laws::law_trimming_is_idempotent(found);
        }
    }
}

/// Normalising a request a second time changes nothing.
pub proof fn law_normalizing_overrides_is_idempotent(overrides: OverridesView)
    ensures
        state::normalized_overrides(state::normalized_overrides(overrides))
            == state::normalized_overrides(overrides),
{
    lemma_trimmed_option_twice(overrides.voice_preset);
    lemma_trimmed_option_twice(overrides.style);
    lemma_trimmed_option_twice(overrides.description);
    lemma_trimmed_option_twice(overrides.reference_audio_path);
    lemma_trimmed_option_twice(overrides.reference_preset_id);
    lemma_trimmed_option_twice(overrides.reference_preset_name);
    lemma_trimmed_option_twice(overrides.output_dir);
}

/// A text that is set in a normalised request is tidy and not empty.
pub proof fn law_normalized_texts_are_tidy(value: Option<Seq<char>>)
    ensures
        state::trimmed_option(value) matches Some(found) ==> found.len() > 0
            && text_laws::is_tidy(found),
{
    if let Some(found) = value {
        text_laws::law_trimmed_is_tidy(found);
    }
}

} // verus!
