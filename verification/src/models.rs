//! How models are loaded: at which precision, on which device, and from which files.

use vstd::prelude::*;
use vstd::string::*;

use crate::config::{TtsPrecision, VoiceModel};
use crate::text;

verus! {

// ---------------------------------------------------------------------------
// Precision and device
// ---------------------------------------------------------------------------

/// The number format of a model's weights.
#[derive(Debug, Clone, Copy, PartialEq, Eq, Structural)]
pub enum Dtype {
    F32,
    F16,
    BF16,
}

/// Where a model runs.
#[derive(Debug, Clone, Copy, PartialEq, Eq, Structural)]
pub enum Device {
    Cpu,
    Metal(usize),
}

/// The name of a number format.
pub open spec fn dtype_name(dtype: Dtype) -> Seq<char> {
    match dtype {
        Dtype::F32 => "f32"@,
        Dtype::F16 => "f16"@,
        Dtype::BF16 => "bf16"@,
    }
}

/// The name of a device.
pub open spec fn device_name(device: Device) -> Seq<char> {
    match device {
        Device::Cpu => "cpu"@,
        Device::Metal(ordinal) => "metal:"@ + text::decimal(ordinal as nat),
    }
}

/// `any_tts::DType::label` gives the name of the number format: `f32`, `f16` or
/// `bf16`.
#[verifier::external_body]
fn any_tts_dtype_label(dtype: Dtype) -> (res: &'static str)
    ensures
        res@ == dtype_name(dtype),
{
    match dtype {
        Dtype::F32 => any_tts::DType::F32.label(),
        Dtype::F16 => any_tts::DType::F16.label(),
        Dtype::BF16 => any_tts::DType::BF16.label(),
    }
}

/// `any_tts::DeviceSelection::label` gives the name of the device: `cpu`, or `metal:`
/// and the ordinal of the device in decimal notation.
#[verifier::external_body]
fn any_tts_device_label(device: Device) -> (res: String)
    ensures
        res@ == device_name(device),
{
    match device {
        Device::Cpu => any_tts::DeviceSelection::Cpu.label(),
        Device::Metal(ordinal) => any_tts::DeviceSelection::Metal(ordinal).label(),
    }
}

/// The name of the number format.
pub fn dtype_label(dtype: Dtype) -> (res: &'static str)
    ensures
        res@ == dtype_name(dtype),
{
    match dtype {
        Dtype::F32 => "f32",
        Dtype::F16 => "f16",
        Dtype::BF16 => "bf16",
    }
}

/// The number format that a model is to be loaded with.
pub open spec fn dtype_for(model: VoiceModel, precision: TtsPrecision) -> Dtype {
    match precision {
        TtsPrecision::Auto => if model == VoiceModel::Kokoro {
            Dtype::F16
        } else {
            Dtype::F32
        },
        TtsPrecision::F32 => Dtype::F32,
        TtsPrecision::F16 => Dtype::F16,
        TtsPrecision::BF16 => Dtype::BF16,
    }
}

/// The number format that a model is to be loaded with.
pub fn requested_dtype(voice_model: VoiceModel, precision: TtsPrecision) -> (res: Dtype)
    ensures
        res == dtype_for(voice_model, precision),
{
    match precision {
        TtsPrecision::Auto => match voice_model {
            VoiceModel::Kokoro => Dtype::F16,
            VoiceModel::VibeVoice
            | VoiceModel::VibeVoiceRealtime
            | VoiceModel::ParlerTts => Dtype::F32,
        },
        TtsPrecision::F32 => Dtype::F32,
        TtsPrecision::F16 => Dtype::F16,
        TtsPrecision::BF16 => Dtype::BF16,
    }
}

/// What runs a model: the device and the number format.
pub open spec fn label_of(device: Device, dtype: Dtype) -> Seq<char> {
    device_name(device) + " ("@ + dtype_name(dtype) + ")"@
}

/// What runs a model: the device and the number format.
pub fn runtime_label(device: Device, dtype: Dtype) -> (res: String)
    ensures
        res@ == label_of(device, dtype),
{
    let device = any_tts_device_label(device);
    let label = text::concat3(device.as_str(), " (", any_tts_dtype_label(dtype));
    text::concat2(label.as_str(), ")")
}

/// What runs Parler-TTS.
pub fn parler_runtime_label(dtype: Dtype) -> (res: String)
    ensures
        res@ == "metal:0 ("@ + dtype_name(dtype) + ")"@,
{
    text::concat3("metal:0 (", dtype_label(dtype), ")")
}

/// How a model is to be loaded.
#[derive(Debug, Clone, Copy, PartialEq, Eq, Structural)]
pub struct LoadPlan {
    pub voice_model: VoiceModel,
    pub device: Device,
    pub dtype: Dtype,
    /// The number format to try where the first one fails.
    pub fallback: Option<Dtype>,
}

/// How a model is loaded. VibeVoice 1.5B at f32 runs on the processor, everything
/// else on the graphics device, where automatic precision may fall back to f32.
pub open spec fn load_plan(model: VoiceModel, precision: TtsPrecision) -> LoadPlan {
    let dtype = dtype_for(model, precision);
    LoadPlan {
        voice_model: model,
        device: if model == VoiceModel::VibeVoice && dtype == Dtype::F32 {
            Device::Cpu
        } else {
            Device::Metal(0)
        },
        dtype,
        fallback: if precision == TtsPrecision::Auto && dtype != Dtype::F32 && (model
            == VoiceModel::VibeVoiceRealtime || model == VoiceModel::Kokoro) {
            Some(Dtype::F32)
        } else {
            None
        },
    }
}

/// What to load a model with on the graphics device if the first number format fails.
fn metal_fallback(dtype: Dtype, allow_f32_fallback: bool) -> (res: Option<Dtype>)
    ensures
        res == if allow_f32_fallback && dtype != Dtype::F32 {
            Some(Dtype::F32)
        } else {
            None
        },
{
    if allow_f32_fallback && dtype != Dtype::F32 {
        Some(Dtype::F32)
    } else {
        None
    }
}

/// How the model is to be loaded.
pub fn load_selected_model(voice_model: VoiceModel, precision: TtsPrecision) -> (res: LoadPlan)
    ensures
        res == load_plan(voice_model, precision),
{
    let dtype = requested_dtype(voice_model, precision);
    let auto = precision == TtsPrecision::Auto;
    match voice_model {
        VoiceModel::VibeVoiceRealtime | VoiceModel::Kokoro => LoadPlan {
            voice_model,
            device: Device::Metal(0),
            dtype,
            fallback: metal_fallback(dtype, auto),
        },
        VoiceModel::VibeVoice => LoadPlan {
            voice_model,
            device: if dtype == Dtype::F32 {
                Device::Cpu
            } else {
                Device::Metal(0)
            },
            dtype,
            fallback: None,
        },
        VoiceModel::ParlerTts => LoadPlan {
            voice_model,
            device: Device::Metal(0),
            dtype,
            fallback: None,
        },
    }
}

/// The plan to try next once a load has failed, if there is one.
pub open spec fn plan_after_failure(plan: LoadPlan) -> Option<LoadPlan> {
    match plan.fallback {
        Some(dtype) => Some(LoadPlan { dtype, fallback: None, ..plan }),
        None => None,
    }
}

impl LoadPlan {
    /// The plan to try next once this one has failed, if there is one.
    pub fn after_failure(&self) -> (res: Option<LoadPlan>)
        ensures
            res == plan_after_failure(*self),
    {
        match self.fallback {
            Some(dtype) => Some(
                LoadPlan {
                    voice_model: self.voice_model,
                    device: self.device,
                    dtype,
                    fallback: None,
                },
            ),
            None => None,
        }
    }

    /// How a failure to load by this plan is told.
    pub fn failure_context(&self) -> (res: String)
        ensures
            res@ == "load "@ + crate::config::model_name(self.voice_model) + " on "@ + label_of(
                self.device,
                self.dtype,
            ),
    {
        let label = runtime_label(self.device, self.dtype);
        let context = text::concat3("load ", self.voice_model.display_name(), " on ");
        text::concat2(context.as_str(), label.as_str())
    }
}

/// The name under which a model is published.
pub open spec fn published_id(model: VoiceModel) -> Seq<char> {
    match model {
        VoiceModel::VibeVoiceRealtime => "microsoft/VibeVoice-Realtime-0.5B"@,
        VoiceModel::VibeVoice => "microsoft/VibeVoice-1.5B"@,
        VoiceModel::ParlerTts => "parler-tts/parler-tts-mini-v1"@,
        VoiceModel::Kokoro => "hexgrad/Kokoro-82M"@,
    }
}

/// The name under which the model is published.
pub fn hf_model_id(model: VoiceModel) -> (res: &'static str)
    ensures
        res@ == published_id(model),
{
    match model {
        VoiceModel::VibeVoiceRealtime => "microsoft/VibeVoice-Realtime-0.5B",
        VoiceModel::VibeVoice => "microsoft/VibeVoice-1.5B",
        VoiceModel::ParlerTts => "parler-tts/parler-tts-mini-v1",
        VoiceModel::Kokoro => "hexgrad/Kokoro-82M",
    }
}

/// Below the assets: where the files of a model are kept.
pub open spec fn model_folder(model: VoiceModel) -> Seq<char> {
    match model {
        VoiceModel::VibeVoiceRealtime => "vibevoice-realtime-0.5b"@,
        VoiceModel::VibeVoice => "vibevoice-1.5b"@,
        VoiceModel::ParlerTts => "parler-tts-mini-v1"@,
        VoiceModel::Kokoro => "kokoro-82m"@,
    }
}

/// Where the files of the model are kept.
pub fn model_dir(asset_root: &str, model: VoiceModel) -> (res: String)
    ensures
        res@ == text::joined_path(asset_root@, model_folder(model)),
{
    let folder = match model {
        VoiceModel::VibeVoiceRealtime => "vibevoice-realtime-0.5b",
        VoiceModel::VibeVoice => "vibevoice-1.5b",
        VoiceModel::ParlerTts => "parler-tts-mini-v1",
        VoiceModel::Kokoro => "kokoro-82m",
    };
    text::join_path(asset_root, folder)
}

} // verus!
