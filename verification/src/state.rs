//! The values that the application exchanges with its user interface and with the
//! callers of its HTTP API.

use vstd::prelude::*;
use vstd::string::*;

use crate::config::{AppConfig, ConfigView, TtsPrecision, VoiceModel};
use crate::text;

verus! {

/// What the application is doing.
#[derive(Debug, Clone, Copy, PartialEq, Eq, Structural)]
pub enum AppStatus {
    Idle,
    LoadingModel,
    CapturingSelection,
    RewritingText,
    Synthesizing,
    Speaking,
    Ready,
    Error,
}

/// The name of a status.
pub open spec fn status_name(status: AppStatus) -> Seq<char> {
    match status {
        AppStatus::Idle => "Idle"@,
        AppStatus::LoadingModel => "LoadingModel"@,
        AppStatus::CapturingSelection => "CapturingSelection"@,
        AppStatus::RewritingText => "RewritingText"@,
        AppStatus::Synthesizing => "Synthesizing"@,
        AppStatus::Speaking => "Speaking"@,
        AppStatus::Ready => "Ready"@,
        AppStatus::Error => "Error"@,
    }
}

impl AppStatus {
    /// The name of the status.
    pub fn name(self) -> (res: &'static str)
        ensures
            res@ == status_name(self),
    {
        match self {
            AppStatus::Idle => "Idle",
            AppStatus::LoadingModel => "LoadingModel",
            AppStatus::CapturingSelection => "CapturingSelection",
            AppStatus::RewritingText => "RewritingText",
            AppStatus::Synthesizing => "Synthesizing",
            AppStatus::Speaking => "Speaking",
            AppStatus::Ready => "Ready",
            AppStatus::Error => "Error",
        }
    }
}

/// A double-precision number, carried as its IEEE 754 bit pattern.
#[derive(Debug, Clone, Copy, PartialEq, Eq, Structural)]
pub struct Real64 {
    pub bits: u64,
}

/// A single-precision number, carried as its IEEE 754 bit pattern.
#[derive(Debug, Clone, Copy, PartialEq, Eq, Structural)]
pub struct Real32 {
    pub bits: u32,
}

/// Everything that the user interface shows.
#[derive(Debug)]
pub struct AppSnapshot {
    pub status: AppStatus,
    pub status_detail: String,
    pub config: AppConfig,
    pub api_key_present: bool,
    pub model_ready: bool,
    pub playback_paused: bool,
    pub queue_length: usize,
    pub can_skip: bool,
    pub last_selection: Option<String>,
    pub last_prepared_text: Option<String>,
    pub last_error: Option<String>,
    pub available_voices: Vec<String>,
    pub tts_runtime_label: Option<String>,
    pub tts_backend_status: String,
    pub model_instructions: ModelInstructions,
}

/// The settings that the user interface sends to be saved.
#[derive(Debug)]
pub struct SettingsInput {
    pub gemini_enabled: bool,
    pub gemini_model: String,
    pub gemini_prompt: String,
    pub voice_model: VoiceModel,
    pub voice_preset: String,
    pub default_chunk_size: usize,
    pub tts_precision: TtsPrecision,
    pub shortcut: String,
    pub api_key: Option<String>,
}

/// What one request asks for beyond the saved settings.
#[derive(Debug)]
pub struct SpeechOverrides {
    pub voice_preset: Option<String>,
    pub style: Option<String>,
    pub description: Option<String>,
    pub reference_audio_path: Option<String>,
    pub reference_preset_id: Option<String>,
    pub reference_preset_name: Option<String>,
    pub cfg_scale: Option<Real64>,
    pub temperature: Option<Real64>,
    pub max_tokens: Option<usize>,
    pub chunk_size: Option<usize>,
    pub save_audio: Option<bool>,
    pub output_dir: Option<String>,
}

/// The overrides as a mathematical value.
pub struct OverridesView {
    pub voice_preset: Option<Seq<char>>,
    pub style: Option<Seq<char>>,
    pub description: Option<Seq<char>>,
    pub reference_audio_path: Option<Seq<char>>,
    pub reference_preset_id: Option<Seq<char>>,
    pub reference_preset_name: Option<Seq<char>>,
    pub cfg_scale: Option<Real64>,
    pub temperature: Option<Real64>,
    pub max_tokens: Option<usize>,
    pub chunk_size: Option<usize>,
    pub save_audio: Option<bool>,
    pub output_dir: Option<Seq<char>>,
}

impl View for SpeechOverrides {
    type V = OverridesView;

    open spec fn view(&self) -> OverridesView {
        OverridesView {
            voice_preset: self.voice_preset.deep_view(),
            style: self.style.deep_view(),
            description: self.description.deep_view(),
            reference_audio_path: self.reference_audio_path.deep_view(),
            reference_preset_id: self.reference_preset_id.deep_view(),
            reference_preset_name: self.reference_preset_name.deep_view(),
            cfg_scale: self.cfg_scale,
            temperature: self.temperature,
            max_tokens: self.max_tokens,
            chunk_size: self.chunk_size,
            save_audio: self.save_audio,
            output_dir: self.output_dir.deep_view(),
        }
    }
}

/// A copy of an optional text.
pub fn clone_text(value: &Option<String>) -> (res: Option<String>)
    ensures
        res.deep_view() == value.deep_view(),
        res == *value,
{
    match value {
        Some(found) => Some(found.clone()),
        None => None,
    }
}

/// A copy of a list of texts.
pub fn clone_texts(list: &Vec<String>) -> (res: Vec<String>)
    ensures
        res.deep_view() == list.deep_view(),
{
    let mut out: Vec<String> = Vec::new();
    let mut i: usize = 0;
    while i < list.len()
        invariant
            i <= list@.len(),
            out@.len() == i,
            forall|j: int| 0 <= j < i ==> (#[trigger] out@[j])@ == list@[j]@,
        decreases list@.len() - i,
    {
        out.push(list[i].clone());
        i = i + 1;
    }
    assert(out.deep_view() =~= list.deep_view());
    out
}

impl Clone for SpeechOverrides {
    fn clone(&self) -> (res: Self)
        ensures
            res@ == self@,
    {
        SpeechOverrides {
            voice_preset: clone_text(&self.voice_preset),
            style: clone_text(&self.style),
            description: clone_text(&self.description),
            reference_audio_path: clone_text(&self.reference_audio_path),
            reference_preset_id: clone_text(&self.reference_preset_id),
            reference_preset_name: clone_text(&self.reference_preset_name),
            cfg_scale: self.cfg_scale,
            temperature: self.temperature,
            max_tokens: self.max_tokens,
            chunk_size: self.chunk_size,
            save_audio: self.save_audio,
            output_dir: clone_text(&self.output_dir),
        }
    }
}

/// Overrides that ask for nothing.
pub open spec fn no_overrides() -> OverridesView {
    OverridesView {
        voice_preset: None,
        style: None,
        description: None,
        reference_audio_path: None,
        reference_preset_id: None,
        reference_preset_name: None,
        cfg_scale: None,
        temperature: None,
        max_tokens: None,
        chunk_size: None,
        save_audio: None,
        output_dir: None,
    }
}

impl Default for SpeechOverrides {
    fn default() -> (res: Self)
        ensures
            res@ == no_overrides(),
    {
        SpeechOverrides {
            voice_preset: None,
            style: None,
            description: None,
            reference_audio_path: None,
            reference_preset_id: None,
            reference_preset_name: None,
            cfg_scale: None,
            temperature: None,
            max_tokens: None,
            chunk_size: None,
            save_audio: None,
            output_dir: None,
        }
    }
}

/// An optional text, trimmed; a blank one counts as absent.
pub open spec fn trimmed_option(value: Option<Seq<char>>) -> Option<Seq<char>> {
    match value {
        Some(found) => if text::is_blank(found) {
            None
        } else {
            Some(text::trimmed(found))
        },
        None => None,
    }
}

/// The optional text, trimmed; a blank one counts as absent.
pub fn trim_option(value: Option<String>) -> (res: Option<String>)
    ensures
        res.deep_view() == trimmed_option(value.deep_view()),
{
    match value {
        Some(found) => {
            let rest = text::trim(found.as_str());
            if rest.as_str().is_empty() {
                None
            } else {
                Some(rest)
            }
        },
        None => None,
    }
}

/// Overrides with their texts trimmed and the blank ones left out.
pub open spec fn normalized_overrides(overrides: OverridesView) -> OverridesView {
    OverridesView {
        voice_preset: trimmed_option(overrides.voice_preset),
        style: trimmed_option(overrides.style),
        description: trimmed_option(overrides.description),
        reference_audio_path: trimmed_option(overrides.reference_audio_path),
        reference_preset_id: trimmed_option(overrides.reference_preset_id),
        reference_preset_name: trimmed_option(overrides.reference_preset_name),
        output_dir: trimmed_option(overrides.output_dir),
        ..overrides
    }
}

impl SpeechOverrides {
    /// The overrides with their texts trimmed and the blank ones left out.
    pub fn normalized(self) -> (res: Self)
        ensures
            res@ == normalized_overrides(self@),
            res.voice_preset.deep_view() == trimmed_option(self.voice_preset.deep_view()),
            res.style.deep_view() == trimmed_option(self.style.deep_view()),
            res.description.deep_view() == trimmed_option(self.description.deep_view()),
            res.reference_audio_path.deep_view() == trimmed_option(
                self.reference_audio_path.deep_view(),
            ),
            res.reference_preset_id.deep_view() == trimmed_option(
                self.reference_preset_id.deep_view(),
            ),
            res.reference_preset_name.deep_view() == trimmed_option(
                self.reference_preset_name.deep_view(),
            ),
            res.output_dir.deep_view() == trimmed_option(self.output_dir.deep_view()),
            res.cfg_scale == self.cfg_scale,
            res.temperature == self.temperature,
            res.max_tokens == self.max_tokens,
            res.chunk_size == self.chunk_size,
            res.save_audio == self.save_audio,
    {
        SpeechOverrides {
            voice_preset: trim_option(self.voice_preset),
            style: trim_option(self.style),
            description: trim_option(self.description),
            reference_audio_path: trim_option(self.reference_audio_path),
            reference_preset_id: trim_option(self.reference_preset_id),
            reference_preset_name: trim_option(self.reference_preset_name),
            cfg_scale: self.cfg_scale,
            temperature: self.temperature,
            max_tokens: self.max_tokens,
            chunk_size: self.chunk_size,
            save_audio: self.save_audio,
            output_dir: trim_option(self.output_dir),
        }
    }
}

/// How the selected model is to be used.
#[derive(Debug)]
pub struct ModelInstructions {
    pub model_label: String,
    pub summary: String,
    pub curl_example: String,
    pub attributes: Vec<ModelInstructionAttribute>,
}

/// One query parameter that the selected model takes.
#[derive(Debug)]
pub struct ModelInstructionAttribute {
    pub query_param: String,
    pub label: String,
    pub description: String,
}

/// A query parameter as a mathematical value.
pub struct AttributeView {
    pub query_param: Seq<char>,
    pub label: Seq<char>,
    pub description: Seq<char>,
}

impl View for ModelInstructionAttribute {
    type V = AttributeView;

    open spec fn view(&self) -> AttributeView {
        AttributeView {
            query_param: self.query_param@,
            label: self.label@,
            description: self.description@,
        }
    }
}

impl DeepView for ModelInstructionAttribute {
    type V = AttributeView;

    open spec fn deep_view(&self) -> AttributeView {
        self@
    }
}

/// The instructions as a mathematical value.
pub struct InstructionsView {
    pub model_label: Seq<char>,
    pub summary: Seq<char>,
    pub curl_example: Seq<char>,
    pub attributes: Seq<AttributeView>,
}

impl View for ModelInstructions {
    type V = InstructionsView;

    open spec fn view(&self) -> InstructionsView {
        InstructionsView {
            model_label: self.model_label@,
            summary: self.summary@,
            curl_example: self.curl_example@,
            attributes: self.attributes.deep_view(),
        }
    }
}

/// What came of speaking a text. How long the audio lasts is a real number, which
/// the application adds up beside it.
#[derive(Debug)]
pub struct SpeakOutcome {
    pub raw_selection: String,
    pub prepared_text: String,
    pub used_gemini: bool,
}

// ---------------------------------------------------------------------------
// Query parameters that come as text
// ---------------------------------------------------------------------------

/// The truth value that a text stands for.
pub open spec fn flag_value(s: Seq<char>) -> Option<bool> {
    let t = text::ascii_lower(text::trimmed(s));
    if t == "1"@ || t == "true"@ || t == "yes"@ || t == "on"@ {
        Some(true)
    } else if t == "0"@ || t == "false"@ || t == "no"@ || t == "off"@ {
        Some(false)
    } else {
        None
    }
}

/// A parameter that is a truth value or a text that stands for one.
#[derive(Debug)]
pub enum BoolLike {
    Flag(bool),
    Text(String),
}

/// Why a parameter was refused.
#[derive(Debug, Clone, Copy, PartialEq, Eq, Structural)]
pub enum ParameterError {
    NotABoolean,
    Empty,
    InvalidDigit,
    TooLarge,
    ValueTooLarge,
}

/// The message of a parameter error.
pub open spec fn parameter_message(error: ParameterError) -> Seq<char> {
    match error {
        ParameterError::NotABoolean => "expected a boolean value"@,
        ParameterError::Empty => "cannot parse integer from empty string"@,
        ParameterError::InvalidDigit => "invalid digit found in string"@,
        ParameterError::TooLarge => "number too large to fit in target type"@,
        ParameterError::ValueTooLarge => "value is too large"@,
    }
}

impl ParameterError {
    /// The message of the error.
    pub fn message(self) -> (res: &'static str)
        ensures
            res@ == parameter_message(self),
    {
        match self {
            ParameterError::NotABoolean => "expected a boolean value",
            ParameterError::Empty => "cannot parse integer from empty string",
            ParameterError::InvalidDigit => "invalid digit found in string",
            ParameterError::TooLarge => "number too large to fit in target type",
            ParameterError::ValueTooLarge => "value is too large",
        }
    }
}

/// An optional truth value from a parameter that may have come as text.
pub fn optional_bool(value: Option<BoolLike>) -> (res: Result<Option<bool>, ParameterError>)
    ensures
        match value {
            None => res == Ok::<Option<bool>, ParameterError>(None),
            Some(BoolLike::Flag(flag)) => res == Ok::<Option<bool>, ParameterError>(Some(flag)),
            Some(BoolLike::Text(s)) => match flag_value(s@) {
                Some(flag) => res == Ok::<Option<bool>, ParameterError>(Some(flag)),
                None => res == Err::<Option<bool>, ParameterError>(ParameterError::NotABoolean),
            },
        },
{
    match value {
        None => Ok(None),
        Some(BoolLike::Flag(flag)) => Ok(Some(flag)),
        Some(BoolLike::Text(s)) => {
            let t = text::lower_ascii(text::trim(s.as_str()).as_str());
            let t = t.as_str();
            if text::same_text(t, "1") || text::same_text(t, "true") || text::same_text(t, "yes")
                || text::same_text(t, "on") {
                Ok(Some(true))
            } else if text::same_text(t, "0") || text::same_text(t, "false") || text::same_text(
                t,
                "no",
            ) || text::same_text(t, "off") {
                Ok(Some(false))
            } else {
                Err(ParameterError::NotABoolean)
            }
        },
    }
}

/// The value of a decimal digit.
pub open spec fn digit_value(c: char) -> Option<nat> {
    if '0' <= c && c <= '9' {
        Some((c as u32 - '0' as u32) as nat)
    } else {
        None
    }
}

/// What reading the digits of `s` behind a number `acc` comes to, from the left:
/// the first character that is no digit, or the first digit that makes the number
/// too large for `usize`, ends it.
pub open spec fn digits_read(s: Seq<char>, acc: nat) -> Result<nat, ParameterError>
    decreases s.len(),
{
    if s.len() == 0 {
        Ok(acc)
    } else {
        match digit_value(s[0]) {
            None => Err(ParameterError::InvalidDigit),
            Some(d) => if acc * 10 + d > usize::MAX {
                Err(ParameterError::TooLarge)
            } else {
                digits_read(s.skip(1), acc * 10 + d)
            },
        }
    }
}

/// The whole number that a text stands for: decimal digits, at least one, with or
/// without a plus sign in front.
pub open spec fn count_value(s: Seq<char>) -> Result<nat, ParameterError> {
    if s.len() == 0 {
        Err(ParameterError::Empty)
    } else if s.len() == 1 && (s[0] == '+' || s[0] == '-') {
        Err(ParameterError::InvalidDigit)
    } else if s[0] == '+' {
        digits_read(s.skip(1), 0)
    } else {
        digits_read(s, 0)
    }
}

/// The whole number that a text stands for.
pub fn parse_count(s: &str) -> (res: Result<usize, ParameterError>)
    ensures
        match count_value(s@) {
            Ok(n) => res matches Ok(value) && value == n,
            Err(error) => res == Err::<usize, ParameterError>(error),
        },
{
    let chars = text::chars_of(s);
    if chars.len() == 0 {
        return Err(ParameterError::Empty);
    }
    if chars.len() == 1 && (chars[0] == '+' || chars[0] == '-') {
        return Err(ParameterError::InvalidDigit);
    }
    let mut i: usize = if chars[0] == '+' {
        1
    } else {
        0
    };
    let mut acc: usize = 0;
    assert(chars@.skip(0) =~= chars@);
    while i < chars.len()
        invariant
            i <= chars@.len(),
            chars@ == s@,
            count_value(s@) == digits_read(chars@.skip(i as int), acc as nat),
        decreases chars@.len() - i,
    {
        let c = chars[i];
        assert(chars@.skip(i as int)[0] == c);
        assert(chars@.skip(i as int).skip(1) =~= chars@.skip(i + 1));
        if c < '0' || '9' < c {
            return Err(ParameterError::InvalidDigit);
        }
        let d: usize = (c as u32 - 48) as usize;
        if acc > (usize::MAX - d) / 10 {
            return Err(ParameterError::TooLarge);
        }
        acc = acc * 10 + d;
        i = i + 1;
    }
    assert(chars@.skip(i as int) =~= seq![]);
    Ok(acc)
}

/// A parameter that is a whole number or a text that stands for one.
#[derive(Debug)]
pub enum StringOrNumber {
    Text(String),
    Number(u64),
}

/// An optional whole number from a parameter that may have come as text.
pub fn optional_usize(value: Option<StringOrNumber>) -> (res: Result<
    Option<usize>,
    ParameterError,
>)
    ensures
        match value {
            None => res == Ok::<Option<usize>, ParameterError>(None),
            Some(StringOrNumber::Text(s)) => match count_value(s@) {
                Ok(n) => res matches Ok(Some(found)) && found == n,
                Err(error) => res == Err::<Option<usize>, ParameterError>(error),
            },
            Some(StringOrNumber::Number(number)) => if number <= usize::MAX {
                res matches Ok(Some(found)) && found == number
            } else {
                res == Err::<Option<usize>, ParameterError>(ParameterError::ValueTooLarge)
            },
        },
{
    match value {
        None => Ok(None),
        Some(StringOrNumber::Text(s)) => match parse_count(s.as_str()) {
            Ok(found) => Ok(Some(found)),
            Err(error) => Err(error),
        },
        Some(StringOrNumber::Number(number)) => {
            if number <= usize::MAX as u64 {
                Ok(Some(number as usize))
            } else {
                Err(ParameterError::ValueTooLarge)
            }
        },
    }
}

} // verus!
