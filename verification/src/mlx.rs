//! VibeVoice 1.5B: the runtime that it needs, and the worker process that speaks it.

use vstd::prelude::*;
use vstd::string::*;

use crate::paths;
use crate::speech_text;
use crate::state;
use crate::state::{OverridesView, Real64, SpeechOverrides};
use crate::synthesis;
use crate::text;
use crate::tts;
use crate::tts::{TtsService, TtsView, WarmupInfo, WarmupView};

verus! {

pub const WARMUP_TEXT: &'static str = "Speaker 0: Warm up.";

/// The model that the worker loads.
pub const MLX_MODEL_ID: &'static str = "gafiatulin/vibevoice-1.5b-mlx";

/// What runs the model where the worker does not say.
pub const MLX_RUNTIME_LABEL: &'static str = "python:mlx-int8:no-semantic";

/// What is installed to run the model.
pub const MLX_INSTALL_SPEC: &'static str =
    "git+https://github.com/gafiatulin/vibevoice-mlx.git@f513aa7877e77fefa1aebe87432855c407da3b87";

/// The kind of voice that is kept with a preset.
pub const REFERENCE_EMBEDDING_MODEL_TYPE: &'static str = "vibevoice-reference-audio-v1";

/// The most tokens that a warm-up may take.
pub const WARMUP_TOKENS: usize = 32;

// ---------------------------------------------------------------------------
// Requests to the worker
// ---------------------------------------------------------------------------

/// What the worker is asked for.
#[derive(Debug)]
pub enum VibeVoiceMlxRequest {
    Warmup {
        text: String,
        /// The voice to have ready for the requests that follow.
        reference_audio_path: Option<String>,
        cfg_scale: Real64,
        max_speech_tokens: usize,
    },
    Synthesize {
        text: String,
        reference_audio_path: Option<String>,
        output_path: String,
        cfg_scale: Real64,
        max_speech_tokens: usize,
    },
}

/// What the worker is asked for, as a mathematical value.
pub enum MlxRequestView {
    Warmup {
        text: Seq<char>,
        reference_audio_path: Option<Seq<char>>,
        cfg_scale: Real64,
        max_speech_tokens: nat,
    },
    Synthesize {
        text: Seq<char>,
        reference_audio_path: Option<Seq<char>>,
        output_path: Seq<char>,
        cfg_scale: Real64,
        max_speech_tokens: nat,
    },
}

impl View for VibeVoiceMlxRequest {
    type V = MlxRequestView;

    open spec fn view(&self) -> MlxRequestView {
        match *self {
            VibeVoiceMlxRequest::Warmup {
                text: words,
                reference_audio_path,
                cfg_scale,
                max_speech_tokens,
            } => MlxRequestView::Warmup {
                text: words@,
                reference_audio_path: reference_audio_path.deep_view(),
                cfg_scale,
                max_speech_tokens: max_speech_tokens as nat,
            },
            VibeVoiceMlxRequest::Synthesize {
                text: words,
                reference_audio_path,
                output_path,
                cfg_scale,
                max_speech_tokens,
            } => MlxRequestView::Synthesize {
                text: words@,
                reference_audio_path: reference_audio_path.deep_view(),
                output_path: output_path@,
                cfg_scale,
                max_speech_tokens: max_speech_tokens as nat,
            },
        }
    }
}

/// What the worker answers.
#[derive(Debug)]
pub struct VibeVoiceMlxResponse {
    pub ok: bool,
    pub runtime_label: Option<String>,
    pub output_path: Option<String>,
    pub error: Option<String>,
}

/// The request that warms the worker up, together with a reference voice where one is
/// given.
pub fn warmup_request(reference_audio_path: Option<String>) -> (res: VibeVoiceMlxRequest)
    ensures
        res@ == (MlxRequestView::Warmup {
            text: WARMUP_TEXT@,
            reference_audio_path: reference_audio_path.deep_view(),
            cfg_scale: (Real64 { bits: synthesis::DEFAULT_CFG_SCALE }),
            max_speech_tokens: WARMUP_TOKENS as nat,
        }),
{
    VibeVoiceMlxRequest::Warmup {
        text: WARMUP_TEXT.to_owned(),
        reference_audio_path,
        cfg_scale: Real64 { bits: synthesis::DEFAULT_CFG_SCALE },
        max_speech_tokens: WARMUP_TOKENS,
    }
}

/// The directory that the worker puts audio in.
pub fn output_dir(asset_root: &str) -> (res: String)
    ensures
        res@ == text::joined_path(asset_root@, "mlx-output"@),
{
    text::join_path(asset_root, "mlx-output")
}

/// The file that the worker is to put audio in.
pub open spec fn output_file(asset_root: Seq<char>, timestamp: u128) -> Seq<char> {
    text::joined_path(
        text::joined_path(asset_root, "mlx-output"@),
        "vibevoice-mlx-"@ + text::decimal(timestamp as nat) + ".wav"@,
    )
}

/// What the worker is asked for to speak a text.
pub open spec fn speech_request(
    spoken: Seq<char>,
    overrides: OverridesView,
    reference_audio_path: Option<Seq<char>>,
    asset_root: Seq<char>,
    timestamp: u128,
) -> MlxRequestView {
    MlxRequestView::Synthesize {
        text: spoken,
        reference_audio_path,
        output_path: output_file(asset_root, timestamp),
        cfg_scale: synthesis::or_bits(overrides.cfg_scale, synthesis::DEFAULT_CFG_SCALE),
        max_speech_tokens: speech_text::effective_tokens(spoken, overrides.max_tokens),
    }
}

/// The request that has the worker speak a text, and the file it puts the audio in.
pub fn synthesize_with_vibevoice_mlx(
    spoken_text: &str,
    overrides: &SpeechOverrides,
    reference_audio_path: Option<String>,
    asset_root: &str,
    timestamp: u128,
) -> (res: (VibeVoiceMlxRequest, String))
    ensures
        res.0@ == speech_request(
            spoken_text@,
            overrides@,
            reference_audio_path.deep_view(),
            asset_root@,
            timestamp,
        ),
        res.1@ == output_file(asset_root@, timestamp),
{
    let dir = output_dir(asset_root);
    let stamp = text::decimal_text(timestamp);
    let name = text::concat3("vibevoice-mlx-", stamp.as_str(), ".wav");
    let output_path = text::join_path(dir.as_str(), name.as_str());
    let max_speech_tokens: usize = speech_text::vibevoice_effective_max_tokens(
        spoken_text,
        overrides.max_tokens,
    );
    let cfg_scale = match overrides.cfg_scale {
        Some(scale) => scale,
        None => Real64 { bits: synthesis::DEFAULT_CFG_SCALE },
    };
    let request = VibeVoiceMlxRequest::Synthesize {
        text: spoken_text.to_owned(),
        reference_audio_path,
        output_path: output_path.clone(),
        cfg_scale,
        max_speech_tokens,
    };
    (request, output_path)
}

/// What runs the model, as a response tells it.
pub open spec fn response_label(response: VibeVoiceMlxResponse) -> Seq<char> {
    match response.runtime_label {
        Some(label) => label@,
        None => MLX_RUNTIME_LABEL@,
    }
}

/// Takes note of what runs the model, as a response tells it.
pub fn note_runtime(service: &mut TtsService, response: &VibeVoiceMlxResponse) -> (res: String)
    ensures
        res@ == response_label(*response),
        final(service)@ == (TtsView {
            vibevoice_runtime_label: Some(response_label(*response)),
            ..old(service)@
        }),
        old(service).wf() ==> final(service).wf(),
{
    let label = match &response.runtime_label {
        Some(label) => label.clone(),
        None => MLX_RUNTIME_LABEL.to_owned(),
    };
    service.vibevoice_runtime_label = Some(label.clone());
    label
}

/// What came of warming the worker up.
pub fn warmed(label: String, duration_ms: u64) -> (res: WarmupInfo)
    ensures
        res@ == (WarmupView {
            voices: seq!["Speaker 0"@],
            runtime_label: label@,
            warmed_inference: true,
            warmup_duration_ms: duration_ms,
        }),
{
    let mut voices: Vec<String> = Vec::new();
    voices.push("Speaker 0".to_owned());
    assert(voices.deep_view() =~= seq!["Speaker 0"@]);
    WarmupInfo {
        voices,
        runtime_label: label,
        warmed_inference: true,
        warmup_duration_ms: duration_ms,
    }
}

/// The file that the worker has put the audio in: the one it names, or the one it was
/// to use.
pub fn returned_output_path(response: &VibeVoiceMlxResponse, asked: &str) -> (res: String)
    ensures
        res@ == match response.output_path {
            Some(path) => path@,
            None => asked@,
        },
{
    match &response.output_path {
        Some(path) => path.clone(),
        None => asked.to_owned(),
    }
}

// ---------------------------------------------------------------------------
// Talking to the worker
// ---------------------------------------------------------------------------

/// How far a request to the worker has got.
#[derive(Debug, Clone, Copy, PartialEq, Eq, Structural)]
pub enum ExchangeStage {
    /// The first reply is awaited.
    First,
    /// The reply of the worker that took the place of the first is awaited.
    Second,
    /// No further reply is awaited.
    Over,
}

/// What is to be done next with a request to the worker.
#[derive(Debug)]
pub enum ExchangeStep {
    /// Start a worker in place of the one that there was, and send the request.
    StartAndSend,
    /// Send the request to the worker that there is.
    Send,
    Done(VibeVoiceMlxResponse),
    Failed(String),
}

/// What is to be done next with a request to the worker, as a mathematical value.
pub enum ExchangeView {
    StartAndSend,
    Send,
    Done(VibeVoiceMlxResponse),
    Failed(Seq<char>),
}

impl View for ExchangeStep {
    type V = ExchangeView;

    open spec fn view(&self) -> ExchangeView {
        match *self {
            ExchangeStep::StartAndSend => ExchangeView::StartAndSend,
            ExchangeStep::Send => ExchangeView::Send,
            ExchangeStep::Done(response) => ExchangeView::Done(response),
            ExchangeStep::Failed(error) => ExchangeView::Failed(error@),
        }
    }
}

/// How a request to the worker begins: without the interpreter it cannot, and where no
/// worker runs one is started.
pub open spec fn exchange_begun(python_found: bool, worker_running: bool) -> (
    ExchangeStage,
    ExchangeView,
) {
    if !python_found {
        (
            ExchangeStage::Over,
            ExchangeView::Failed(
                "VibeVoice MLX is unavailable because the Python runtime was not found."@,
            ),
        )
    } else if worker_running {
        (ExchangeStage::First, ExchangeView::Send)
    } else {
        (ExchangeStage::First, ExchangeView::StartAndSend)
    }
}

/// How the worker's refusal is told.
pub open spec fn refusal(response: VibeVoiceMlxResponse) -> Seq<char> {
    "VibeVoice MLX worker error: "@ + match response.error {
        Some(error) => error@,
        None => "unknown worker error"@,
    }
}

/// How a request to the worker goes on: a worker that does not answer is replaced once,
/// and any answer ends it.
pub open spec fn exchange_next(
    stage: ExchangeStage,
    reply: Result<VibeVoiceMlxResponse, String>,
) -> (ExchangeStage, ExchangeView) {
    match reply {
        Err(error) => if stage == ExchangeStage::First {
            (ExchangeStage::Second, ExchangeView::StartAndSend)
        } else {
            (ExchangeStage::Over, ExchangeView::Failed(error@))
        },
        Ok(response) => if response.ok {
            (ExchangeStage::Over, ExchangeView::Done(response))
        } else {
            (ExchangeStage::Over, ExchangeView::Failed(refusal(response)))
        },
    }
}

/// A request on its way to the worker.
#[derive(Debug)]
pub struct MlxExchange {
    pub stage: ExchangeStage,
}

impl MlxExchange {
    /// Begins a request to the worker.
    pub fn begin(python_found: bool, worker_running: bool) -> (res: (MlxExchange, ExchangeStep))
        ensures
            (res.0.stage, res.1@) == exchange_begun(python_found, worker_running),
    {
        if !python_found {
            let error = "VibeVoice MLX is unavailable because the Python runtime was not found.";
            return (
                MlxExchange { stage: ExchangeStage::Over },
                ExchangeStep::Failed(error.to_owned()),
            );
        }
        let step = if worker_running {
            ExchangeStep::Send
        } else {
            ExchangeStep::StartAndSend
        };
        (MlxExchange { stage: ExchangeStage::First }, step)
    }

    /// Goes on with what came back of the request that was sent.
    pub fn send_vibevoice_mlx_request(
        &mut self,
        reply: Result<VibeVoiceMlxResponse, String>,
    ) -> (res: ExchangeStep)
        requires
            old(self).stage != ExchangeStage::Over,
        ensures
            (final(self).stage, res@) == exchange_next(old(self).stage, reply),
    {
        match reply {
            Err(error) => {
                if self.stage == ExchangeStage::First {
                    self.stage = ExchangeStage::Second;
                    ExchangeStep::StartAndSend
                } else {
                    self.stage = ExchangeStage::Over;
                    ExchangeStep::Failed(error)
                }
            },
            Ok(response) => {
                self.stage = ExchangeStage::Over;
                if response.ok {
                    return ExchangeStep::Done(response);
                }
                let message = match &response.error {
                    Some(error) => text::concat2("VibeVoice MLX worker error: ", error.as_str()),
                    None => text::concat2("VibeVoice MLX worker error: ", "unknown worker error"),
                };
                ExchangeStep::Failed(message)
            },
        }
    }
}

/// The line that the worker answered with, or why there is none. `exit_status` is how
/// the process has ended, in words.
pub fn reply_line(bytes_read: usize, line: &str, exit_status: &str) -> (res: Result<
    String,
    String,
>)
    ensures
        if bytes_read == 0 {
            res matches Err(error) && error@
                == "VibeVoice MLX worker exited before replying: "@ + exit_status@
        } else {
            res matches Ok(reply) && reply@ == text::trim_end(line@)
        },
{
    if bytes_read == 0 {
        return Err(
            text::concat2("VibeVoice MLX worker exited before replying: ", exit_status),
        );
    }
    Ok(text::trim_tail(line))
}

/// What the worker process is started with, behind the interpreter.
pub fn worker_arguments(script_path: &str) -> (res: Vec<String>)
    ensures
        res.deep_view() == seq!["-u"@, script_path@, "--model"@, MLX_MODEL_ID@],
{
    let mut arguments: Vec<String> = Vec::new();
    arguments.push("-u".to_owned());
    arguments.push(script_path.to_owned());
    arguments.push("--model".to_owned());
    arguments.push(MLX_MODEL_ID.to_owned());
    assert(arguments.deep_view() =~= seq!["-u"@, script_path@, "--model"@, MLX_MODEL_ID@]);
    arguments
}

/// Where the worker's script is kept.
pub fn worker_script_path(asset_root: &str) -> (res: Result<String, String>)
    ensures
        match paths::parent(asset_root@) {
            Some(data_dir) => res matches Ok(path) && path@ == text::joined_path(
                data_dir,
                "vibevoice-mlx-worker.py"@,
            ),
            None => res matches Err(error) && error@
                == "determine DevVoice data directory for MLX worker"@,
        },
{
    match paths::path_parent(asset_root) {
        Some(data_dir) => Ok(text::join_path(data_dir.as_str(), "vibevoice-mlx-worker.py")),
        None => Err("determine DevVoice data directory for MLX worker".to_owned()),
    }
}

/// Whether the worker's script has to be written: it is not there, or it is another.
pub fn script_needs_write(existing: Option<&str>, script: &str) -> (res: bool)
    ensures
        res == match existing {
            Some(found) => found@ != script@,
            None => true,
        },
{
    match existing {
        Some(found) => !text::same_text(found, script),
        None => true,
    }
}

// ---------------------------------------------------------------------------
// Setting the runtime up
// ---------------------------------------------------------------------------

/// A command to run, and what it is for.
#[derive(Debug)]
pub struct SetupCommand {
    pub program: String,
    pub arguments: Vec<String>,
    pub description: String,
}

/// A command as a mathematical value.
#[verifier::ext_equal]
pub struct CommandView {
    pub program: Seq<char>,
    pub arguments: Seq<Seq<char>>,
    pub description: Seq<char>,
}

impl View for SetupCommand {
    type V = CommandView;

    open spec fn view(&self) -> CommandView {
        CommandView {
            program: self.program@,
            arguments: self.arguments.deep_view(),
            description: self.description@,
        }
    }
}

/// What the setup is about.
#[derive(Debug, Clone, Copy, PartialEq, Eq, Structural)]
pub enum SetupStage {
    /// Whether what is there will do.
    Probing,
    CreatingVenv,
    UpgradingPip,
    Installing,
    Validating,
    Over,
}

/// What the setup asks for.
#[derive(Debug)]
pub enum SetupStep {
    Run(SetupCommand),
    /// The interpreter is ready, here.
    Ready(String),
    Failed(String),
}

/// What the setup asks for, as a mathematical value.
pub enum SetupStepView {
    Run(CommandView),
    Ready(Seq<char>),
    Failed(Seq<char>),
}

impl View for SetupStep {
    type V = SetupStepView;

    open spec fn view(&self) -> SetupStepView {
        match *self {
            SetupStep::Run(command) => SetupStepView::Run(command@),
            SetupStep::Ready(path) => SetupStepView::Ready(path@),
            SetupStep::Failed(error) => SetupStepView::Failed(error@),
        }
    }
}

/// Where the runtime is set up.
pub open spec fn venv_dir(data_dir: Seq<char>) -> Seq<char> {
    text::joined_path(data_dir, "vibevoice-mlx-venv"@)
}

/// Where its interpreter is.
pub open spec fn venv_python(data_dir: Seq<char>) -> Seq<char> {
    text::joined_path(venv_dir(data_dir), "bin/python"@)
}

/// The command of a stage.
pub open spec fn setup_command(data_dir: Seq<char>, stage: SetupStage) -> CommandView {
    match stage {
        SetupStage::CreatingVenv => CommandView {
            program: "python3"@,
            arguments: seq!["-m"@, "venv"@, venv_dir(data_dir)],
            description: "create the VibeVoice MLX virtual environment"@,
        },
        SetupStage::UpgradingPip => CommandView {
            program: venv_python(data_dir),
            arguments: seq!["-m"@, "pip"@, "install"@, "--upgrade"@, "pip"@],
            description: "upgrade pip for the VibeVoice MLX runtime"@,
        },
        SetupStage::Installing => CommandView {
            program: venv_python(data_dir),
            arguments: seq!["-m"@, "pip"@, "install"@, MLX_INSTALL_SPEC@, "scipy"@],
            description: "install the VibeVoice MLX runtime dependencies"@,
        },
        SetupStage::Probing | SetupStage::Validating | SetupStage::Over => CommandView {
            program: venv_python(data_dir),
            arguments: seq!["-c"@, "import vibevoice_mlx, scipy"@],
            description: "validate the VibeVoice MLX runtime"@,
        },
    }
}

/// The stage that follows one that went well.
pub open spec fn next_stage(stage: SetupStage) -> SetupStage {
    match stage {
        SetupStage::CreatingVenv => SetupStage::UpgradingPip,
        SetupStage::UpgradingPip => SetupStage::Installing,
        SetupStage::Installing => SetupStage::Validating,
        SetupStage::Probing | SetupStage::Validating | SetupStage::Over => SetupStage::Over,
    }
}

/// How the setup goes on: what is there and does is kept, anything else is set up from
/// the beginning, and any other failure ends it.
pub open spec fn setup_next(
    data_dir: Seq<char>,
    stage: SetupStage,
    outcome: Result<(), String>,
) -> (SetupStage, SetupStepView) {
    match outcome {
        Ok(_) => {
            let next = next_stage(stage);
            if next == SetupStage::Over {
                (next, SetupStepView::Ready(venv_python(data_dir)))
            } else {
                (next, SetupStepView::Run(setup_command(data_dir, next)))
            }
        },
        Err(error) => if stage == SetupStage::Probing {
            (
                SetupStage::CreatingVenv,
                SetupStepView::Run(setup_command(data_dir, SetupStage::CreatingVenv)),
            )
        } else {
            (SetupStage::Over, SetupStepView::Failed(error@))
        },
    }
}

/// The setup of the runtime.
#[derive(Debug)]
pub struct SetupJob {
    pub data_dir: String,
    pub stage: SetupStage,
}

fn texts2(a: &str, b: &str) -> (res: Vec<String>)
    ensures
        res.deep_view() == seq![a@, b@],
{
    let mut list: Vec<String> = Vec::new();
    list.push(a.to_owned());
    list.push(b.to_owned());
    assert(list.deep_view() =~= seq![a@, b@]);
    list
}

fn texts3(a: &str, b: &str, c: &str) -> (res: Vec<String>)
    ensures
        res.deep_view() == seq![a@, b@, c@],
{
    let mut list: Vec<String> = Vec::new();
    list.push(a.to_owned());
    list.push(b.to_owned());
    list.push(c.to_owned());
    assert(list.deep_view() =~= seq![a@, b@, c@]);
    list
}

fn texts5(a: &str, b: &str, c: &str, d: &str, e: &str) -> (res: Vec<String>)
    ensures
        res.deep_view() == seq![a@, b@, c@, d@, e@],
{
    let mut list: Vec<String> = Vec::new();
    list.push(a.to_owned());
    list.push(b.to_owned());
    list.push(c.to_owned());
    list.push(d.to_owned());
    list.push(e.to_owned());
    assert(list.deep_view() =~= seq![a@, b@, c@, d@, e@]);
    list
}

impl SetupJob {
    fn python(&self) -> (res: String)
        ensures
            res@ == venv_python(self.data_dir@),
    {
        let venv = text::join_path(self.data_dir.as_str(), "vibevoice-mlx-venv");
        text::join_path(venv.as_str(), "bin/python")
    }

    fn command(&self, stage: SetupStage) -> (res: SetupCommand)
        ensures
            res@ == setup_command(self.data_dir@, stage),
    {
        match stage {
            SetupStage::CreatingVenv => {
                let venv = text::join_path(self.data_dir.as_str(), "vibevoice-mlx-venv");
                SetupCommand {
                    program: "python3".to_owned(),
                    arguments: texts3("-m", "venv", venv.as_str()),
                    description: "create the VibeVoice MLX virtual environment".to_owned(),
                }
            },
            SetupStage::UpgradingPip => SetupCommand {
                program: self.python(),
                arguments: texts5("-m", "pip", "install", "--upgrade", "pip"),
                description: "upgrade pip for the VibeVoice MLX runtime".to_owned(),
            },
            SetupStage::Installing => SetupCommand {
                program: self.python(),
                arguments: texts5("-m", "pip", "install", MLX_INSTALL_SPEC, "scipy"),
                description: "install the VibeVoice MLX runtime dependencies".to_owned(),
            },
            SetupStage::Probing | SetupStage::Validating | SetupStage::Over => SetupCommand {
                program: self.python(),
                arguments: texts2("-c", "import vibevoice_mlx, scipy"),
                description: "validate the VibeVoice MLX runtime".to_owned(),
            },
        }
    }

    /// Begins to set the runtime up. `python_is_file` says whether there is a file
    /// where its interpreter should be.
    pub fn provision_vibevoice_mlx_runtime(data_dir: &str, python_is_file: bool) -> (res: (
        SetupJob,
        SetupStep,
    ))
        ensures
            res.0.data_dir@ == data_dir@,
            res.0.stage == if python_is_file {
                SetupStage::Probing
            } else {
                SetupStage::CreatingVenv
            },
            res.1@ == SetupStepView::Run(setup_command(data_dir@, res.0.stage)),
    {
        let stage = if python_is_file {
            SetupStage::Probing
        } else {
            SetupStage::CreatingVenv
        };
        let job = SetupJob { data_dir: data_dir.to_owned(), stage };
        let command = job.command(stage);
        (job, SetupStep::Run(command))
    }

    /// Goes on with the outcome of the last command.
    pub fn advance(&mut self, outcome: Result<(), String>) -> (res: SetupStep)
        requires
            old(self).stage != SetupStage::Over,
        ensures
            final(self).data_dir == old(self).data_dir,
            (final(self).stage, res@) == setup_next(old(self).data_dir@, old(self).stage, outcome),
    {
        match outcome {
            Ok(_) => {
                self.stage = match self.stage {
                    SetupStage::CreatingVenv => SetupStage::UpgradingPip,
                    SetupStage::UpgradingPip => SetupStage::Installing,
                    SetupStage::Installing => SetupStage::Validating,
                    SetupStage::Probing
                    | SetupStage::Validating
                    | SetupStage::Over => SetupStage::Over,
                };
                if self.stage == SetupStage::Over {
                    SetupStep::Ready(self.python())
                } else {
                    SetupStep::Run(self.command(self.stage))
                }
            },
            Err(error) => {
                if self.stage == SetupStage::Probing {
                    self.stage = SetupStage::CreatingVenv;
                    SetupStep::Run(self.command(SetupStage::CreatingVenv))
                } else {
                    self.stage = SetupStage::Over;
                    SetupStep::Failed(error)
                }
            },
        }
    }
}

/// What a command that failed says of it: what it wrote as an error, else what it
/// wrote, else how it ended.
pub open spec fn failure_detail(
    stderr: Seq<char>,
    stdout: Seq<char>,
    exit_status: Seq<char>,
) -> Seq<char> {
    if !text::is_blank(stderr) {
        text::trimmed(stderr)
    } else if !text::is_blank(stdout) {
        text::trimmed(stdout)
    } else {
        "process exited with status "@ + exit_status
    }
}

/// What came of a command that was run.
pub fn command_outcome(
    description: &str,
    success: bool,
    stderr: &Vec<u8>,
    stdout: &Vec<u8>,
    exit_status: &str,
) -> (res: Result<(), String>)
    ensures
        if success {
            res is Ok
        } else {
            res matches Err(error) && error@ == "Failed to "@ + description@ + ": "@
                + failure_detail(
                text::utf8_lossy(stderr@),
                text::utf8_lossy(stdout@),
                exit_status@,
            )
        },
{
    if success {
        return Ok(());
    }
    let stderr_text = text::lossy_text(stderr);
    let stdout_text = text::lossy_text(stdout);
    Err(failure_message(description, stderr_text.as_str(), stdout_text.as_str(), exit_status))
}

/// How a command that failed is reported.
pub fn failure_message(description: &str, stderr: &str, stdout: &str, exit_status: &str) -> (res:
    String)
    ensures
        res@ == "Failed to "@ + description@ + ": "@ + failure_detail(
            stderr@,
            stdout@,
            exit_status@,
        ),
{
    let stderr = text::trim(stderr);
    let stdout = text::trim(stdout);
    let detail = if !stderr.as_str().is_empty() {
        stderr
    } else if !stdout.as_str().is_empty() {
        stdout
    } else {
        text::concat2("process exited with status ", exit_status)
    };
    let message = text::concat3("Failed to ", description, ": ");
    text::concat2(message.as_str(), detail.as_str())
}

/// How a command that could not be started is reported.
pub fn start_context(description: &str) -> (res: String)
    ensures
        res@ == "start command to "@ + description@,
{
    text::concat2("start command to ", description)
}

// ---------------------------------------------------------------------------
// Laws
// ---------------------------------------------------------------------------

/// The interpreter is set up where the service looks for it.
pub proof fn law_setup_puts_the_interpreter_where_it_is_sought(asset_root: Seq<char>)
    ensures
        paths::parent(asset_root) matches Some(data_dir) ==> tts::python_location(asset_root)
            == Some(venv_python(data_dir)),
{
    if let Some(data_dir) = paths::parent(asset_root) {
        reveal_strlit("vibevoice-mlx-venv/bin/python");
        reveal_strlit("vibevoice-mlx-venv");
        reveal_strlit("bin/python");
        let venv = venv_dir(data_dir);
        assert(tts::MLX_PYTHON@ =~= "vibevoice-mlx-venv"@.push('/') + "bin/python"@);
        assert(venv.last() == 'v');
        assert(venv_python(data_dir) == venv.push('/') + "bin/python"@);
        assert(text::joined_path(data_dir, tts::MLX_PYTHON@) =~= venv_python(data_dir));
    }
}

/// A worker that is silent is replaced once: a second silence ends the exchange with its
/// error, and so does any answer.
pub proof fn law_silent_worker_is_replaced_once(
    python_found: bool,
    worker_running: bool,
    first: String,
    second: Result<VibeVoiceMlxResponse, String>,
)
    requires
        python_found,
    ensures
        ({
            let begun = exchange_begun(python_found, worker_running);
            let replaced = exchange_next(begun.0, Err(first));
            let end = exchange_next(replaced.0, second);
            &&& replaced == (ExchangeStage::Second, ExchangeView::StartAndSend)
            &&& end.0 == ExchangeStage::Over
            &&& second matches Err(error) ==> end.1 == ExchangeView::Failed(error@)
            &&& second matches Ok(response) ==> end.1 == if response.ok {
                ExchangeView::Done(response)
            } else {
                ExchangeView::Failed(refusal(response))
            }
        }),
{
}

/// An exchange is over exactly when it says so.
pub proof fn law_exchange_is_over_when_it_says_so(
    stage: ExchangeStage,
    reply: Result<VibeVoiceMlxResponse, String>,
)
    ensures
        exchange_next(stage, reply).0 == ExchangeStage::Over <==> (exchange_next(
            stage,
            reply,
        ).1 is Done || exchange_next(stage, reply).1 is Failed),
{
}

/// A setup from scratch makes the environment, upgrades its installer, installs the
/// runtime and validates it, in this order, before it is ready.
pub proof fn law_setup_runs_every_stage(data_dir: Seq<char>, outcome: Result<(), String>)
    requires
        outcome is Ok,
    ensures
        setup_next(data_dir, SetupStage::CreatingVenv, outcome).0 == SetupStage::UpgradingPip,
        setup_next(data_dir, SetupStage::UpgradingPip, outcome).0 == SetupStage::Installing,
        setup_next(data_dir, SetupStage::Installing, outcome).0 == SetupStage::Validating,
        setup_next(data_dir, SetupStage::Validating, outcome) == (
            SetupStage::Over,
            SetupStepView::Ready(venv_python(data_dir)),
        ),
{
}

/// A setup is ready only once the runtime was found to be valid.
pub proof fn law_ready_means_validated(
    data_dir: Seq<char>,
    stage: SetupStage,
    outcome: Result<(), String>,
)
    requires
        stage != SetupStage::Over,
        setup_next(data_dir, stage, outcome).1 is Ready,
    ensures
        outcome is Ok,
        stage == SetupStage::Probing || stage == SetupStage::Validating,
{
}

} // verus!
