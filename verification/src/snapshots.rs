//! How the files of a model are fetched: which are needed, which are not, and what
//! takes the place of one that cannot be had.
//!
//! A job decides; whoever runs it looks for files, fetches them, and says what came
//! of it.

use vstd::prelude::*;
use vstd::string::*;

use crate::config::VoiceModel;
use crate::models;
use crate::text;

verus! {

pub const VOICE_PRESET_BASE_URL: &'static str =
    "https://raw.githubusercontent.com/microsoft/VibeVoice/main/demo/voices/streaming_model";

/// When a file is to be fetched.
#[derive(Debug, Clone, Copy)]
pub enum When {
    Always,
    /// Where this file is missing.
    Missing(&'static str),
    /// Where the fetch before this one was tried and failed.
    Failed,
}

/// What is to be fetched.
#[derive(Debug, Clone, Copy)]
pub enum Target {
    File(&'static str),
    /// All files that match a pattern.
    Matching(&'static str),
}

/// One fetch.
#[derive(Debug, Clone, Copy)]
pub struct Fetch {
    pub when: When,
    pub owner: &'static str,
    pub repo: &'static str,
    pub target: Target,
    /// How a failure is told, where it ends the job.
    pub needed: Option<&'static str>,
}

/// When a file is to be fetched, as a mathematical value.
pub enum WhenView {
    Always,
    Missing(Seq<char>),
    Failed,
}

/// What is to be fetched, as a mathematical value.
pub enum TargetView {
    File(Seq<char>),
    Matching(Seq<char>),
}

/// One fetch as a mathematical value.
#[verifier::ext_equal]
pub struct FetchView {
    pub when: WhenView,
    pub owner: Seq<char>,
    pub repo: Seq<char>,
    pub target: TargetView,
    pub needed: Option<Seq<char>>,
}

impl View for Target {
    type V = TargetView;

    open spec fn view(&self) -> TargetView {
        match *self {
            Target::File(name) => TargetView::File(name@),
            Target::Matching(pattern) => TargetView::Matching(pattern@),
        }
    }
}

impl View for Fetch {
    type V = FetchView;

    open spec fn view(&self) -> FetchView {
        FetchView {
            when: match self.when {
                When::Always => WhenView::Always,
                When::Missing(name) => WhenView::Missing(name@),
                When::Failed => WhenView::Failed,
            },
            owner: self.owner@,
            repo: self.repo@,
            target: self.target@,
            needed: match self.needed {
                Some(context) => Some(context@),
                None => None,
            },
        }
    }
}

impl DeepView for Fetch {
    type V = FetchView;

    open spec fn deep_view(&self) -> FetchView {
        self@
    }
}

/// A fetch of a file that is needed.
pub open spec fn needed_file(
    when: WhenView,
    owner: Seq<char>,
    repo: Seq<char>,
    name: Seq<char>,
    context: Seq<char>,
) -> FetchView {
    FetchView { when, owner, repo, target: TargetView::File(name), needed: Some(context) }
}

/// A fetch of something that can be done without.
pub open spec fn optional(
    when: WhenView,
    owner: Seq<char>,
    repo: Seq<char>,
    target: TargetView,
) -> FetchView {
    FetchView { when, owner, repo, target, needed: None }
}

/// What is fetched for a model, in order.
pub open spec fn fetches(model: VoiceModel) -> Seq<FetchView> {
    match model {
        VoiceModel::VibeVoiceRealtime => seq![
            needed_file(
                WhenView::Always,
                "microsoft"@,
                "VibeVoice-Realtime-0.5B"@,
                "config.json"@,
                "download VibeVoice Realtime config.json"@,
            ),
            needed_file(
                WhenView::Always,
                "microsoft"@,
                "VibeVoice-Realtime-0.5B"@,
                "model.safetensors"@,
                "download VibeVoice Realtime model.safetensors"@,
            ),
            optional(
                WhenView::Always,
                "microsoft"@,
                "VibeVoice-Realtime-0.5B"@,
                TargetView::File("preprocessor_config.json"@),
            ),
            optional(
                WhenView::Always,
                "microsoft"@,
                "VibeVoice-Realtime-0.5B"@,
                TargetView::Matching("voices/*.pt"@),
            ),
            needed_file(
                WhenView::Missing("tokenizer.json"@),
                "Qwen"@,
                "Qwen2.5-0.5B"@,
                "tokenizer.json"@,
                "download fallback tokenizer.json"@,
            ),
        ],
        VoiceModel::VibeVoice => seq![
            needed_file(
                WhenView::Always,
                "microsoft"@,
                "VibeVoice-1.5B"@,
                "config.json"@,
                "download VibeVoice 1.5B config.json"@,
            ),
            optional(
                WhenView::Always,
                "microsoft"@,
                "VibeVoice-1.5B"@,
                TargetView::File("model.safetensors"@),
            ),
            optional(
                WhenView::Failed,
                "microsoft"@,
                "VibeVoice-1.5B"@,
                TargetView::Matching("model-*.safetensors"@),
            ),
            optional(
                WhenView::Always,
                "microsoft"@,
                "VibeVoice-1.5B"@,
                TargetView::File("preprocessor_config.json"@),
            ),
            optional(
                WhenView::Missing("tokenizer.json"@),
                "microsoft"@,
                "VibeVoice-1.5B"@,
                TargetView::File("tokenizer.json"@),
            ),
            needed_file(
                WhenView::Failed,
                "Qwen"@,
                "Qwen2.5-0.5B"@,
                "tokenizer.json"@,
                "download fallback tokenizer.json for VibeVoice 1.5B"@,
            ),
        ],
        VoiceModel::Kokoro => seq![
            needed_file(
                WhenView::Always,
                "hexgrad"@,
                "Kokoro-82M"@,
                "config.json"@,
                "download Kokoro config.json"@,
            ),
            optional(
                WhenView::Always,
                "hexgrad"@,
                "Kokoro-82M"@,
                TargetView::File("model.safetensors"@),
            ),
            optional(
                WhenView::Failed,
                "hexgrad"@,
                "Kokoro-82M"@,
                TargetView::Matching("*.pth"@),
            ),
            optional(
                WhenView::Always,
                "hexgrad"@,
                "Kokoro-82M"@,
                TargetView::Matching("voices/*.pt"@),
            ),
        ],
        VoiceModel::ParlerTts => seq![
            needed_file(
                WhenView::Missing("config.json"@),
                "parler-tts"@,
                "parler-tts-mini-v1"@,
                "config.json"@,
                "download Parler-TTS asset config.json"@,
            ),
            needed_file(
                WhenView::Missing("tokenizer.json"@),
                "parler-tts"@,
                "parler-tts-mini-v1"@,
                "tokenizer.json"@,
                "download Parler-TTS asset tokenizer.json"@,
            ),
            needed_file(
                WhenView::Missing("model.safetensors"@),
                "parler-tts"@,
                "parler-tts-mini-v1"@,
                "model.safetensors"@,
                "download Parler-TTS asset model.safetensors"@,
            ),
        ],
    }
}

/// The voice presets that are fetched for a model.
pub open spec fn voice_files(model: VoiceModel) -> Seq<Seq<char>> {
    if model == VoiceModel::VibeVoiceRealtime {
        seq![
            "en-Emma_woman.pt"@,
            "en-Grace_woman.pt"@,
            "en-Davis_man.pt"@,
            "en-Frank_man.pt"@,
            "en-Mike_man.pt"@,
            "en-Carter_man.pt"@,
            "in-Samuel_man.pt"@,
        ]
    } else {
        Seq::empty()
    }
}

/// The files without which a model cannot be loaded.
pub open spec fn required_files(model: VoiceModel) -> Seq<Seq<char>> {
    match model {
        VoiceModel::VibeVoiceRealtime | VoiceModel::ParlerTts => seq![
            "config.json"@,
            "tokenizer.json"@,
            "model.safetensors"@,
        ],
        VoiceModel::VibeVoice => seq!["config.json"@, "tokenizer.json"@],
        VoiceModel::Kokoro => seq!["config.json"@],
    }
}

/// How far a job has got.
#[derive(Debug, Clone, Copy, PartialEq, Eq, Structural)]
pub enum Phase {
    /// At a fetch; `failed` says whether the one before was tried and failed.
    Fetching { at: usize, failed: bool },
    /// At a voice preset.
    Voices { at: usize },
    /// At the check for a file that is required.
    Assets { at: usize },
    Over,
}

/// What came of an action.
#[derive(Debug)]
pub enum SnapshotEvent {
    /// Whether the file is there.
    Exists(bool),
    /// What came of the fetch.
    Fetched(Result<(), String>),
}

/// What the job asks for.
#[derive(Debug)]
pub enum SnapshotAction {
    /// See whether there is a file.
    Check(String),
    /// Fetch something into a directory.
    Fetch { owner: String, repo: String, target: Target, local_dir: String },
    /// Fetch a voice preset.
    FetchVoice { url: String, destination: String },
    /// All is there, in this directory.
    Finished(String),
    /// The job cannot be done.
    Failed(String),
}

/// What the job asks for, as a mathematical value.
pub enum ActionView {
    Check(Seq<char>),
    Fetch { owner: Seq<char>, repo: Seq<char>, target: TargetView, local_dir: Seq<char> },
    FetchVoice { url: Seq<char>, destination: Seq<char> },
    Finished(Seq<char>),
    Failed(Seq<char>),
}

impl View for SnapshotAction {
    type V = ActionView;

    open spec fn view(&self) -> ActionView {
        match *self {
            SnapshotAction::Check(path) => ActionView::Check(path@),
            SnapshotAction::Fetch { owner, repo, target, local_dir } => ActionView::Fetch {
                owner: owner@,
                repo: repo@,
                target: target@,
                local_dir: local_dir@,
            },
            SnapshotAction::FetchVoice { url, destination } => ActionView::FetchVoice {
                url: url@,
                destination: destination@,
            },
            SnapshotAction::Finished(dir) => ActionView::Finished(dir@),
            SnapshotAction::Failed(error) => ActionView::Failed(error@),
        }
    }
}

/// Where the voice presets of a model are kept.
pub open spec fn voices_dir(local_dir: Seq<char>) -> Seq<char> {
    text::joined_path(local_dir, "voices"@)
}

/// What is asked for at a fetch.
pub open spec fn fetch_action(fetch: FetchView, local_dir: Seq<char>) -> ActionView {
    ActionView::Fetch { owner: fetch.owner, repo: fetch.repo, target: fetch.target, local_dir }
}

/// What is asked for from a phase on, and the phase in which that is.
pub open spec fn next_action(model: VoiceModel, local_dir: Seq<char>, phase: Phase) -> (
    Phase,
    ActionView,
)
    decreases
            match phase {
                Phase::Fetching { .. } => 2int,
                Phase::Voices { .. } => 1int,
                _ => 0int,
            },
            match phase {
                Phase::Fetching { at, .. } => fetches(model).len() - at,
                _ => 0,
            },
{
    match phase {
        Phase::Fetching { at, failed } => if at >= fetches(model).len() {
            next_action(model, local_dir, Phase::Voices { at: 0 })
        } else {
            let fetch = fetches(model)[at as int];
            match fetch.when {
                WhenView::Always => (phase, fetch_action(fetch, local_dir)),
                WhenView::Missing(name) => (
                    phase,
                    ActionView::Check(text::joined_path(local_dir, name)),
                ),
                WhenView::Failed => if failed {
                    (phase, fetch_action(fetch, local_dir))
                } else {
                    next_action(
                        model,
                        local_dir,
                        Phase::Fetching { at: (at + 1) as usize, failed: false },
                    )
                },
            }
        },
        Phase::Voices { at } => if at >= voice_files(model).len() {
            next_action(model, local_dir, Phase::Assets { at: 0 })
        } else {
            (
                phase,
                ActionView::Check(
                    text::joined_path(voices_dir(local_dir), voice_files(model)[at as int]),
                ),
            )
        },
        Phase::Assets { at } => if at >= required_files(model).len() {
            (Phase::Over, ActionView::Finished(local_dir))
        } else {
            (
                phase,
                ActionView::Check(text::joined_path(local_dir, required_files(model)[at as int])),
            )
        },
        Phase::Over => (Phase::Over, ActionView::Finished(local_dir)),
    }
}

/// Whether an outcome is one that the job waits for, and the job has got no further
/// than there is to do.
pub open spec fn is_awaited(model: VoiceModel, phase: Phase, event: SnapshotEvent) -> bool {
    match phase {
        Phase::Fetching { at, .. } => at < fetches(model).len() && (event is Fetched || fetches(
            model,
        )[at as int].when is Missing),
        Phase::Voices { at } => at < voice_files(model).len(),
        Phase::Assets { at } => at < required_files(model).len() && event is Exists,
        Phase::Over => false,
    }
}

/// How the job goes on with an outcome.
pub open spec fn next_step(
    model: VoiceModel,
    local_dir: Seq<char>,
    phase: Phase,
    event: SnapshotEvent,
) -> (Phase, ActionView) {
    match (phase, event) {
        (Phase::Fetching { at, .. }, SnapshotEvent::Exists(false)) => (
            phase,
            fetch_action(fetches(model)[at as int], local_dir),
        ),
        (Phase::Fetching { at, .. }, SnapshotEvent::Fetched(Err(_))) => match fetches(
            model,
        )[at as int].needed {
            Some(context) => (Phase::Over, ActionView::Failed(context)),
            None => next_action(
                model,
                local_dir,
                Phase::Fetching { at: (at + 1) as usize, failed: true },
            ),
        },
        (Phase::Fetching { at, .. }, _) => next_action(
            model,
            local_dir,
            Phase::Fetching { at: (at + 1) as usize, failed: false },
        ),
        (Phase::Voices { at }, SnapshotEvent::Exists(false)) => (
            phase,
            ActionView::FetchVoice {
                url: VOICE_PRESET_BASE_URL@ + "/"@ + voice_files(model)[at as int],
                destination: text::joined_path(
                    voices_dir(local_dir),
                    voice_files(model)[at as int],
                ),
            },
        ),
        (Phase::Voices { .. }, SnapshotEvent::Fetched(Err(error))) => (
            Phase::Over,
            ActionView::Failed(error@),
        ),
        (Phase::Voices { at }, _) => next_action(
            model,
            local_dir,
            Phase::Voices { at: (at + 1) as usize },
        ),
        (Phase::Assets { at }, SnapshotEvent::Exists(false)) => (
            Phase::Over,
            ActionView::Failed(
                "Missing required model asset: "@ + text::joined_path(
                    local_dir,
                    required_files(model)[at as int],
                ),
            ),
        ),
        (Phase::Assets { at }, _) => next_action(
            model,
            local_dir,
            Phase::Assets { at: (at + 1) as usize },
        ),
        (Phase::Over, _) => (Phase::Over, ActionView::Finished(local_dir)),
    }
}

/// The fetching of a model's files.
#[derive(Debug)]
pub struct SnapshotJob {
    pub model: VoiceModel,
    pub local_dir: String,
    pub plan: Vec<Fetch>,
    pub phase: Phase,
}

fn file(
    when: When,
    owner: &'static str,
    repo: &'static str,
    name: &'static str,
    context: &'static str,
) -> (res: Fetch)
    ensures
        res@ == (FetchView {
            when: res@.when,
            owner: owner@,
            repo: repo@,
            target: TargetView::File(name@),
            needed: Some(context@),
        }),
        res.when == when,
{
    Fetch { when, owner, repo, target: Target::File(name), needed: Some(context) }
}

fn extra(when: When, owner: &'static str, repo: &'static str, target: Target) -> (res: Fetch)
    ensures
        res@ == (FetchView {
            when: res@.when,
            owner: owner@,
            repo: repo@,
            target: target@,
            needed: None,
        }),
        res.when == when,
{
    Fetch { when, owner, repo, target, needed: None }
}

fn plan_for(model: VoiceModel) -> (res: Vec<Fetch>)
    ensures
        res.deep_view() == fetches(model),
{
    let mut plan: Vec<Fetch> = Vec::new();
    match model {
        VoiceModel::VibeVoiceRealtime => {
            let owner = "microsoft";
            let repo = "VibeVoice-Realtime-0.5B";
            plan.push(
                file(
                    When::Always,
                    owner,
                    repo,
                    "config.json",
                    "download VibeVoice Realtime config.json",
                ),
            );
            plan.push(
                file(
                    When::Always,
                    owner,
                    repo,
                    "model.safetensors",
                    "download VibeVoice Realtime model.safetensors",
                ),
            );
            plan.push(
                extra(When::Always, owner, repo, Target::File("preprocessor_config.json")),
            );
            plan.push(extra(When::Always, owner, repo, Target::Matching("voices/*.pt")));
            plan.push(
                file(
                    When::Missing("tokenizer.json"),
                    "Qwen",
                    "Qwen2.5-0.5B",
                    "tokenizer.json",
                    "download fallback tokenizer.json",
                ),
            );
        },
        VoiceModel::VibeVoice => {
            let owner = "microsoft";
            let repo = "VibeVoice-1.5B";
            plan.push(
                file(
                    When::Always,
                    owner,
                    repo,
                    "config.json",
                    "download VibeVoice 1.5B config.json",
                ),
            );
            plan.push(extra(When::Always, owner, repo, Target::File("model.safetensors")));
            plan.push(extra(When::Failed, owner, repo, Target::Matching("model-*.safetensors")));
            plan.push(
                extra(When::Always, owner, repo, Target::File("preprocessor_config.json")),
            );
            plan.push(
                extra(
                    When::Missing("tokenizer.json"),
                    owner,
                    repo,
                    Target::File("tokenizer.json"),
                ),
            );
            plan.push(
                file(
                    When::Failed,
                    "Qwen",
                    "Qwen2.5-0.5B",
                    "tokenizer.json",
                    "download fallback tokenizer.json for VibeVoice 1.5B",
                ),
            );
        },
        VoiceModel::Kokoro => {
            let owner = "hexgrad";
            let repo = "Kokoro-82M";
            plan.push(
                file(When::Always, owner, repo, "config.json", "download Kokoro config.json"),
            );
            plan.push(extra(When::Always, owner, repo, Target::File("model.safetensors")));
            plan.push(extra(When::Failed, owner, repo, Target::Matching("*.pth")));
            plan.push(extra(When::Always, owner, repo, Target::Matching("voices/*.pt")));
        },
        VoiceModel::ParlerTts => {
            let owner = "parler-tts";
            let repo = "parler-tts-mini-v1";
            plan.push(
                file(
                    When::Missing("config.json"),
                    owner,
                    repo,
                    "config.json",
                    "download Parler-TTS asset config.json",
                ),
            );
            plan.push(
                file(
                    When::Missing("tokenizer.json"),
                    owner,
                    repo,
                    "tokenizer.json",
                    "download Parler-TTS asset tokenizer.json",
                ),
            );
            plan.push(
                file(
                    When::Missing("model.safetensors"),
                    owner,
                    repo,
                    "model.safetensors",
                    "download Parler-TTS asset model.safetensors",
                ),
            );
        },
    }
    assert(plan.deep_view() =~= fetches(model));
    plan
}

/// The voice preset at a place in the list, if there is one.
fn voice_file(model: VoiceModel, at: usize) -> (res: Option<&'static str>)
    ensures
        match res {
            Some(name) => at < voice_files(model).len() && name@ == voice_files(model)[at as int],
            None => at >= voice_files(model).len(),
        },
{
    if model != VoiceModel::VibeVoiceRealtime {
        return None;
    }
    match at {
        0 => Some("en-Emma_woman.pt"),
        1 => Some("en-Grace_woman.pt"),
        2 => Some("en-Davis_man.pt"),
        3 => Some("en-Frank_man.pt"),
        4 => Some("en-Mike_man.pt"),
        5 => Some("en-Carter_man.pt"),
        6 => Some("in-Samuel_man.pt"),
        _ => None,
    }
}

/// The required file at a place in the list, if there is one.
fn required_file(model: VoiceModel, at: usize) -> (res: Option<&'static str>)
    ensures
        match res {
            Some(name) => at < required_files(model).len() && name@ == required_files(
                model,
            )[at as int],
            None => at >= required_files(model).len(),
        },
{
    match model {
        VoiceModel::VibeVoiceRealtime | VoiceModel::ParlerTts => match at {
            0 => Some("config.json"),
            1 => Some("tokenizer.json"),
            2 => Some("model.safetensors"),
            _ => None,
        },
        VoiceModel::VibeVoice => match at {
            0 => Some("config.json"),
            1 => Some("tokenizer.json"),
            _ => None,
        },
        VoiceModel::Kokoro => match at {
            0 => Some("config.json"),
            _ => None,
        },
    }
}

/// The directory that downloads are cached in.
pub fn cache_root(asset_root: &str) -> (res: String)
    ensures
        res@ == text::joined_path(asset_root@, "hf-cache"@),
{
    text::join_path(asset_root, "hf-cache")
}

/// The directory that the voice presets of a model are kept in.
pub fn voice_preset_dir(local_dir: &str) -> (res: String)
    ensures
        res@ == voices_dir(local_dir@),
{
    text::join_path(local_dir, "voices")
}

impl SnapshotJob {
    /// Whether the job follows the plan of its model.
    pub open spec fn wf(&self) -> bool {
        self.plan.deep_view() == fetches(self.model)
    }

    /// Begins to fetch the files of a model.
    pub fn prepare_snapshot(model: VoiceModel, asset_root: &str) -> (res: (
        SnapshotJob,
        SnapshotAction,
    ))
        ensures
            res.0.wf(),
            res.0.model == model,
            res.0.local_dir@ == text::joined_path(asset_root@, models::model_folder(model)),
            (res.0.phase, res.1@) == next_action(
                model,
                res.0.local_dir@,
                Phase::Fetching { at: 0, failed: false },
            ),
    {
        let mut job = SnapshotJob {
            model,
            local_dir: models::model_dir(asset_root, model),
            plan: plan_for(model),
            phase: Phase::Fetching { at: 0, failed: false },
        };
        let action = job.go_on(Phase::Fetching { at: 0, failed: false });
        (job, action)
    }

    fn fetch(&self, at: usize) -> (res: SnapshotAction)
        requires
            self.wf(),
            at < fetches(self.model).len(),
        ensures
            res@ == fetch_action(fetches(self.model)[at as int], self.local_dir@),
    {
        assert(fetches(self.model)[at as int] == self.plan@[at as int]@);
        let fetch = &self.plan[at];
        SnapshotAction::Fetch {
            owner: fetch.owner.to_owned(),
            repo: fetch.repo.to_owned(),
            target: fetch.target,
            local_dir: self.local_dir.clone(),
        }
    }

    fn check_assets(&mut self, at: usize) -> (res: SnapshotAction)
        requires
            old(self).wf(),
        ensures
            final(self).wf(),
            final(self).model == old(self).model,
            final(self).local_dir == old(self).local_dir,
            (final(self).phase, res@) == next_action(
                old(self).model,
                old(self).local_dir@,
                Phase::Assets { at },
            ),
    {
        match required_file(self.model, at) {
            Some(name) => {
                self.phase = Phase::Assets { at };
                SnapshotAction::Check(text::join_path(self.local_dir.as_str(), name))
            },
            None => {
                self.phase = Phase::Over;
                SnapshotAction::Finished(self.local_dir.clone())
            },
        }
    }

    fn check_voices(&mut self, at: usize) -> (res: SnapshotAction)
        requires
            old(self).wf(),
        ensures
            final(self).wf(),
            final(self).model == old(self).model,
            final(self).local_dir == old(self).local_dir,
            (final(self).phase, res@) == next_action(
                old(self).model,
                old(self).local_dir@,
                Phase::Voices { at },
            ),
    {
        match voice_file(self.model, at) {
            Some(name) => {
                self.phase = Phase::Voices { at };
                let dir = voice_preset_dir(self.local_dir.as_str());
                SnapshotAction::Check(text::join_path(dir.as_str(), name))
            },
            None => self.check_assets(0),
        }
    }

    fn go_on(&mut self, phase: Phase) -> (res: SnapshotAction)
        requires
            old(self).wf(),
        ensures
            final(self).wf(),
            final(self).model == old(self).model,
            final(self).local_dir == old(self).local_dir,
            (final(self).phase, res@) == next_action(
                old(self).model,
                old(self).local_dir@,
                phase,
            ),
    {
        match phase {
            Phase::Fetching { at, failed } => {
                let mut at: usize = at;
                let mut failed: bool = failed;
                while at < self.plan.len()
                    invariant
                        self.wf(),
                        self.model == old(self).model,
                        self.local_dir == old(self).local_dir,
                        next_action(old(self).model, old(self).local_dir@, phase) == next_action(
                            self.model,
                            self.local_dir@,
                            Phase::Fetching { at, failed },
                        ),
                    decreases self.plan@.len() - at,
                {
                    assert(fetches(self.model)[at as int] == self.plan@[at as int]@);
                    match self.plan[at].when {
                        When::Always => {
                            self.phase = Phase::Fetching { at, failed };
                            return self.fetch(at);
                        },
                        When::Missing(name) => {
                            self.phase = Phase::Fetching { at, failed };
                            return SnapshotAction::Check(
                                text::join_path(self.local_dir.as_str(), name),
                            );
                        },
                        When::Failed => {
                            if failed {
                                self.phase = Phase::Fetching { at, failed };
                                return self.fetch(at);
                            }
                        },
                    }
                    at = at + 1;
                    failed = false;
                }
                self.check_voices(0)
            },
            Phase::Voices { at } => self.check_voices(at),
            Phase::Assets { at } => self.check_assets(at),
            Phase::Over => {
                self.phase = Phase::Over;
                SnapshotAction::Finished(self.local_dir.clone())
            },
        }
    }

    /// Goes on with what came of the last action.
    pub fn advance(&mut self, event: SnapshotEvent) -> (res: SnapshotAction)
        requires
            old(self).wf(),
            is_awaited(old(self).model, old(self).phase, event),
        ensures
            final(self).wf(),
            final(self).model == old(self).model,
            final(self).local_dir == old(self).local_dir,
            (final(self).phase, res@) == next_step(
                old(self).model,
                old(self).local_dir@,
                old(self).phase,
                event,
            ),
    {
        match self.phase {
            Phase::Fetching { at, .. } => {
                assert(fetches(self.model)[at as int] == self.plan@[at as int]@);
                match event {
                    SnapshotEvent::Exists(false) => self.fetch(at),
                    SnapshotEvent::Fetched(Err(_)) => match self.plan[at].needed {
                        Some(context) => {
                            self.phase = Phase::Over;
                            SnapshotAction::Failed(context.to_owned())
                        },
                        None => {
                            assert(at < self.plan.len());
                            self.go_on(Phase::Fetching { at: at + 1, failed: true })
                        },
                    },
                    _ => {
                        assert(at < self.plan.len());
                        self.go_on(Phase::Fetching { at: at + 1, failed: false })
                    },
                }
            },
            Phase::Voices { at } => match event {
                SnapshotEvent::Exists(false) => {
                    let name = match voice_file(self.model, at) {
                        Some(name) => name,
                        None => "",
                    };
                    let dir = voice_preset_dir(self.local_dir.as_str());
                    SnapshotAction::FetchVoice {
                        url: text::concat3(VOICE_PRESET_BASE_URL, "/", name),
                        destination: text::join_path(dir.as_str(), name),
                    }
                },
                SnapshotEvent::Fetched(Err(error)) => {
                    self.phase = Phase::Over;
                    SnapshotAction::Failed(error)
                },
                _ => {
                    assert(voice_files(self.model).len() <= 7);
                    self.go_on(Phase::Voices { at: at + 1 })
                },
            },
            Phase::Assets { at } => match event {
                SnapshotEvent::Exists(false) => {
                    let name = match required_file(self.model, at) {
                        Some(name) => name,
                        None => "",
                    };
                    let path = text::join_path(self.local_dir.as_str(), name);
                    self.phase = Phase::Over;
                    SnapshotAction::Failed(
                        text::concat2("Missing required model asset: ", path.as_str()),
                    )
                },
                _ => {
                    assert(required_files(self.model).len() <= 3);
                    self.go_on(Phase::Assets { at: at + 1 })
                },
            },
            Phase::Over => SnapshotAction::Finished(self.local_dir.clone()),
        }
    }
}

/// A job is finished only where it stands behind the checks for all required files, or
/// there are none: a file that is missing ends it otherwise.
pub proof fn law_a_missing_file_ends_the_job(model: VoiceModel, local_dir: Seq<char>, at: usize)
    requires
        at < required_files(model).len(),
    ensures
        next_step(model, local_dir, Phase::Assets { at }, SnapshotEvent::Exists(false)).1 is Failed,
        next_action(model, local_dir, Phase::Assets { at }).1 == ActionView::Check(
            text::joined_path(local_dir, required_files(model)[at as int]),
        ),
{
}

/// A job that says it is finished has just found the last of the required files.
pub proof fn law_finished_means_complete(
    model: VoiceModel,
    local_dir: Seq<char>,
    phase: Phase,
    event: SnapshotEvent,
)
    requires
        is_awaited(model, phase, event),
        next_step(model, local_dir, phase, event).1 is Finished,
    ensures
        phase == (Phase::Assets { at: (required_files(model).len() - 1) as usize }),
        event == SnapshotEvent::Exists(true),
{
    lemma_unfinished(model, local_dir, phase);
    match phase {
        Phase::Fetching { at, .. } => {
            lemma_unfinished(
                model,
                local_dir,
                Phase::Fetching { at: (at + 1) as usize, failed: false },
            );
            lemma_unfinished(
                model,
                local_dir,
                Phase::Fetching { at: (at + 1) as usize, failed: true },
            );
        },
        Phase::Voices { at } => {
            lemma_unfinished(model, local_dir, Phase::Voices { at: (at + 1) as usize });
        },
        _ => {},
    }
}

proof fn lemma_unfinished(model: VoiceModel, local_dir: Seq<char>, phase: Phase)
    ensures
        phase is Fetching || phase is Voices ==> next_action(
            model,
            local_dir,
            phase,
        ).1 !is Finished,
    decreases
            match phase {
                Phase::Fetching { at, .. } => fetches(model).len() - at,
                _ => 0,
            },
{
    reveal_with_fuel(next_action, 3);
    if let Phase::Fetching { at, .. } = phase {
        if at < fetches(model).len() {
            lemma_unfinished(
                model,
                local_dir,
                Phase::Fetching { at: (at + 1) as usize, failed: false },
            );
        }
    }
}

} // verus!
