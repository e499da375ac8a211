//! The speech service: which models are loaded, and what runs them.

use std::collections::HashMap;

use vstd::prelude::*;
use vstd::string::*;

use crate::config;
use crate::config::{TtsPrecision, VoiceModel};
use crate::paths;
use crate::state;
use crate::text;

verus! {

/// Where the interpreter that runs VibeVoice 1.5B lies below the data directory.
pub const MLX_PYTHON: &'static str = "vibevoice-mlx-venv/bin/python";

/// The text that was selected in another application.
#[derive(Debug)]
pub struct CaptureResult {
    pub raw: String,
}

/// What came of warming a model up.
#[derive(Debug)]
pub struct WarmupInfo {
    pub voices: Vec<String>,
    pub runtime_label: String,
    pub warmed_inference: bool,
    pub warmup_duration_ms: u64,
}

/// What came of warming a model up, as a mathematical value.
pub struct WarmupView {
    pub voices: Seq<Seq<char>>,
    pub runtime_label: Seq<char>,
    pub warmed_inference: bool,
    pub warmup_duration_ms: u64,
}

impl View for WarmupInfo {
    type V = WarmupView;

    open spec fn view(&self) -> WarmupView {
        WarmupView {
            voices: self.voices.deep_view(),
            runtime_label: self.runtime_label@,
            warmed_inference: self.warmed_inference,
            warmup_duration_ms: self.warmup_duration_ms,
        }
    }
}

/// What the service can see of the machine it runs on.
#[derive(Debug, Clone, Copy, PartialEq, Eq, Structural)]
pub struct Host {
    pub macos: bool,
    /// Whether there is a file where the interpreter should be.
    pub python_is_file: bool,
}

/// A model and the precision that it was asked for.
#[derive(Debug, Clone, Copy, PartialEq, Eq, Hash, Structural)]
pub struct ModelCacheKey {
    pub voice_model: VoiceModel,
    pub precision: TtsPrecision,
}

/// What is known of a loaded model.
#[derive(Debug)]
pub struct LoadedInfo {
    pub voices: Vec<String>,
    pub runtime_label: String,
}

/// What is known of a loaded model, as a mathematical value.
pub struct LoadedView {
    pub voices: Seq<Seq<char>>,
    pub runtime_label: Seq<char>,
}

impl View for LoadedInfo {
    type V = LoadedView;

    open spec fn view(&self) -> LoadedView {
        LoadedView { voices: self.voices.deep_view(), runtime_label: self.runtime_label@ }
    }
}

impl Clone for LoadedInfo {
    fn clone(&self) -> (res: Self)
        ensures
            res@ == self@,
    {
        LoadedInfo {
            voices: state::clone_texts(&self.voices),
            runtime_label: self.runtime_label.clone(),
        }
    }
}

/// A place for one model, empty until the model is loaded.
#[derive(Debug)]
pub struct ModelCell {
    pub key: ModelCacheKey,
    pub id: u64,
    pub loaded: Option<LoadedInfo>,
}

/// A place for a model as a mathematical value.
pub struct CellView {
    pub key: ModelCacheKey,
    pub id: u64,
    pub loaded: Option<LoadedView>,
}

/// What is known of a model that may not be loaded yet.
pub open spec fn loaded_view(loaded: Option<LoadedInfo>) -> Option<LoadedView> {
    match loaded {
        Some(info) => Some(info@),
        None => None,
    }
}

impl View for ModelCell {
    type V = CellView;

    open spec fn view(&self) -> CellView {
        CellView { key: self.key, id: self.id, loaded: loaded_view(self.loaded) }
    }
}

/// The speech service.
#[derive(Debug)]
pub struct TtsService {
    pub asset_root: String,
    pub cells: Vec<ModelCell>,
    pub next_cell: u64,
    pub auto_precision_overrides: HashMap<u64, TtsPrecision>,
    pub vibevoice_runtime_label: Option<String>,
}

/// The speech service as a mathematical value.
#[verifier::ext_equal]
pub struct TtsView {
    pub asset_root: Seq<char>,
    pub cells: Seq<CellView>,
    pub next_cell: u64,
    pub auto_precision_overrides: Map<u64, TtsPrecision>,
    pub vibevoice_runtime_label: Option<Seq<char>>,
}

/// The places as mathematical values.
pub open spec fn cell_views(cells: Seq<ModelCell>) -> Seq<CellView> {
    cells.map_values(|cell: ModelCell| cell@)
}

impl View for TtsService {
    type V = TtsView;

    open spec fn view(&self) -> TtsView {
        TtsView {
            asset_root: self.asset_root@,
            cells: cell_views(self.cells@),
            next_cell: self.next_cell,
            auto_precision_overrides: self.auto_precision_overrides@,
            vibevoice_runtime_label: self.vibevoice_runtime_label.deep_view(),
        }
    }
}

/// No two places are for the same model and precision, and their numbers were all
/// given out, each to one place.
pub open spec fn cells_wf(cells: Seq<CellView>, next_cell: u64) -> bool {
    &&& forall|i: int, j: int|
        0 <= i < j < cells.len() ==> (#[trigger] cells[i]).key != (#[trigger] cells[j]).key
            && cells[i].id != cells[j].id
    &&& forall|i: int| 0 <= i < cells.len() ==> (#[trigger] cells[i]).id < next_cell
}

/// Where the place for a model stands.
pub open spec fn cell_index(cells: Seq<CellView>, key: ModelCacheKey) -> Option<int>
    decreases cells.len(),
{
    if cells.len() == 0 {
        None
    } else if cells.last().key == key {
        Some(cells.len() - 1)
    } else {
        cell_index(cells.drop_last(), key)
    }
}

/// Where the place with a number stands.
pub open spec fn cell_numbered(cells: Seq<CellView>, id: u64) -> Option<int>
    decreases cells.len(),
{
    if cells.len() == 0 {
        None
    } else if cells.last().id == id {
        Some(cells.len() - 1)
    } else {
        cell_numbered(cells.drop_last(), id)
    }
}

/// What runs a model, where it is loaded.
pub open spec fn cell_label(cells: Seq<CellView>, key: ModelCacheKey) -> Option<Seq<char>> {
    match cell_index(cells, key) {
        Some(i) => match cells[i].loaded {
            Some(info) => Some(info.runtime_label),
            None => None,
        },
        None => None,
    }
}

/// The places that are for `keep`.
pub open spec fn kept_cells(cells: Seq<CellView>, keep: ModelCacheKey) -> Seq<CellView>
    decreases cells.len(),
{
    if cells.len() == 0 {
        Seq::empty()
    } else if cells.last().key == keep {
        kept_cells(cells.drop_last(), keep).push(cells.last())
    } else {
        kept_cells(cells.drop_last(), keep)
    }
}

/// The places that are not for `gone`.
pub open spec fn other_cells(cells: Seq<CellView>, gone: ModelCacheKey) -> Seq<CellView>
    decreases cells.len(),
{
    if cells.len() == 0 {
        Seq::empty()
    } else if cells.last().key != gone {
        other_cells(cells.drop_last(), gone).push(cells.last())
    } else {
        other_cells(cells.drop_last(), gone)
    }
}

/// The number of a model among the precision overrides.
pub open spec fn model_number(model: VoiceModel) -> u64 {
    match model {
        VoiceModel::VibeVoiceRealtime => 0,
        VoiceModel::VibeVoice => 1,
        VoiceModel::ParlerTts => 2,
        VoiceModel::Kokoro => 3,
    }
}

fn number_of(model: VoiceModel) -> (res: u64)
    ensures
        res == model_number(model),
{
    match model {
        VoiceModel::VibeVoiceRealtime => 0,
        VoiceModel::VibeVoice => 1,
        VoiceModel::ParlerTts => 2,
        VoiceModel::Kokoro => 3,
    }
}

/// Where the interpreter should be.
pub open spec fn python_location(asset_root: Seq<char>) -> Option<Seq<char>> {
    match paths::parent(asset_root) {
        Some(data_dir) => Some(text::joined_path(data_dir, MLX_PYTHON@)),
        None => None,
    }
}

/// Where the interpreter is, if it is there.
pub open spec fn python_path(asset_root: Seq<char>, host: Host) -> Option<Seq<char>> {
    if host.macos && host.python_is_file {
        python_location(asset_root)
    } else {
        None
    }
}

/// What runs a model at a precision, where that is known.
pub open spec fn runtime_label(
    tts: TtsView,
    model: VoiceModel,
    precision: TtsPrecision,
    host: Host,
) -> Option<Seq<char>> {
    if model == VoiceModel::VibeVoice && host.macos && precision == TtsPrecision::Auto
        && tts.vibevoice_runtime_label is Some {
        tts.vibevoice_runtime_label
    } else {
        cell_label(tts.cells, ModelCacheKey { voice_model: model, precision })
    }
}

/// How a model's backend stands, in words.
pub open spec fn backend_text(
    tts: TtsView,
    model: VoiceModel,
    precision: TtsPrecision,
    host: Host,
) -> Seq<char> {
    if model == VoiceModel::VibeVoice {
        if !host.macos {
            "VibeVoice 1.5B requires macOS because DevVoice only supports the MLX backend for this model."@
        } else if precision != TtsPrecision::Auto {
            "VibeVoice 1.5B requires auto precision because it now runs only through the MLX backend."@
        } else if tts.vibevoice_runtime_label is Some {
            "MLX ready on "@ + tts.vibevoice_runtime_label->0
        } else if python_path(tts.asset_root, host) is Some {
            "MLX installed, waiting for warmup."@
        } else {
            "MLX runtime missing. DevVoice will provision it automatically on first 1.5B use."@
        }
    } else {
        match runtime_label(tts, model, precision, host) {
            Some(label) => "Built-in backend ready on "@ + label,
            None => config::model_name(model) + " uses the built-in Rust backend."@,
        }
    }
}

/// What has to happen before VibeVoice 1.5B can be used.
#[derive(Debug)]
pub enum MlxReadiness {
    Ready,
    /// Its runtime is to be set up in this data directory.
    Provision(String),
    /// It cannot be used, for this reason.
    Refused(String),
}

/// What has to happen before VibeVoice 1.5B can be used, as a mathematical value.
pub enum ReadinessView {
    Ready,
    Provision(Seq<char>),
    Refused(Seq<char>),
}

impl View for MlxReadiness {
    type V = ReadinessView;

    open spec fn view(&self) -> ReadinessView {
        match *self {
            MlxReadiness::Ready => ReadinessView::Ready,
            MlxReadiness::Provision(dir) => ReadinessView::Provision(dir@),
            MlxReadiness::Refused(reason) => ReadinessView::Refused(reason@),
        }
    }
}

/// What has to happen before VibeVoice 1.5B can be used at a precision.
pub open spec fn mlx_readiness(
    asset_root: Seq<char>,
    precision: TtsPrecision,
    host: Host,
) -> ReadinessView {
    if !host.macos {
        ReadinessView::Refused(
            "VibeVoice 1.5B now requires macOS because DevVoice only supports the MLX backend for this model."@,
        )
    } else if precision != TtsPrecision::Auto {
        ReadinessView::Refused(
            "VibeVoice 1.5B now requires auto precision because it runs only through the MLX backend."@,
        )
    } else if python_path(asset_root, host) is Some {
        ReadinessView::Ready
    } else {
        match paths::parent(asset_root) {
            Some(data_dir) => ReadinessView::Provision(data_dir),
            None => ReadinessView::Refused("determine DevVoice data directory"@),
        }
    }
}

/// The service with an empty place for a model.
pub open spec fn with_cell(tts: TtsView, key: ModelCacheKey) -> TtsView {
    TtsView {
        cells: tts.cells.push(CellView { key, id: tts.next_cell, loaded: None }),
        next_cell: (tts.next_cell + 1) as u64,
        ..tts
    }
}

/// A place for a model, and what is known of the model if it is loaded.
#[derive(Debug)]
pub struct OpenCell {
    pub id: u64,
    pub loaded: Option<LoadedInfo>,
}

/// How a model is warmed up.
#[derive(Debug)]
pub enum WarmupRoute {
    /// By a first request to the worker of VibeVoice 1.5B, once that can be used.
    Worker(MlxReadiness),
    /// By loading it into a place.
    Model(OpenCell),
    /// It cannot be.
    Refused(String),
}

impl TtsService {
    /// Whether the places are in order.
    pub open spec fn wf(&self) -> bool {
        cells_wf(self@.cells, self@.next_cell)
    }

    /// A service that has loaded nothing.
    pub fn new(asset_root: String) -> (res: TtsService)
        ensures
            res.wf(),
            res@ == (TtsView {
                asset_root: asset_root@,
                cells: Seq::empty(),
                next_cell: 0,
                auto_precision_overrides: Map::empty(),
                vibevoice_runtime_label: None,
            }),
    {
        let res = TtsService {
            asset_root,
            cells: Vec::new(),
            next_cell: 0,
            auto_precision_overrides: HashMap::new(),
            vibevoice_runtime_label: None,
        };
        assert(res@.cells =~= Seq::empty());
        res
    }

    /// The directory above the assets.
    pub fn data_dir(&self) -> (res: Result<String, String>)
        ensures
            match paths::parent(self@.asset_root) {
                Some(dir) => res matches Ok(found) && found@ == dir,
                None => res matches Err(error) && error@ == "determine DevVoice data directory"@,
            },
    {
        match paths::path_parent(self.asset_root.as_str()) {
            Some(dir) => Ok(dir),
            None => Err("determine DevVoice data directory".to_owned()),
        }
    }

    /// Whether a model at a precision is one for the MLX backend.
    pub fn vibevoice_mlx_requested(
        &self,
        voice_model: VoiceModel,
        precision: TtsPrecision,
        host: Host,
    ) -> (res: bool)
        ensures
            res == (voice_model == VoiceModel::VibeVoice && host.macos && precision
                == TtsPrecision::Auto),
    {
        voice_model == VoiceModel::VibeVoice && host.macos && precision == TtsPrecision::Auto
    }

    /// Where the interpreter should be.
    pub fn mlx_python_location(&self) -> (res: Option<String>)
        ensures
            res.deep_view() == python_location(self@.asset_root),
    {
        match paths::path_parent(self.asset_root.as_str()) {
            Some(data_dir) => Some(text::join_path(data_dir.as_str(), MLX_PYTHON)),
            None => None,
        }
    }

    /// Where the interpreter is, if it is there.
    pub fn vibevoice_mlx_python_path(&self, host: Host) -> (res: Option<String>)
        ensures
            res.deep_view() == python_path(self@.asset_root, host),
    {
        if !host.macos {
            return None;
        }
        if host.python_is_file {
            self.mlx_python_location()
        } else {
            None
        }
    }

    /// How a model's backend stands, in words.
    pub fn backend_status(
        &self,
        voice_model: VoiceModel,
        precision: TtsPrecision,
        host: Host,
    ) -> (res: String)
        ensures
            res@ == backend_text(self@, voice_model, precision, host),
    {
        if voice_model == VoiceModel::VibeVoice {
            if !host.macos {
                return "VibeVoice 1.5B requires macOS because DevVoice only supports the MLX backend for this model.".to_owned();
            }
            if precision != TtsPrecision::Auto {
                return "VibeVoice 1.5B requires auto precision because it now runs only through the MLX backend.".to_owned();
            }
            match &self.vibevoice_runtime_label {
                Some(label) => text::concat2("MLX ready on ", label.as_str()),
                None => {
                    if self.vibevoice_mlx_python_path(host).is_some() {
                        "MLX installed, waiting for warmup.".to_owned()
                    } else {
                        "MLX runtime missing. DevVoice will provision it automatically on first 1.5B use.".to_owned()
                    }
                },
            }
        } else {
            match self.loaded_runtime_label(voice_model, precision, host) {
                Some(label) => text::concat2("Built-in backend ready on ", label.as_str()),
                None => text::concat2(
                    voice_model.display_name(),
                    " uses the built-in Rust backend.",
                ),
            }
        }
    }

    /// What has to happen before VibeVoice 1.5B can be used.
    pub fn ensure_vibevoice_mlx_runtime(&self, precision: TtsPrecision, host: Host) -> (res:
        MlxReadiness)
        ensures
            res@ == mlx_readiness(self@.asset_root, precision, host),
    {
        if !host.macos {
            return MlxReadiness::Refused(
                "VibeVoice 1.5B now requires macOS because DevVoice only supports the MLX backend for this model.".to_owned(),
            );
        }
        if precision != TtsPrecision::Auto {
            return MlxReadiness::Refused(
                "VibeVoice 1.5B now requires auto precision because it runs only through the MLX backend.".to_owned(),
            );
        }
        if self.vibevoice_mlx_python_path(host).is_some() {
            return MlxReadiness::Ready;
        }
        match self.data_dir() {
            Ok(data_dir) => MlxReadiness::Provision(data_dir),
            Err(error) => MlxReadiness::Refused(error),
        }
    }

    /// Whether the interpreter is there once its setup has succeeded.
    pub fn mlx_runtime_provisioned(&self, host: Host) -> (res: Result<(), String>)
        ensures
            match python_path(self@.asset_root, host) {
                Some(_) => res is Ok,
                None => res matches Err(error) && error@
                    == "VibeVoice MLX provisioning completed, but the Python runtime was still not found."@,
            },
    {
        if self.vibevoice_mlx_python_path(host).is_none() {
            return Err(
                "VibeVoice MLX provisioning completed, but the Python runtime was still not found.".to_owned(),
            );
        }
        Ok(())
    }

    /// What runs a model at a precision, where that is known.
    pub fn loaded_runtime_label(
        &self,
        voice_model: VoiceModel,
        precision: TtsPrecision,
        host: Host,
    ) -> (res: Option<String>)
        ensures
            res.deep_view() == runtime_label(self@, voice_model, precision, host),
    {
        if self.vibevoice_mlx_requested(voice_model, precision, host) {
            if let Some(label) = &self.vibevoice_runtime_label {
                return Some(label.clone());
            }
        }
        let key = ModelCacheKey { voice_model, precision };
        match self.find_cell(key) {
            Some(i) => match &self.cells[i].loaded {
                Some(info) => Some(info.runtime_label.clone()),
                None => None,
            },
            None => None,
        }
    }

    fn find_cell(&self, key: ModelCacheKey) -> (res: Option<usize>)
        ensures
            match res {
                Some(i) => i < self.cells@.len() && cell_index(self@.cells, key) == Some(i as int),
                None => cell_index(self@.cells, key) is None,
            },
    {
        let mut i: usize = self.cells.len();
        assert(self@.cells.take(i as int) =~= self@.cells);
        while i > 0
            invariant
                i <= self.cells@.len(),
                cell_index(self@.cells, key) == cell_index(self@.cells.take(i as int), key),
            decreases i,
        {
            assert(self@.cells.take(i as int).drop_last() =~= self@.cells.take(i - 1));
            assert(self@.cells[i - 1] == self.cells@[i - 1]@);
            if self.cells[i - 1].key == key {
                return Some(i - 1);
            }
            i = i - 1;
        }
        None
    }

    /// Forgets every model but the one that is kept.
    pub fn prune_cache(&mut self, voice_model: VoiceModel, precision: TtsPrecision)
        requires
            old(self).wf(),
        ensures
            final(self).wf(),
            final(self)@ == (TtsView {
                cells: kept_cells(old(self)@.cells, ModelCacheKey { voice_model, precision }),
                ..old(self)@
            }),
    {
        let keep = ModelCacheKey { voice_model, precision };
        let mut cells: Vec<ModelCell> = Vec::new();
        std::mem::swap(&mut cells, &mut self.cells);
        proof {
            lemma_kept_cells(cell_views(cells@), keep, self.next_cell);
        }
        self.cells = retain_cells(cells, keep, true);
    }

    /// Forgets that a model's automatic precision was replaced.
    pub fn reset_auto_precision_override(&mut self, voice_model: VoiceModel)
        ensures
            final(self)@ == (TtsView {
                auto_precision_overrides: old(self)@.auto_precision_overrides.remove(
                    model_number(voice_model),
                ),
                ..old(self)@
            }),
    {
        broadcast use vstd::std_specs::hash::group_hash_axioms;

        let number: u64 = number_of(voice_model);
        self.auto_precision_overrides.remove(&number);
        assert(self@.auto_precision_overrides =~= old(self)@.auto_precision_overrides.remove(
            number,
        ));
    }

    /// Drops the place of VibeVoice 1.5B at automatic precision, and notes f32 as its
    /// override.
    pub fn force_vibevoice_auto_cpu_fallback(&mut self)
        requires
            old(self).wf(),
        ensures
            final(self).wf(),
            final(self)@ == (TtsView {
                cells: other_cells(
                    old(self)@.cells,
                    ModelCacheKey {
                        voice_model: VoiceModel::VibeVoice,
                        precision: TtsPrecision::Auto,
                    },
                ),
                auto_precision_overrides: old(self)@.auto_precision_overrides.insert(
                    model_number(VoiceModel::VibeVoice),
                    TtsPrecision::F32,
                ),
                ..old(self)@
            }),
    {
        broadcast use vstd::std_specs::hash::group_hash_axioms;

        let number: u64 = number_of(VoiceModel::VibeVoice);
        self.auto_precision_overrides.insert(number, TtsPrecision::F32);
        let gone = ModelCacheKey {
            voice_model: VoiceModel::VibeVoice,
            precision: TtsPrecision::Auto,
        };
        let mut cells: Vec<ModelCell> = Vec::new();
        std::mem::swap(&mut cells, &mut self.cells);
        proof {
            lemma_other_cells(cell_views(cells@), gone, self.next_cell);
        }
        self.cells = retain_cells(cells, gone, false);
    }

    /// The place for a model, made if there is none. VibeVoice 1.5B is never loaded
    /// into one.
    pub fn ensure_loaded(&mut self, voice_model: VoiceModel, precision: TtsPrecision) -> (res:
        Result<OpenCell, String>)
        requires
            old(self).wf(),
            old(self)@.next_cell < u64::MAX,
        ensures
            final(self).wf(),
            voice_model == VoiceModel::VibeVoice ==> {
                &&& final(self)@ == old(self)@
                &&& res matches Err(error)
                &&& error@
                    == "VibeVoice 1.5B now runs only through the MLX backend. Use auto precision on macOS."@
            },
            voice_model != VoiceModel::VibeVoice ==> match cell_index(
                old(self)@.cells,
                ModelCacheKey { voice_model, precision },
            ) {
                Some(i) => {
                    &&& final(self)@ == old(self)@
                    &&& res matches Ok(cell)
                    &&& cell.id == old(self)@.cells[i].id
                    &&& loaded_view(cell.loaded) == old(self)@.cells[i].loaded
                },
                None => {
                    &&& final(self)@ == with_cell(
                        old(self)@,
                        ModelCacheKey { voice_model, precision },
                    )
                    &&& res matches Ok(cell)
                    &&& cell.id == old(self)@.next_cell
                    &&& cell.loaded is None
                },
            },
    {
        if voice_model == VoiceModel::VibeVoice {
            return Err(
                "VibeVoice 1.5B now runs only through the MLX backend. Use auto precision on macOS.".to_owned(),
            );
        }
        let key = ModelCacheKey { voice_model, precision };
        match self.find_cell(key) {
            Some(i) => {
                assert(self@.cells[i as int] == self.cells@[i as int]@);
                let loaded = match &self.cells[i].loaded {
                    Some(info) => Some(info.clone()),
                    None => None,
                };
                Ok(OpenCell { id: self.cells[i].id, loaded })
            },
            None => {
                let id: u64 = self.next_cell;
                proof {
                    lemma_absent_key(self@.cells, key);
                }
                self.cells.push(ModelCell { key, id, loaded: None });
                self.next_cell = id + 1;
                assert(self@.cells =~= old(self)@.cells.push(
                    (CellView { key, id, loaded: None }),
                ));
                Ok(OpenCell { id, loaded: None })
            },
        }
    }

    /// How a model is warmed up: VibeVoice 1.5B by its worker, any other by loading it.
    pub fn warmup(&mut self, voice_model: VoiceModel, precision: TtsPrecision, host: Host) -> (res:
        WarmupRoute)
        requires
            old(self).wf(),
            old(self)@.next_cell < u64::MAX,
        ensures
            final(self).wf(),
            voice_model == VoiceModel::VibeVoice ==> {
                &&& final(self)@ == old(self)@
                &&& res matches WarmupRoute::Worker(readiness)
                &&& readiness@ == mlx_readiness(old(self)@.asset_root, precision, host)
            },
            voice_model != VoiceModel::VibeVoice ==> {
                let key = ModelCacheKey { voice_model, precision };
                &&& res matches WarmupRoute::Model(cell)
                &&& match cell_index(old(self)@.cells, key) {
                    Some(i) => {
                        &&& final(self)@ == old(self)@
                        &&& cell.id == old(self)@.cells[i].id
                        &&& loaded_view(cell.loaded) == old(self)@.cells[i].loaded
                    },
                    None => {
                        &&& final(self)@ == with_cell(old(self)@, key)
                        &&& cell.id == old(self)@.next_cell
                        &&& cell.loaded is None
                    },
                }
            },
    {
        if voice_model == VoiceModel::VibeVoice {
            return WarmupRoute::Worker(self.ensure_vibevoice_mlx_runtime(precision, host));
        }
        match self.ensure_loaded(voice_model, precision) {
            Ok(cell) => WarmupRoute::Model(cell),
            Err(error) => WarmupRoute::Refused(error),
        }
    }

    /// Notes that the model of a place is loaded. A place that was given up in the
    /// meantime is left as it is.
    pub fn model_loaded(&mut self, id: u64, info: LoadedInfo)
        requires
            old(self).wf(),
        ensures
            final(self).wf(),
            match cell_numbered(old(self)@.cells, id) {
                Some(i) => final(self)@ == (TtsView {
                    cells: old(self)@.cells.update(
                        i,
                        (CellView { loaded: Some(info@), ..old(self)@.cells[i] }),
                    ),
                    ..old(self)@
                }),
                None => final(self)@ == old(self)@,
            },
    {
        let mut i: usize = self.cells.len();
        assert(self@.cells.take(i as int) =~= self@.cells);
        while i > 0
            invariant
                i <= self.cells@.len(),
                self@ == old(self)@,
                cell_numbered(self@.cells, id) == cell_numbered(self@.cells.take(i as int), id),
                self.wf(),
            decreases i,
        {
            assert(self@.cells.take(i as int).drop_last() =~= self@.cells.take(i - 1));
            assert(self@.cells[i - 1] == self.cells@[i - 1]@);
            if self.cells[i - 1].id == id {
                let key = self.cells[i - 1].key;
                self.cells.set(i - 1, ModelCell { key, id, loaded: Some(info) });
                assert(self@.cells =~= old(self)@.cells.update(
                    i - 1,
                    (CellView { loaded: Some(info@), ..old(self)@.cells[i - 1] }),
                ));
                return ;
            }
            i = i - 1;
        }
    }

    /// Whether the place with a number is still there.
    pub fn holds_cell(&self, id: u64) -> (res: bool)
        ensures
            res == (cell_numbered(self@.cells, id) is Some),
    {
        let mut i: usize = self.cells.len();
        assert(self@.cells.take(i as int) =~= self@.cells);
        while i > 0
            invariant
                i <= self.cells@.len(),
                cell_numbered(self@.cells, id) == cell_numbered(self@.cells.take(i as int), id),
            decreases i,
        {
            assert(self@.cells.take(i as int).drop_last() =~= self@.cells.take(i - 1));
            assert(self@.cells[i - 1] == self.cells@[i - 1]@);
            if self.cells[i - 1].id == id {
                return true;
            }
            i = i - 1;
        }
        false
    }
}

fn retain_cells(cells: Vec<ModelCell>, key: ModelCacheKey, equal: bool) -> (res: Vec<ModelCell>)
    ensures
        cell_views(res@) == if equal {
            kept_cells(cell_views(cells@), key)
        } else {
            other_cells(cell_views(cells@), key)
        },
{
    let ghost views = cell_views(cells@);
    let mut out: Vec<ModelCell> = Vec::new();
    assert(views.take(0) =~= Seq::empty());
    assert(cell_views(out@) =~= Seq::empty());
    for cell in it: cells
        invariant
            cell_views(it.seq()) == views,
            cell_views(out@) == if equal {
                kept_cells(views.take(it.index()), key)
            } else {
                other_cells(views.take(it.index()), key)
            },
    {
        let ghost before = out@;
        assert(cell_views(it.seq())[it.index()] == it.seq()[it.index()]@);
        assert(views.take(it.index() + 1).drop_last() =~= views.take(it.index()));
        assert(views.take(it.index() + 1).last() == cell@);
        if (cell.key == key) == equal {
            out.push(cell);
            assert(cell_views(out@) =~= cell_views(before).push(cell@));
        }
    }
    assert(views.take(views.len() as int) =~= views);
    out
}

proof fn lemma_absent_key(cells: Seq<CellView>, key: ModelCacheKey)
    requires
        cell_index(cells, key) is None,
    ensures
        forall|i: int| 0 <= i < cells.len() ==> (#[trigger] cells[i]).key != key,
    decreases cells.len(),
{
    if cells.len() > 0 {
        lemma_absent_key(cells.drop_last(), key);
        assert forall|i: int| 0 <= i < cells.len() implies (#[trigger] cells[i]).key != key by {
            if i < cells.len() - 1 {
                assert(cells.drop_last()[i].key != key);
            }
        }
    }
}

proof fn lemma_kept_cells(cells: Seq<CellView>, keep: ModelCacheKey, next_cell: u64)
    requires
        cells_wf(cells, next_cell),
    ensures
        cells_wf(kept_cells(cells, keep), next_cell),
        forall|i: int|
            0 <= i < kept_cells(cells, keep).len() ==> cells.contains(
                #[trigger] kept_cells(cells, keep)[i],
            ),
    decreases cells.len(),
{
    if cells.len() > 0 {
        let front = cells.drop_last();
        assert(cells_wf(front, next_cell));
        lemma_kept_cells(front, keep, next_cell);
        lemma_extended(cells, kept_cells(front, keep), next_cell);
    }
}

proof fn lemma_other_cells(cells: Seq<CellView>, gone: ModelCacheKey, next_cell: u64)
    requires
        cells_wf(cells, next_cell),
    ensures
        cells_wf(other_cells(cells, gone), next_cell),
        forall|i: int|
            0 <= i < other_cells(cells, gone).len() ==> cells.contains(
                #[trigger] other_cells(cells, gone)[i],
            ),
    decreases cells.len(),
{
    if cells.len() > 0 {
        let front = cells.drop_last();
        assert(cells_wf(front, next_cell));
        lemma_other_cells(front, gone, next_cell);
        lemma_extended(cells, other_cells(front, gone), next_cell);
    }
}

proof fn lemma_extended(cells: Seq<CellView>, part: Seq<CellView>, next_cell: u64)
    requires
        cells.len() > 0,
        cells_wf(cells, next_cell),
        cells_wf(part, next_cell),
        forall|i: int|
            0 <= i < part.len() ==> cells.drop_last().contains(#[trigger] part[i]),
    ensures
        cells_wf(part.push(cells.last()), next_cell),
        forall|i: int|
            0 <= i < part.len() ==> cells.contains(#[trigger] part[i]),
        forall|i: int|
            0 <= i < part.len() + 1 ==> cells.contains(#[trigger] part.push(cells.last())[i]),
{
    let front = cells.drop_last();
    assert forall|i: int| 0 <= i < part.len() implies cells.contains(#[trigger] part[i])
        && part[i].key != cells.last().key && part[i].id != cells.last().id by {
        let k = choose|k: int| 0 <= k < front.len() && front[k] == part[i];
        assert(front.contains(part[i]));
        assert(cells[k] == part[i]);
        assert(cells[cells.len() - 1] == cells.last());
    }
    let longer = part.push(cells.last());
    assert(cells[cells.len() - 1] == cells.last());
    assert forall|i: int| 0 <= i < longer.len() implies cells.contains(#[trigger] longer[i]) by {
        if i < part.len() {
            assert(longer[i] == part[i]);
        }
    }
    assert forall|i: int, j: int| 0 <= i < j < longer.len() implies (#[trigger] longer[i]).key != (
    #[trigger] longer[j]).key && longer[i].id != longer[j].id by {
        assert(longer[i] == part[i]);
        if j < part.len() {
            assert(longer[j] == part[j]);
        }
    }
    assert forall|i: int| 0 <= i < longer.len() implies (#[trigger] longer[i]).id < next_cell by {
        if i < part.len() {
            assert(longer[i] == part[i]);
        }
    }
}

/// Whether the application may read what is selected elsewhere: it has leave, or it
/// was given leave when it asked.
pub fn ensure_accessibility(trusted: bool, trusted_with_prompt: bool) -> (res: Result<(), String>)
    ensures
        if trusted || trusted_with_prompt {
            res is Ok
        } else {
            res matches Err(error) && error@
                == "DevVoice needs Accessibility access. Approve it in System Settings > Privacy & Security > Accessibility, then retry."@
        },
{
    if trusted {
        return Ok(());
    }
    if trusted_with_prompt {
        return Ok(());
    }
    Err(
        "DevVoice needs Accessibility access. Approve it in System Settings > Privacy & Security > Accessibility, then retry.".to_owned(),
    )
}

/// The selection, trimmed; a blank one counts as none.
pub fn captured_selection(selected: Result<String, String>) -> (res: Result<CaptureResult, String>)
    ensures
        match selected {
            Err(error) => res matches Err(message) && message@
                == "capture selected text from the active app: "@ + error@,
            Ok(found) => if text::is_blank(found@) {
                res matches Err(message) && message@
                    == "No highlighted text was detected in the active application."@
            } else {
                res matches Ok(capture) && capture.raw@ == text::trimmed(found@)
            },
        },
{
    match selected {
        Err(error) => Err(
            text::concat2("capture selected text from the active app: ", error.as_str()),
        ),
        Ok(found) => {
            let raw = text::trim(found.as_str());
            if raw.as_str().is_empty() {
                return Err(
                    "No highlighted text was detected in the active application.".to_owned(),
                );
            }
            Ok(CaptureResult { raw })
        },
    }
}

/// What came of loading a model to warm it up.
pub fn loaded_warmup(info: &LoadedInfo, duration_ms: u64) -> (res: WarmupInfo)
    ensures
        res@ == (WarmupView {
            voices: info@.voices,
            runtime_label: info@.runtime_label,
            warmed_inference: false,
            warmup_duration_ms: duration_ms,
        }),
{
    WarmupInfo {
        voices: state::clone_texts(&info.voices),
        runtime_label: info.runtime_label.clone(),
        warmed_inference: false,
        warmup_duration_ms: duration_ms,
    }
}

/// The file that the application logs to.
pub open spec fn log_path(home: Option<Seq<char>>) -> Seq<char> {
    text::joined_path(
        match home {
            Some(dir) => dir,
            None => "."@,
        },
        "Library/Logs/DevVoice/devvoice.log"@,
    )
}

/// The file that the application logs to.
pub fn log_file_path(home: Option<&str>) -> (res: String)
    ensures
        res@ == log_path(
            match home {
                Some(dir) => Some(dir@),
                None => None,
            },
        ),
{
    match home {
        Some(dir) => text::join_path(dir, "Library/Logs/DevVoice/devvoice.log"),
        None => text::join_path(".", "Library/Logs/DevVoice/devvoice.log"),
    }
}

} // verus!
