//! What holds of the models that the speech service has loaded.

use vstd::prelude::*;
use vstd::string::*;

use crate::config::{TtsPrecision, VoiceModel};
use crate::paths;
use crate::tts;
use crate::tts::{CellView, Host, LoadedView, ModelCacheKey, ReadinessView, TtsView};

verus! {

/// Once the places were pruned, only the one that is kept is left, unchanged.
pub proof fn law_pruning_keeps_one_model(
    cells: Seq<CellView>,
    keep: ModelCacheKey,
    other: ModelCacheKey,
)
    ensures
        forall|i: int|
            0 <= i < tts::kept_cells(cells, keep).len() ==> (#[trigger] tts::kept_cells(
                cells,
                keep,
            )[i]).key == keep,
        tts::cell_label(tts::kept_cells(cells, keep), keep) == tts::cell_label(cells, keep),
        other != keep ==> tts::cell_index(tts::kept_cells(cells, keep), other) is None,
    decreases cells.len(),
{
    if cells.len() > 0 {
        let front = cells.drop_last();
        let kept = tts::kept_cells(front, keep);
        law_pruning_keeps_one_model(front, keep, other);
        if cells.last().key == keep {
            let longer = kept.push(cells.last());
            assert(longer.drop_last() =~= kept);
            assert forall|i: int| 0 <= i < longer.len() implies (#[trigger] longer[i]).key
                == keep by {
                if i < kept.len() {
                    assert(longer[i] == kept[i]);
                }
            }
        } else {
            lemma_index_in_front(cells, keep);
        }
    }
}

proof fn lemma_index_in_front(cells: Seq<CellView>, key: ModelCacheKey)
    requires
        cells.len() > 0,
        cells.last().key != key,
    ensures
        tts::cell_label(cells, key) == tts::cell_label(cells.drop_last(), key),
{
    lemma_index_is_valid(cells.drop_last(), key);
    if let Some(i) = tts::cell_index(cells.drop_last(), key) {
        assert(cells.drop_last()[i] == cells[i]);
    }
}

proof fn lemma_index_is_valid(cells: Seq<CellView>, key: ModelCacheKey)
    ensures
        tts::cell_index(cells, key) matches Some(i) ==> 0 <= i < cells.len() && cells[i].key == key,
    decreases cells.len(),
{
    if cells.len() > 0 && cells.last().key != key {
        lemma_index_is_valid(cells.drop_last(), key);
    }
}

/// Pruning a second time changes nothing.
pub proof fn law_pruning_is_idempotent(cells: Seq<CellView>, keep: ModelCacheKey)
    ensures
        tts::kept_cells(tts::kept_cells(cells, keep), keep) == tts::kept_cells(cells, keep),
    decreases cells.len(),
{
    if cells.len() > 0 {
        let front = cells.drop_last();
        law_pruning_is_idempotent(front, keep);
        if cells.last().key == keep {
            let kept = tts::kept_cells(front, keep);
            assert(kept.push(cells.last()).drop_last() =~= kept);
        }
    }
}

/// What runs a model is known once the model is loaded, and what runs the others is
/// as known as before.
pub proof fn law_a_loaded_model_is_labelled(
    cells: Seq<CellView>,
    next_cell: u64,
    at: int,
    info: LoadedView,
    other: ModelCacheKey,
)
    requires
        tts::cells_wf(cells, next_cell),
        0 <= at < cells.len(),
        other != cells[at].key,
    ensures
        ({
            let filled = cells.update(at, (CellView { loaded: Some(info), ..cells[at] }));
            &&& tts::cell_label(filled, cells[at].key) == Some(info.runtime_label)
            &&& tts::cell_label(filled, other) == tts::cell_label(cells, other)
            &&& tts::cells_wf(filled, next_cell)
        }),
{
    let filled = cells.update(at, (CellView { loaded: Some(info), ..cells[at] }));
    assert forall|i: int| 0 <= i < cells.len() implies (#[trigger] filled[i]).key == cells[i].key
        && filled[i].id == cells[i].id by {
    }
    lemma_same_keys(cells, filled, cells[at].key);
    lemma_same_keys(cells, filled, other);
    lemma_only_index(cells, next_cell, at);
    lemma_index_is_valid(cells, other);
}

proof fn lemma_same_keys(a: Seq<CellView>, b: Seq<CellView>, key: ModelCacheKey)
    requires
        a.len() == b.len(),
        forall|i: int| 0 <= i < a.len() ==> (#[trigger] b[i]).key == a[i].key,
    ensures
        tts::cell_index(a, key) == tts::cell_index(b, key),
    decreases a.len(),
{
    if a.len() > 0 {
        assert(b[a.len() - 1].key == a[a.len() - 1].key);
        assert forall|i: int| 0 <= i < a.drop_last().len() implies (#[trigger] b.drop_last()[i]).key
            == a.drop_last()[i].key by {
            assert(b.drop_last()[i] == b[i]);
        }
        lemma_same_keys(a.drop_last(), b.drop_last(), key);
    }
}

proof fn lemma_only_index(cells: Seq<CellView>, next_cell: u64, at: int)
    requires
        tts::cells_wf(cells, next_cell),
        0 <= at < cells.len(),
    ensures
        tts::cell_index(cells, cells[at].key) == Some(at),
    decreases cells.len(),
{
    if at < cells.len() - 1 {
        let front = cells.drop_last();
        assert(cells[at].key != cells[cells.len() - 1].key);
        assert(tts::cells_wf(front, next_cell)) by {
            assert forall|i: int, j: int| 0 <= i < j < front.len() implies (#[trigger] front[i]).key
                != (#[trigger] front[j]).key && front[i].id != front[j].id by {
                assert(front[i] == cells[i] && front[j] == cells[j]);
            }
            assert forall|i: int| 0 <= i < front.len() implies (#[trigger] front[i]).id
                < next_cell by {
                assert(front[i] == cells[i]);
            }
        }
        assert(front[at] == cells[at]);
        lemma_only_index(front, next_cell, at);
    }
}

/// VibeVoice 1.5B is run by nothing but its own backend: away from macOS or at another
/// precision it is refused, and its status says why.
pub proof fn law_vibevoice_needs_its_backend(
    service: TtsView,
    precision: TtsPrecision,
    host: Host,
)
    requires
        !host.macos || precision != TtsPrecision::Auto,
    ensures
        tts::mlx_readiness(service.asset_root, precision, host) is Refused,
        tts::backend_text(service, VoiceModel::VibeVoice, precision, host) == if !host.macos {
            "VibeVoice 1.5B requires macOS because DevVoice only supports the MLX backend for this model."@
        } else {
            "VibeVoice 1.5B requires auto precision because it now runs only through the MLX backend."@
        },
{
}

/// On macOS and at automatic precision VibeVoice 1.5B is used if its runtime is there,
/// and otherwise the runtime is set up first.
pub proof fn law_missing_runtime_is_set_up(asset_root: Seq<char>, host: Host)
    requires
        host.macos,
        paths::parent(asset_root) is Some,
    ensures
        tts::mlx_readiness(asset_root, TtsPrecision::Auto, host) == if host.python_is_file {
            ReadinessView::Ready
        } else {
            ReadinessView::Provision(paths::parent(asset_root)->0)
        },
{
}

/// Once the worker has told what it runs on, VibeVoice 1.5B is shown to run on that,
/// whatever else is loaded or pruned.
pub proof fn law_worker_label_is_shown(
    service: TtsView,
    label: Seq<char>,
    cells: Seq<CellView>,
    host: Host,
)
    requires
        host.macos,
    ensures
        ({
            let told = TtsView { vibevoice_runtime_label: Some(label), cells, ..service };
            &&& tts::runtime_label(told, VoiceModel::VibeVoice, TtsPrecision::Auto, host) == Some(
                label,
            )
            &&& tts::backend_text(told, VoiceModel::VibeVoice, TtsPrecision::Auto, host)
                == "MLX ready on "@ + label
        }),
{
}

} // verus!
