//! What the speech service finds, keeps and tells, said of its places one by one.

use vstd::prelude::*;
use vstd::string::*;

use crate::cache;
use crate::config::{TtsPrecision, VoiceModel};
use crate::paths;
use crate::state::AppStatus;
use crate::text;
use crate::tray;
use crate::tray::{MenuCommand, Rgba};
use crate::tts;
use crate::tts::{CellView, Host, ModelCacheKey, ReadinessView, TtsView};

verus! {

// ---------------------------------------------------------------------------
// Places
// ---------------------------------------------------------------------------

/// The place for a model is found exactly where it is.
pub proof fn law_a_place_is_found_where_it_is(
    cells: Seq<CellView>,
    next_cell: u64,
    key: ModelCacheKey,
    at: int,
)
    requires
        tts::cells_wf(cells, next_cell),
    ensures
        tts::cell_index(cells, key) == Some(at) <==> 0 <= at < cells.len() && cells[at].key == key,
        tts::cell_index(cells, key) is None <==> forall|i: int|
            0 <= i < cells.len() ==> (#[trigger] cells[i]).key != key,
    decreases cells.len(),
{
    if cells.len() > 0 {
        let front = cells.drop_last();
        lemma_front_is_in_order(cells, next_cell);
        law_a_place_is_found_where_it_is(front, next_cell, key, at);
        let last = cells.len() - 1;
        assert(cells[last] == cells.last());
        if 0 <= at < front.len() {
            assert(front[at] == cells[at]);
            assert(cells[at].key != cells[last].key);
        }
        if cells.last().key != key {
            assert forall|i: int| 0 <= i < front.len() implies #[trigger] front[i]
                == cells[i] by {}
            if tts::cell_index(cells, key) is None {
                assert forall|i: int| 0 <= i < cells.len() implies (#[trigger] cells[i]).key
                    != key by {
                    if i < front.len() {
                        assert(front[i].key != key);
                    }
                }
            }
            if forall|i: int| 0 <= i < cells.len() ==> (#[trigger] cells[i]).key != key {
                assert forall|i: int| 0 <= i < front.len() implies (#[trigger] front[i]).key
                    != key by {
                    assert(front[i] == cells[i]);
                }
            }
        }
    }
}

/// The place with a number is found exactly where it is.
pub proof fn law_a_number_is_found_where_it_is(
    cells: Seq<CellView>,
    next_cell: u64,
    id: u64,
    at: int,
)
    requires
        tts::cells_wf(cells, next_cell),
    ensures
        tts::cell_numbered(cells, id) == Some(at) <==> 0 <= at < cells.len() && cells[at].id == id,
        tts::cell_numbered(cells, id) is None <==> forall|i: int|
            0 <= i < cells.len() ==> (#[trigger] cells[i]).id != id,
    decreases cells.len(),
{
    if cells.len() > 0 {
        let front = cells.drop_last();
        lemma_front_is_in_order(cells, next_cell);
        law_a_number_is_found_where_it_is(front, next_cell, id, at);
        let last = cells.len() - 1;
        assert(cells[last] == cells.last());
        if 0 <= at < front.len() {
            assert(front[at] == cells[at]);
            assert(cells[at].id != cells[last].id);
        }
        if cells.last().id != id {
            if tts::cell_numbered(cells, id) is None {
                assert forall|i: int| 0 <= i < cells.len() implies (#[trigger] cells[i]).id
                    != id by {
                    if i < front.len() {
                        assert(front[i].id != id);
                    }
                }
            }
            if forall|i: int| 0 <= i < cells.len() ==> (#[trigger] cells[i]).id != id {
                assert forall|i: int| 0 <= i < front.len() implies (#[trigger] front[i]).id
                    != id by {
                    assert(front[i] == cells[i]);
                }
            }
        }
    }
}

proof fn lemma_front_is_in_order(cells: Seq<CellView>, next_cell: u64)
    requires
        tts::cells_wf(cells, next_cell),
        cells.len() > 0,
    ensures
        tts::cells_wf(cells.drop_last(), next_cell),
{
    let front = cells.drop_last();
    assert forall|i: int, j: int| 0 <= i < j < front.len() implies (#[trigger] front[i]).key != (
    #[trigger] front[j]).key && front[i].id != front[j].id by {
        assert(front[i] == cells[i] && front[j] == cells[j]);
    }
    assert forall|i: int| 0 <= i < front.len() implies (#[trigger] front[i]).id < next_cell by {
        assert(front[i] == cells[i]);
    }
}

/// Pruning keeps the places for one model, as they are and in order, and no others; giving
/// a model up does the opposite.
pub proof fn law_which_places_are_kept(cells: Seq<CellView>, key: ModelCacheKey)
    ensures
        tts::kept_cells(cells, key) == cells.filter(|cell: CellView| cell.key == key),
        tts::other_cells(cells, key) == cells.filter(|cell: CellView| cell.key != key),
    decreases cells.len(),
{
    reveal(Seq::filter);
    if cells.len() > 0 {
        law_which_places_are_kept(cells.drop_last(), key);
    } else {
        assert(cells.filter(|cell: CellView| cell.key == key) =~= Seq::empty());
        assert(cells.filter(|cell: CellView| cell.key != key) =~= Seq::empty());
    }
}

/// A new place stands behind the others, empty and with the next number; nothing else
/// changes.
pub proof fn law_what_a_new_place_changes(service: TtsView, key: ModelCacheKey)
    requires
        service.next_cell < u64::MAX,
    ensures
        ({
            let after = tts::with_cell(service, key);
            &&& after.cells == service.cells + seq![
                CellView { key, id: service.next_cell, loaded: None },
            ]
            &&& after.next_cell == service.next_cell + 1
            &&& after.asset_root == service.asset_root
            &&& after.auto_precision_overrides == service.auto_precision_overrides
            &&& after.vibevoice_runtime_label == service.vibevoice_runtime_label
        }),
{
    assert(tts::with_cell(service, key).cells =~= service.cells + seq![
        CellView { key, id: service.next_cell, loaded: None },
    ]);
}

/// Every model has a number of its own.
pub proof fn law_models_have_their_own_numbers(one: VoiceModel, other: VoiceModel)
    requires
        one != other,
    ensures
        tts::model_number(one) != tts::model_number(other),
{
}

// ---------------------------------------------------------------------------
// What is told
// ---------------------------------------------------------------------------

/// What runs a model is what its worker told, for VibeVoice 1.5B on macOS at automatic
/// precision, and else what its loaded model tells.
pub proof fn law_what_runs_a_model(
    service: TtsView,
    model: VoiceModel,
    precision: TtsPrecision,
    host: Host,
    at: int,
)
    requires
        tts::cells_wf(service.cells, service.next_cell),
    ensures
        ({
            let key = ModelCacheKey { voice_model: model, precision };
            let told = model == VoiceModel::VibeVoice && host.macos && precision
                == TtsPrecision::Auto && service.vibevoice_runtime_label is Some;
            let label = tts::runtime_label(service, model, precision, host);
            &&& told ==> label == service.vibevoice_runtime_label
            &&& !told && 0 <= at < service.cells.len() && service.cells[at].key == key
                ==> label == match service.cells[at].loaded {
                Some(info) => Some(info.runtime_label),
                None => None,
            }
            &&& !told && (forall|i: int|
                0 <= i < service.cells.len() ==> (#[trigger] service.cells[i]).key != key)
                ==> label is None
        }),
{
    law_a_place_is_found_where_it_is(
        service.cells,
        service.next_cell,
        ModelCacheKey { voice_model: model, precision },
        at,
    );
}

/// How a backend stands, in words: that of VibeVoice 1.5B by what it needs, in this order,
/// and any other by whether its model is loaded.
pub proof fn law_how_a_backend_is_told(
    service: TtsView,
    model: VoiceModel,
    precision: TtsPrecision,
    host: Host,
)
    ensures
        ({
            let words = tts::backend_text(service, model, precision, host);
            let long_form = model == VoiceModel::VibeVoice;
            let fits = host.macos && precision == TtsPrecision::Auto;
            let installed = host.python_is_file && paths::parent(service.asset_root) is Some;
            &&& long_form && !host.macos ==> words
                == "VibeVoice 1.5B requires macOS because DevVoice only supports the MLX backend for this model."@
            &&& long_form && host.macos && precision != TtsPrecision::Auto ==> words
                == "VibeVoice 1.5B requires auto precision because it now runs only through the MLX backend."@
            &&& long_form && fits && service.vibevoice_runtime_label is Some ==> words
                == "MLX ready on "@ + service.vibevoice_runtime_label->0
            &&& long_form && fits && service.vibevoice_runtime_label is None && installed ==> words
                == "MLX installed, waiting for warmup."@
            &&& long_form && fits && service.vibevoice_runtime_label is None && !installed
                ==> words
                == "MLX runtime missing. DevVoice will provision it automatically on first 1.5B use."@
            &&& !long_form ==> match tts::runtime_label(service, model, precision, host) {
                Some(label) => words == "Built-in backend ready on "@ + label,
                None => words == match model {
                    VoiceModel::VibeVoiceRealtime => "VibeVoice Realtime 0.5B"@,
                    VoiceModel::VibeVoice => "VibeVoice 1.5B"@,
                    VoiceModel::ParlerTts => "Parler-TTS"@,
                    VoiceModel::Kokoro => "Kokoro-82M"@,
                } + " uses the built-in Rust backend."@,
            }
        }),
{
}

/// What VibeVoice 1.5B needs before it can be used: macOS, automatic precision and its
/// interpreter, which is set up in the data directory where it is missing.
pub proof fn law_what_vibevoice_needs(
    asset_root: Seq<char>,
    precision: TtsPrecision,
    host: Host,
)
    ensures
        ({
            let needs = tts::mlx_readiness(asset_root, precision, host);
            let fits = host.macos && precision == TtsPrecision::Auto;
            &&& !host.macos ==> needs == ReadinessView::Refused(
                "VibeVoice 1.5B now requires macOS because DevVoice only supports the MLX backend for this model."@,
            )
            &&& host.macos && precision != TtsPrecision::Auto ==> needs == ReadinessView::Refused(
                "VibeVoice 1.5B now requires auto precision because it runs only through the MLX backend."@,
            )
            &&& fits && paths::parent(asset_root) is None ==> needs == ReadinessView::Refused(
                "determine DevVoice data directory"@,
            )
            &&& fits && paths::parent(asset_root) is Some && host.python_is_file ==> needs is Ready
            &&& fits && paths::parent(asset_root) is Some && !host.python_is_file ==> needs
                == ReadinessView::Provision(paths::parent(asset_root)->0)
        }),
        tts::python_path(asset_root, host) is Some <==> host.macos && host.python_is_file
            && paths::parent(asset_root) is Some,
        tts::python_path(asset_root, host) is Some ==> tts::python_path(asset_root, host) == Some(
            text::joined_path(
                paths::parent(asset_root)->0,
                "vibevoice-mlx-venv/bin/python"@,
            ),
        ),
{
}

// ---------------------------------------------------------------------------
// Values that are kept
// ---------------------------------------------------------------------------

/// A value is kept under a text exactly if some entry has that text, and it is that of the
/// last such entry.
pub proof fn law_the_last_value_is_kept<T>(entries: Seq<(String, T)>, key: Seq<char>, at: int)
    ensures
        (forall|i: int| 0 <= i < entries.len() ==> (#[trigger] entries[i]).0@ != key)
            ==> !cache::kept_values(entries).contains_key(key),
        0 <= at < entries.len() && entries[at].0@ == key && (forall|i: int|
            at < i < entries.len() ==> (#[trigger] entries[i]).0@ != key) ==> {
            &&& cache::kept_values(entries).contains_key(key)
            &&& cache::kept_values(entries)[key] == entries[at].1
        },
{
    if forall|i: int| 0 <= i < entries.len() ==> (#[trigger] entries[i]).0@ != key {
        cache::lemma_not_found(entries, key);
    }
    if 0 <= at < entries.len() && entries[at].0@ == key && (forall|i: int|
        at < i < entries.len() ==> (#[trigger] entries[i]).0@ != key) {
        cache::lemma_found(entries, at);
    }
}

// ---------------------------------------------------------------------------
// The tray
// ---------------------------------------------------------------------------

/// The icon is black and may be recoloured exactly while nothing is going on; it is green
/// while a text is spoken, red for an error, and yellow while something is worked on.
pub proof fn law_what_the_icon_shows(status: AppStatus)
    ensures
        ({
            let (colour, template) = tray::icon(status);
            let resting = status == AppStatus::Idle || status == AppStatus::Ready;
            &&& template == resting
            &&& colour == if resting {
                Rgba { r: 0, g: 0, b: 0, a: 255 }
            } else if status == AppStatus::Speaking {
                Rgba { r: 34, g: 197, b: 94, a: 255 }
            } else if status == AppStatus::Error {
                Rgba { r: 239, g: 68, b: 68, a: 255 }
            } else {
                Rgba { r: 250, g: 204, b: 21, a: 255 }
            }
        }),
{
}

/// Every choice stands in the menu once, and a line divides off the last one.
pub proof fn law_every_choice_stands_in_the_menu_once(command: MenuCommand)
    ensures
        ({
            let menu = tray::menu_commands();
            &&& menu.contains(command)
            &&& menu.no_duplicates()
            &&& tray::follows_line(command) <==> command == menu[menu.len() - 1]
        }),
{
    let menu = tray::menu_commands();
    match command {
        MenuCommand::Show => assert(menu[0] == command),
        MenuCommand::QueueSelection => assert(menu[1] == command),
        MenuCommand::SkipNext => assert(menu[2] == command),
        MenuCommand::Pause => assert(menu[3] == command),
        MenuCommand::Stop => assert(menu[4] == command),
        MenuCommand::OpenLog => assert(menu[5] == command),
        MenuCommand::Quit => assert(menu[6] == command),
    }
}

} // verus!
