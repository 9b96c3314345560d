//! What holds of the application whatever is done to it: no window is left
//! without a tab, window ids stay distinct, and the application is over
//! exactly when its last window went.

use crate::state::app::AppView;
use crate::state::settings::AppSettingsView;
use crate::state::window::StateError;
use crate::state::window_laws::lemma_close_tab_well_formed;
use crate::state::window_laws::lemma_closes_when_empty;
use crate::state::window_laws::lemma_created_well_formed;
use crate::ui::AppAction;
use vstd::prelude::*;

verus! {

/// A position of a window id is the only one.
pub proof fn lemma_window_position_unique(app: AppView, id: nat, index: int)
    requires
        app.is_position(id, index),
    ensures
        app.position(id) == Some(index),
        app.has_window(id),
{
    let chosen = choose|i: int| app.is_position(id, i);
    assert(app.is_position(id, chosen));
    if chosen < index {
        assert(app.windows[chosen].id != id);
    }
    if index < chosen {
        assert(app.windows[index].id != id);
    }
}

/// An id that no window has has no position.
pub proof fn lemma_window_position_none(app: AppView, id: nat)
    requires
        forall|j: int| 0 <= j < app.windows.len() ==> (#[trigger] app.windows[j]).id != id,
    ensures
        app.position(id) is None,
        !app.has_window(id),
{
}

/// The application meets its invariant at its start.
pub proof fn lemma_app_created_well_formed(
    settings: AppSettingsView,
    fetched: Result<Seq<char>, Seq<char>>,
)
    ensures
        AppView::created(settings, fetched).well_formed(),
{
    lemma_created_well_formed(0, settings, fetched);
}

/// Opening a window keeps the invariant.
pub proof fn lemma_new_window_well_formed(app: AppView, fetched: Result<Seq<char>, Seq<char>>)
    requires
        app.well_formed(),
    ensures
        app.with_new_window(fetched).well_formed(),
        !app.has_window(app.next_window_id),
{
    lemma_created_well_formed(app.next_window_id, app.settings, fetched);
    let after = app.with_new_window(fetched);
    assert forall|i: int| 0 <= i < after.windows.len() implies (
    #[trigger] after.windows[i]).well_formed() && after.windows[i].tabs.len() > 0 by {
        if i < app.windows.len() {
            assert(after.windows[i] == app.windows[i]);
        }
    }
    if app.has_window(app.next_window_id) {
        let i = choose|i: int|
            0 <= i < app.windows.len() && #[trigger] app.windows[i].id == app.next_window_id;
        assert(app.windows[i].id < app.next_window_id);
    }
}

/// Removing the window at `index` keeps the invariant.
pub proof fn lemma_remove_window_well_formed(app: AppView, index: int)
    requires
        app.well_formed(),
        0 <= index < app.windows.len(),
    ensures
        (AppView { windows: app.windows.remove(index), ..app }).well_formed(),
{
    let after = AppView { windows: app.windows.remove(index), ..app };
    assert forall|i: int| 0 <= i < after.windows.len() implies #[trigger] after.windows[i]
        == app.windows[if i < index {
        i
    } else {
        i + 1
    }] by {}
    assert forall|i: int, j: int| 0 <= i < j < after.windows.len() implies (
    #[trigger] after.windows[i]).id != (#[trigger] after.windows[j]).id by {
        let from_i = if i < index {
            i
        } else {
            i + 1
        };
        let from_j = if j < index {
            j
        } else {
            j + 1
        };
        assert(app.windows[from_i].id != app.windows[from_j].id);
    }
}

/// Closing a window keeps the invariant; a window that is not there is
/// reported and nothing changes.
pub proof fn lemma_close_window_well_formed(app: AppView, id: nat)
    requires
        app.well_formed(),
    ensures
        app.with_closed_window(id).0.well_formed(),
        !app.has_window(id) ==> app.with_closed_window(id) == (
            app,
            Err::<(), _>(StateError::WindowNotFound),
        ),
{
    match app.position(id) {
        None => {},
        Some(index) => {
            assert(app.is_position(id, index));
            lemma_remove_window_well_formed(app, index);
        },
    }
    if !app.has_window(id) && app.position(id) is Some {
        let index = choose|i: int| app.is_position(id, i);
        assert(app.windows[index].id == id);
    }
}

/// Closing a tab through the application keeps the invariant: no window is
/// left without a tab, for the window that lost its last tab is gone. The
/// application is over exactly when its last window went.
pub proof fn lemma_app_close_tab_well_formed(app: AppView, window_id: nat, tab_id: nat)
    requires
        app.well_formed(),
    ensures
        app.with_closed_tab(window_id, tab_id).0.well_formed(),
        app.with_closed_tab(window_id, tab_id).1 == Ok::<_, StateError>(AppAction::CloseApp)
            <==> app.with_closed_tab(window_id, tab_id).1 is Ok && app.with_closed_tab(
            window_id,
            tab_id,
        ).0.windows.len() == 0,
        app.with_closed_tab(window_id, tab_id).1 is Err ==> app.with_closed_tab(
            window_id,
            tab_id,
        ).0 == app,
{
    match app.position(window_id) {
        None => {},
        Some(index) => {
            assert(app.is_position(window_id, index));
            let window = app.windows[index];
            lemma_close_tab_well_formed(window, tab_id);
            lemma_closes_when_empty(window, tab_id);
            let (closed, outcome) = window.with_closed_tab(tab_id);
            match outcome {
                Err(_) => {},
                Ok(true) => {
                    lemma_remove_window_well_formed(app, index);
                },
                Ok(false) => {
                    let after = AppView { windows: app.windows.update(index, closed), ..app };
                    assert(closed.id == window.id);
                    assert forall|i: int| 0 <= i < after.windows.len() implies (
                    #[trigger] after.windows[i]).id == app.windows[i].id by {}
                    assert forall|i: int, j: int| 0 <= i < j < after.windows.len() implies (
                    #[trigger] after.windows[i]).id != (#[trigger] after.windows[j]).id by {
                        assert(app.windows[i].id != app.windows[j].id);
                    }
                    assert forall|i: int| 0 <= i < after.windows.len() implies (
                    #[trigger] after.windows[i]).well_formed() && after.windows[i].tabs.len()
                        > 0 by {
                        if i != index {
                            assert(after.windows[i] == app.windows[i]);
                        }
                    }
                    assert forall|i: int| 0 <= i < after.windows.len() implies (
                    #[trigger] after.windows[i]).id < after.next_window_id by {
                        assert(app.windows[i].id < app.next_window_id);
                    }
                },
            }
        },
    }
}

} // verus!
