//! What holds of a window whatever is done to it: the invariant is kept,
//! ids stay and are never handed out twice, and closing a tab leaves the
//! right tab shown.

use crate::state::settings::AppSettingsView;
use crate::state::tab::SearchFailure;
use crate::state::tab::TabView;
use crate::state::window::ids_of;
use crate::state::window::only_shown;
use crate::state::window::shown_count;
use crate::state::window::successor;
use crate::state::window::StateError;
use crate::state::window::WindowView;
use vstd::prelude::*;

verus! {

/// Where the tab that stands at `index` after the tab at `removed` was taken
/// out stood before.
pub open spec fn origin(index: int, removed: int) -> int {
    if index < removed {
        index
    } else {
        index + 1
    }
}

/// Where the tab that stood at `index` stands after the tab at `removed`,
/// another one, was taken out.
pub open spec fn landing(index: int, removed: int) -> int {
    if index < removed {
        index
    } else {
        index - 1
    }
}

/// A position of an id is the only one.
pub proof fn lemma_position_unique(window: WindowView, id: nat, index: int)
    requires
        window.is_position(id, index),
    ensures
        window.position(id) == Some(index),
        window.has_tab(id),
{
    let chosen = choose|i: int| window.is_position(id, i);
    assert(window.is_position(id, chosen));
    if chosen < index {
        assert(window.tabs[chosen].id != id);
    }
    if index < chosen {
        assert(window.tabs[index].id != id);
    }
}

/// An id that no tab has has no position.
pub proof fn lemma_position_none(window: WindowView, id: nat)
    requires
        forall|j: int| 0 <= j < window.tabs.len() ==> (#[trigger] window.tabs[j]).id != id,
    ensures
        window.position(id) is None,
        !window.has_tab(id),
{
}

/// A position of the first shown tab is the only one.
pub proof fn lemma_active_position_unique(window: WindowView, index: int)
    requires
        window.is_active_position(index),
    ensures
        window.active_position() == Some(index),
{
    let chosen = choose|i: int| window.is_active_position(i);
    assert(window.is_active_position(chosen));
    if chosen < index {
        assert(!window.tabs[chosen].active);
    }
    if index < chosen {
        assert(!window.tabs[index].active);
    }
}

/// Among the first `bound` tabs, one with the id means a first one with it.
proof fn lemma_has_tab_has_position(window: WindowView, id: nat, bound: int)
    requires
        0 <= bound <= window.tabs.len(),
        exists|i: int| 0 <= i < bound && #[trigger] window.tabs[i].id == id,
    ensures
        exists|i: int| window.is_position(id, i),
    decreases bound,
{
    let found = choose|i: int| 0 <= i < bound && #[trigger] window.tabs[i].id == id;
    if exists|i: int| 0 <= i < found && #[trigger] window.tabs[i].id == id {
        lemma_has_tab_has_position(window, id, found);
    } else {
        assert(window.is_position(id, found));
    }
}

/// A window whose tabs all stood, with the same ids, in an earlier one
/// brings no retired id back.
pub proof fn lemma_same_ids_retire_for_good(window: WindowView, after: WindowView)
    requires
        window.next_tab_id <= after.next_tab_id,
        forall|j: int| 0 <= j < after.tabs.len() ==> window.has_tab((#[trigger] after.tabs[j]).id),
    ensures
        window.retires_for_good(after),
{
    assert forall|id: nat| id < window.next_tab_id && !window.has_tab(id) implies !(
    #[trigger] after.has_tab(id)) by {
        if after.has_tab(id) {
            let j = choose|j: int| 0 <= j < after.tabs.len() && #[trigger] after.tabs[j].id == id;
            assert(window.has_tab(after.tabs[j].id));
        }
    }
}

/// Where no tab is shown, the number of shown tabs is zero.
pub proof fn lemma_none_shown_counts_zero(tabs: Seq<TabView>)
    requires
        forall|j: int| 0 <= j < tabs.len() ==> !(#[trigger] tabs[j]).active,
    ensures
        shown_count(tabs) == 0,
    decreases tabs.len(),
{
    if tabs.len() > 0 {
        let rest = tabs.drop_last();
        assert forall|j: int| 0 <= j < rest.len() implies !(#[trigger] rest[j]).active by {
            assert(rest[j] == tabs[j]);
        }
        lemma_none_shown_counts_zero(rest);
    }
}

/// Where the tab at `index` is shown and no other is, the number of shown
/// tabs is one.
pub proof fn lemma_only_active_counts_one(window: WindowView, index: int)
    requires
        window.is_only_active(index),
    ensures
        shown_count(window.tabs) == 1,
    decreases window.tabs.len(),
{
    let rest = window.tabs.drop_last();
    if index == window.tabs.len() - 1 {
        assert forall|j: int| 0 <= j < rest.len() implies !(#[trigger] rest[j]).active by {
            assert(rest[j] == window.tabs[j]);
            if window.tabs[j].active {
                assert(j == index);
            }
        }
        lemma_none_shown_counts_zero(rest);
    } else {
        let shorter = WindowView { tabs: rest, ..window };
        assert(shorter.is_only_active(index)) by {
            assert(rest[index] == window.tabs[index]);
            assert forall|j: int| 0 <= j < rest.len() && (#[trigger] rest[j]).active implies j
                == index by {
                assert(rest[j] == window.tabs[j]);
            }
        }
        lemma_only_active_counts_one(shorter, index);
        if window.tabs.last().active {
            assert(window.tabs[window.tabs.len() - 1].active);
        }
    }
}

/// A window that meets the invariant and has a tab shows exactly one.
pub proof fn lemma_well_formed_shows_one(window: WindowView)
    requires
        window.well_formed(),
        window.tabs.len() > 0,
    ensures
        shown_count(window.tabs) == 1,
{
    let index = choose|i: int| window.is_only_active(i);
    lemma_only_active_counts_one(window, index);
}

/// Opening a tab changes no id and no page of the tabs that were there,
/// hands the new tab the id that was next, and brings no retired id back.
/// Where every id in use was handed out by the counter, the new id is above
/// them all.
pub proof fn lemma_new_tab_keeps_ids(window: WindowView, fetched: Result<Seq<char>, Seq<char>>)
    ensures
        ids_of(window.with_new_tab(fetched).tabs) == ids_of(window.tabs).push(window.next_tab_id),
        forall|i: int|
            0 <= i < window.tabs.len() ==> #[trigger] window.with_new_tab(fetched).tabs[i]
                == window.tabs[i].with_active(false),
        window.retires_for_good(window.with_new_tab(fetched)),
        window.ids_issued() ==> forall|i: int|
            0 <= i < window.tabs.len() ==> (#[trigger] window.with_new_tab(fetched).tabs[i]).id
                < window.with_new_tab(fetched).tabs.last().id,
        window.ids_issued() ==> !window.has_tab(window.next_tab_id),
{
    let after = window.with_new_tab(fetched);
    lemma_new_tab_is_shown(window, fetched);
    assert forall|id: nat| id < window.next_tab_id && !window.has_tab(id) implies !(
    #[trigger] after.has_tab(id)) by {
        if after.has_tab(id) {
            let i = choose|i: int| 0 <= i < after.tabs.len() && #[trigger] after.tabs[i].id == id;
            assert(window.tabs[i].id == id);
        }
    }
    if window.ids_issued() {
        assert forall|i: int| 0 <= i < window.tabs.len() implies (#[trigger] after.tabs[i]).id
            < after.tabs.last().id by {
            assert(window.tabs[i].id < window.next_tab_id);
        }
        if window.has_tab(window.next_tab_id) {
            let i = choose|i: int|
                0 <= i < window.tabs.len() && #[trigger] window.tabs[i].id == window.next_tab_id;
            assert(window.tabs[i].id < window.next_tab_id);
        }
    }
}

/// A window that has just been opened meets the invariant, and its one
/// tab is shown.
pub proof fn lemma_created_well_formed(
    id: nat,
    settings: AppSettingsView,
    fetched: Result<Seq<char>, Seq<char>>,
)
    ensures
        WindowView::created(id, settings, fetched).well_formed(),
        WindowView::created(id, settings, fetched).is_only_active(0),
{
    let window = WindowView::created(id, settings, fetched);
    assert(window.is_only_active(0));
}

/// After a tab was opened it is the one shown, it stands last with the id
/// that was next, and every tab that was there before is hidden and
/// otherwise as it was.
pub proof fn lemma_new_tab_is_shown(window: WindowView, fetched: Result<Seq<char>, Seq<char>>)
    ensures
        ({
            let after = window.with_new_tab(fetched);
            &&& after.tabs.len() == window.tabs.len() + 1
            &&& after.tabs.last() == TabView::created(window.next_tab_id, window.settings, fetched)
            &&& after.tabs.last().active
            &&& after.tabs.last().id == window.next_tab_id
            &&& forall|i: int|
                0 <= i < window.tabs.len() ==> #[trigger] after.tabs[i]
                    == window.tabs[i].with_active(false)
            &&& after.is_only_active(window.tabs.len() as int)
            &&& ids_of(after.tabs) == ids_of(window.tabs).push(window.next_tab_id)
        }),
{
    let after = window.with_new_tab(fetched);
    assert(ids_of(after.tabs) =~= ids_of(window.tabs).push(window.next_tab_id));
}

/// Opening a tab keeps the invariant; the id it hands out was in use
/// neither then nor ever before.
pub proof fn lemma_new_tab_well_formed(window: WindowView, fetched: Result<Seq<char>, Seq<char>>)
    requires
        window.well_formed(),
    ensures
        window.with_new_tab(fetched).well_formed(),
        window.retires_for_good(window.with_new_tab(fetched)),
        !window.has_tab(window.next_tab_id),
{
    lemma_new_tab_is_shown(window, fetched);
    lemma_new_tab_keeps_ids(window, fetched);
}

/// Showing a tab of the window keeps the invariant: that tab is then the
/// one shown, and no tab changes but in being shown or hidden.
pub proof fn lemma_active_tab_well_formed(window: WindowView, id: nat)
    requires
        window.ids_distinct(),
        window.ids_issued(),
        window.has_tab(id),
    ensures
        window.with_active_tab(id).well_formed(),
        window.position(id) matches Some(index) && window.with_active_tab(id).is_only_active(index),
{
    let after = window.with_active_tab(id);
    lemma_has_tab_has_position(window, id, window.tabs.len() as int);
    let index = choose|i: int| window.is_position(id, i);
    lemma_position_unique(window, id, index);
    assert(after.is_only_active(index)) by {
        assert forall|j: int|
            0 <= j < after.tabs.len() && (#[trigger] after.tabs[j]).active implies j == index by {
            assert(window.tabs[j].id == id);
        }
    }
}

/// Showing a tab changes no id and brings no retired id back, whatever the
/// id asked for.
pub proof fn lemma_active_tab_keeps_ids(window: WindowView, id: nat)
    ensures
        ids_of(window.with_active_tab(id).tabs) == ids_of(window.tabs),
        window.retires_for_good(window.with_active_tab(id)),
{
    let after = window.with_active_tab(id);
    assert(ids_of(after.tabs) =~= ids_of(window.tabs));
    assert forall|j: int| 0 <= j < after.tabs.len() implies window.has_tab(
        (#[trigger] after.tabs[j]).id,
    ) by {
        assert(window.tabs[j].id == after.tabs[j].id);
    }
    lemma_same_ids_retire_for_good(window, after);
}

/// Putting another value in a tab's place changes no id and brings no
/// retired id back as long as the value has the tab's id; it keeps the
/// invariant as long as the value is also shown or hidden as the tab was.
/// This is what a caller of `get_active_tab_mut` has to see to.
pub proof fn lemma_replaced_tab_well_formed(window: WindowView, index: int, tab: TabView)
    requires
        0 <= index < window.tabs.len(),
        tab.id == window.tabs[index].id,
    ensures
        ids_of(window.tabs.update(index, tab)) == ids_of(window.tabs),
        window.retires_for_good(WindowView { tabs: window.tabs.update(index, tab), ..window }),
        window.well_formed() && tab.active == window.tabs[index].active ==> (WindowView {
            tabs: window.tabs.update(index, tab),
            ..window
        }).well_formed(),
{
    let after = WindowView { tabs: window.tabs.update(index, tab), ..window };
    assert forall|j: int| 0 <= j < window.tabs.len() implies (#[trigger] after.tabs[j]).id
        == window.tabs[j].id by {}
    assert(ids_of(after.tabs) =~= ids_of(window.tabs));
    assert forall|j: int| 0 <= j < after.tabs.len() implies window.has_tab(
        (#[trigger] after.tabs[j]).id,
    ) by {
        assert(window.tabs[j].id == after.tabs[j].id);
    }
    lemma_same_ids_retire_for_good(window, after);
    if window.well_formed() && tab.active == window.tabs[index].active {
        let shown = choose|i: int| window.is_only_active(i);
        assert(after.is_only_active(shown)) by {
            assert forall|j: int|
                0 <= j < after.tabs.len() && (#[trigger] after.tabs[j]).active implies j
                == shown by {
                assert(window.tabs[j].active);
            }
        }
        assert(after.ids_distinct()) by {
            assert forall|i: int, j: int| 0 <= i < j < after.tabs.len() implies (
            #[trigger] after.tabs[i]).id != (#[trigger] after.tabs[j]).id by {
                assert(window.tabs[i].id != window.tabs[j].id);
            }
        }
        assert(after.ids_issued()) by {
            assert forall|i: int| 0 <= i < after.tabs.len() implies (#[trigger] after.tabs[i]).id
                < after.next_tab_id by {
                assert(window.tabs[i].id < window.next_tab_id);
            }
        }
    }
}

/// A search keeps the invariant: it changes neither an id nor which tab
/// is shown, and brings no retired id back.
pub proof fn lemma_search_well_formed(
    window: WindowView,
    id: nat,
    fetched: Result<Seq<char>, Seq<char>>,
)
    ensures
        window.well_formed() ==> window.with_search(id, fetched).0.well_formed(),
        ids_of(window.with_search(id, fetched).0.tabs) == ids_of(window.tabs),
        window.retires_for_good(window.with_search(id, fetched).0),
        window.with_search(id, fetched).0.tabs.len() == window.tabs.len(),
        forall|j: int|
            0 <= j < window.tabs.len() ==> (#[trigger] window.with_search(id, fetched).0.tabs[j]).active
                == window.tabs[j].active,
{
    let after = window.with_search(id, fetched).0;
    assert forall|j: int| 0 <= j < window.tabs.len() implies window.has_tab(
        (#[trigger] window.tabs[j]).id,
    ) by {}
    lemma_same_ids_retire_for_good(window, window);
    match window.position(id) {
        None => {},
        Some(index) => {
            assert(window.is_position(id, index));
            match window.tabs[index].searched(fetched) {
                Err(_) => {},
                Ok(tab) => {
                    lemma_replaced_tab_well_formed(window, index, tab);
                    assert forall|j: int| 0 <= j < window.tabs.len() implies (
                    #[trigger] after.tabs[j]).active == window.tabs[j].active by {}
                },
            }
        },
    }
}

/// With an id that no tab has, closing and searching report that the tab
/// was not found and leave the window as it was.
pub proof fn lemma_unknown_id_changes_nothing(
    window: WindowView,
    id: nat,
    fetched: Result<Seq<char>, Seq<char>>,
)
    requires
        !window.has_tab(id),
    ensures
        window.with_closed_tab(id) == (window, Err::<bool, _>(StateError::TabNotFound)),
        window.with_search(id, fetched) == (
            window,
            Err::<Option<SearchFailure>, _>(StateError::TabNotFound),
        ),
{
    if window.position(id) is Some {
        let index = choose|i: int| window.is_position(id, i);
        assert(window.tabs[index].id == id);
    }
}

/// Closing and searching report a missing tab only for an id that no tab
/// has.
pub proof fn lemma_known_id_is_found(
    window: WindowView,
    id: nat,
    fetched: Result<Seq<char>, Seq<char>>,
)
    requires
        window.has_tab(id),
    ensures
        window.position(id) is Some,
        window.with_closed_tab(id).1 is Ok,
        window.with_search(id, fetched).1 is Ok,
{
    lemma_has_tab_has_position(window, id, window.tabs.len() as int);
}

/// Closing the only tab of a window, which is shown, empties the window
/// and tells it to close.
pub proof fn lemma_closing_last_tab(window: WindowView)
    requires
        window.well_formed(),
        window.tabs.len() == 1,
    ensures
        window.with_closed_tab(window.tabs[0].id) == (
            WindowView { tabs: Seq::empty(), ..window },
            Ok::<_, StateError>(true),
        ),
{
    let id = window.tabs[0].id;
    assert(window.is_position(id, 0));
    lemma_position_unique(window, id, 0);
    let shown = choose|i: int| window.is_only_active(i);
    assert(shown == 0);
    assert(window.tabs.remove(0) =~= Seq::empty());
}

/// The window is told to close exactly when its last tab was closed; told
/// to stay, it has a tab left.
pub proof fn lemma_closes_when_empty(window: WindowView, id: nat)
    requires
        window.well_formed(),
    ensures
        window.with_closed_tab(id).1 == Ok::<_, StateError>(true) <==> window.has_tab(id)
            && window.tabs.len() == 1,
        window.with_closed_tab(id).1 == Ok::<_, StateError>(true) ==> window.with_closed_tab(
            id,
        ).0.tabs.len() == 0,
        window.with_closed_tab(id).1 == Ok::<_, StateError>(false) ==> window.with_closed_tab(
            id,
        ).0.tabs.len() == window.tabs.len() - 1 > 0,
{
    if window.has_tab(id) {
        lemma_known_id_is_found(window, id, Err(Seq::empty()));
        let index = window.position(id).unwrap();
        assert(window.is_position(id, index));
        if window.tabs.len() == 1 {
            assert(index == 0);
            lemma_closing_last_tab(window);
        }
    } else {
        lemma_unknown_id_changes_nothing(window, id, Err(Seq::empty()));
    }
}

/// Closing a hidden tab tells the window to stay and takes that tab out
/// and nothing else: every other tab is as it was, so the shown tab is still
/// the shown tab.
pub proof fn lemma_closing_hidden_tab(window: WindowView, id: nat, index: int)
    requires
        window.is_position(id, index),
        !window.tabs[index].active,
    ensures
        window.with_closed_tab(id) == (
            WindowView { tabs: window.tabs.remove(index), ..window },
            Ok::<_, StateError>(false),
        ),
        window.well_formed() ==> ({
            let after = window.with_closed_tab(id).0;
            &&& window.active_position() matches Some(shown) && shown != index
                && after.is_only_active(landing(shown, index))
                && after.active_position() == Some(landing(shown, index))
                && after.tabs[landing(shown, index)] == window.tabs[shown]
        }),
{
    lemma_position_unique(window, id, index);
    if window.well_formed() {
        let after = window.with_closed_tab(id).0;
        let shown = choose|i: int| window.is_only_active(i);
        assert(window.is_active_position(shown));
        lemma_active_position_unique(window, shown);
        let moved = landing(shown, index);
        assert(after.tabs[moved] == window.tabs[shown]);
        assert(after.is_only_active(moved)) by {
            assert forall|j: int|
                0 <= j < after.tabs.len() && (#[trigger] after.tabs[j]).active implies j
                == moved by {
                assert(after.tabs[j] == window.tabs[origin(j, index)]);
            }
        }
        assert(after.is_active_position(moved));
        lemma_active_position_unique(after, moved);
    }
}

/// Closing the shown tab while others remain tells the window to stay and
/// shows the tab that stood before it if it stood last, and the tab that
/// stood after it otherwise.
pub proof fn lemma_closing_shown_tab(window: WindowView, id: nat, index: int)
    requires
        window.well_formed(),
        window.is_position(id, index),
        window.tabs[index].active,
        window.tabs.len() > 1,
    ensures
        window.with_closed_tab(id).1 == Ok::<_, StateError>(false),
        ({
            let after = window.with_closed_tab(id).0;
            let heir = successor(window.tabs.len() as int, index);
            &&& 0 <= heir < window.tabs.len()
            &&& heir != index
            &&& after.tabs.len() == window.tabs.len() - 1
            &&& after.is_only_active(landing(heir, index))
            &&& after.tabs[landing(heir, index)] == window.tabs[heir].with_active(true)
        }),
{
    lemma_position_unique(window, id, index);
    let after = window.with_closed_tab(id).0;
    let heir = successor(window.tabs.len() as int, index);
    let shown = only_shown(window.tabs, window.tabs[heir].id);
    let moved = landing(heir, index);
    assert(after.tabs == shown.remove(index));
    assert(after.tabs[moved] == shown[heir]);
    assert(after.is_only_active(moved)) by {
        assert forall|j: int|
            0 <= j < after.tabs.len() && (#[trigger] after.tabs[j]).active implies j == moved by {
            let before = origin(j, index);
            assert(after.tabs[j] == shown[before]);
            if before < heir {
                assert(window.tabs[before].id != window.tabs[heir].id);
            }
            if heir < before {
                assert(window.tabs[heir].id != window.tabs[before].id);
            }
        }
    }
}

/// Closing a tab keeps the invariant, keeps the ids and the order of the
/// tabs that stay, and brings no retired id back.
pub proof fn lemma_close_tab_well_formed(window: WindowView, id: nat)
    requires
        window.well_formed(),
    ensures
        window.with_closed_tab(id).0.well_formed(),
        window.retires_for_good(window.with_closed_tab(id).0),
        match window.position(id) {
            Some(index) => ids_of(window.with_closed_tab(id).0.tabs) == ids_of(window.tabs).remove(
                index,
            ),
            None => window.with_closed_tab(id).0 == window,
        },
{
    let after = window.with_closed_tab(id).0;
    match window.position(id) {
        None => {
            assert forall|j: int| 0 <= j < after.tabs.len() implies window.has_tab(
                (#[trigger] after.tabs[j]).id,
            ) by {}
            lemma_same_ids_retire_for_good(window, after);
        },
        Some(index) => {
            assert(window.is_position(id, index));
            assert forall|j: int| 0 <= j < after.tabs.len() implies (#[trigger] after.tabs[j]).id
                == window.tabs[origin(j, index)].id by {}
            assert(ids_of(after.tabs) =~= ids_of(window.tabs).remove(index));
            assert(after.ids_distinct()) by {
                assert forall|i: int, j: int| 0 <= i < j < after.tabs.len() implies (
                #[trigger] after.tabs[i]).id != (#[trigger] after.tabs[j]).id by {
                    assert(window.tabs[origin(i, index)].id != window.tabs[origin(j, index)].id);
                }
            }
            assert(after.ids_issued()) by {
                assert forall|i: int| 0 <= i < after.tabs.len() implies (
                #[trigger] after.tabs[i]).id < after.next_tab_id by {
                    assert(window.tabs[origin(i, index)].id < window.next_tab_id);
                }
            }
            assert forall|j: int| 0 <= j < after.tabs.len() implies window.has_tab(
                (#[trigger] after.tabs[j]).id,
            ) by {
                assert(window.tabs[origin(j, index)].id == after.tabs[j].id);
            }
            lemma_same_ids_retire_for_good(window, after);
            if !window.tabs[index].active {
                lemma_closing_hidden_tab(window, id, index);
            } else if window.tabs.len() > 1 {
                lemma_closing_shown_tab(window, id, index);
            }
        },
    }
}

} // verus!
