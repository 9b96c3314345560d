//! A window: its tabs in tab-bar order, one of them shown.

use crate::outside::share;
use crate::state::settings::AppSettings;
use crate::state::settings::AppSettingsView;
use crate::state::tab::fetched_view;
use crate::state::tab::SearchError;
use crate::state::tab::SearchFailure;
use crate::state::tab::Tab;
use crate::state::tab::TabState;
use crate::state::tab::TabView;
use crate::state::window_laws::lemma_active_position_unique;
use crate::state::window_laws::lemma_active_tab_well_formed;
use crate::state::window_laws::lemma_close_tab_well_formed;
use crate::state::window_laws::lemma_created_well_formed;
use crate::state::window_laws::lemma_known_id_is_found;
use crate::state::window_laws::lemma_new_tab_is_shown;
use crate::state::window_laws::lemma_new_tab_keeps_ids;
use crate::state::window_laws::lemma_only_active_counts_one;
use crate::state::window_laws::lemma_new_tab_well_formed;
use crate::state::window_laws::lemma_position_none;
use crate::state::window_laws::lemma_position_unique;
use crate::state::window_laws::lemma_search_well_formed;
use crate::state::window_laws::lemma_unknown_id_changes_nothing;
use std::sync::Arc;
use vstd::prelude::*;

verus! {

/// Why a window or the application could not do what was asked.
#[derive(Debug, Clone, Copy, PartialEq, Eq, Structural)]
pub enum StateError {
    /// The window has no tab with the given id.
    TabNotFound,
    /// No tab of the window is shown.
    NoActiveTab,
    /// The application has no window with the given id.
    WindowNotFound,
}

impl StateError {
    /// The sentence shown to the user.
    pub open spec fn spec_message(self) -> Seq<char> {
        match self {
            StateError::TabNotFound => "Tab not found"@,
            StateError::NoActiveTab => "No active tab found"@,
            StateError::WindowNotFound => "Window not found"@,
        }
    }

    /// The sentence shown to the user.
    pub fn message(&self) -> (text: String)
        ensures
            text@ == self.spec_message(),
    {
        match self {
            StateError::TabNotFound => String::from_str("Tab not found"),
            StateError::NoActiveTab => String::from_str("No active tab found"),
            StateError::WindowNotFound => String::from_str("Window not found"),
        }
    }
}

/// `tabs` with every tab hidden.
pub open spec fn all_hidden(tabs: Seq<TabView>) -> Seq<TabView> {
    tabs.map_values(|tab: TabView| tab.with_active(false))
}

/// `tabs` with the tabs of the given id shown and every other hidden.
pub open spec fn only_shown(tabs: Seq<TabView>, id: nat) -> Seq<TabView> {
    tabs.map_values(|tab: TabView| tab.with_active(tab.id == id))
}

/// How many of `tabs` are shown.
pub open spec fn shown_count(tabs: Seq<TabView>) -> nat
    decreases tabs.len(),
{
    if tabs.len() == 0 {
        0
    } else if tabs.last().active {
        shown_count(tabs.drop_last()) + 1
    } else {
        shown_count(tabs.drop_last())
    }
}

/// The ids of `tabs`, in order.
pub open spec fn ids_of(tabs: Seq<TabView>) -> Seq<nat> {
    tabs.map_values(|tab: TabView| tab.id)
}

/// The index of the tab that takes over when the shown tab at `index`, one
/// of `count` tabs, is closed: the one before it if it is the last, else the
/// one after it.
pub open spec fn successor(count: int, index: int) -> int {
    if index == count - 1 {
        index - 1
    } else {
        index + 1
    }
}

/// A window as a mathematical value.
#[verifier::ext_equal]
pub struct WindowView {
    pub id: nat,
    pub tabs: Seq<TabView>,
    pub settings: AppSettingsView,
    /// The id that the next new tab gets.
    pub next_tab_id: nat,
}

impl WindowView {
    /// Some tab has this id.
    pub open spec fn has_tab(self, id: nat) -> bool {
        exists|i: int| 0 <= i < self.tabs.len() && #[trigger] self.tabs[i].id == id
    }

    /// `index` is where the first tab with this id stands.
    pub open spec fn is_position(self, id: nat, index: int) -> bool {
        &&& 0 <= index < self.tabs.len()
        &&& self.tabs[index].id == id
        &&& forall|j: int| 0 <= j < index ==> #[trigger] self.tabs[j].id != id
    }

    /// Where the first tab with this id stands.
    pub open spec fn position(self, id: nat) -> Option<int> {
        if exists|i: int| self.is_position(id, i) {
            Some(choose|i: int| self.is_position(id, i))
        } else {
            None
        }
    }

    /// `index` is where the first shown tab stands.
    pub open spec fn is_active_position(self, index: int) -> bool {
        &&& 0 <= index < self.tabs.len()
        &&& self.tabs[index].active
        &&& forall|j: int| 0 <= j < index ==> !(#[trigger] self.tabs[j]).active
    }

    /// Where the first shown tab stands.
    pub open spec fn active_position(self) -> Option<int> {
        if exists|i: int| self.is_active_position(i) {
            Some(choose|i: int| self.is_active_position(i))
        } else {
            None
        }
    }

    /// The tab at `index` is shown and no other is.
    pub open spec fn is_only_active(self, index: int) -> bool {
        &&& 0 <= index < self.tabs.len()
        &&& self.tabs[index].active
        &&& forall|j: int|
            0 <= j < self.tabs.len() && (#[trigger] self.tabs[j]).active ==> j == index
    }

    /// Unless the window is empty, exactly one tab is shown.
    pub open spec fn one_active(self) -> bool {
        self.tabs.len() > 0 ==> exists|i: int| self.is_only_active(i)
    }

    /// No id that was retired in `self` is in use in `after`, and the
    /// counter of `after` is no lower: an id, once given up, never comes back.
    pub open spec fn retires_for_good(self, after: WindowView) -> bool {
        &&& self.next_tab_id <= after.next_tab_id
        &&& forall|id: nat|
            id < self.next_tab_id && !self.has_tab(id) ==> !(#[trigger] after.has_tab(id))
    }

    /// No two tabs share an id.
    pub open spec fn ids_distinct(self) -> bool {
        forall|i: int, j: int|
            0 <= i < j < self.tabs.len() ==> (#[trigger] self.tabs[i]).id != (
            #[trigger] self.tabs[j]).id
    }

    /// Every id in use was handed out by the counter.
    pub open spec fn ids_issued(self) -> bool {
        forall|i: int| 0 <= i < self.tabs.len() ==> (#[trigger] self.tabs[i]).id < self.next_tab_id
    }

    /// The window's invariant.
    pub open spec fn well_formed(self) -> bool {
        &&& self.one_active()
        &&& self.ids_distinct()
        &&& self.ids_issued()
    }

    /// A new window: one tab, with id 0, which opened the default address.
    pub open spec fn created(
        id: nat,
        settings: AppSettingsView,
        fetched: Result<Seq<char>, Seq<char>>,
    ) -> WindowView {
        WindowView {
            id,
            tabs: seq![TabView::created(0, settings, fetched)],
            settings,
            next_tab_id: 1,
        }
    }

    /// The window after a new tab was opened: the new tab stands last, has
    /// the next id and is the one shown.
    pub open spec fn with_new_tab(self, fetched: Result<Seq<char>, Seq<char>>) -> WindowView {
        WindowView {
            tabs: all_hidden(self.tabs).push(
                TabView::created(self.next_tab_id, self.settings, fetched),
            ),
            next_tab_id: self.next_tab_id + 1,
            ..self
        }
    }

    /// The window with the tabs of the given id shown and every other hidden.
    pub open spec fn with_active_tab(self, id: nat) -> WindowView {
        WindowView { tabs: only_shown(self.tabs, id), ..self }
    }

    /// The window after a search in the tab with the given id, and what the
    /// search reported. A search that fails changes nothing.
    pub open spec fn with_search(self, id: nat, fetched: Result<Seq<char>, Seq<char>>) -> (
        WindowView,
        Result<Option<SearchFailure>, StateError>,
    ) {
        match self.position(id) {
            None => (self, Err(StateError::TabNotFound)),
            Some(index) => match self.tabs[index].searched(fetched) {
                Ok(tab) => (WindowView { tabs: self.tabs.update(index, tab), ..self }, Ok(None)),
                Err(failure) => (self, Ok(Some(failure))),
            },
        }
    }

    /// The window after the tab with the given id was closed, and whether
    /// the window has to close with it.
    pub open spec fn with_closed_tab(self, id: nat) -> (WindowView, Result<bool, StateError>) {
        match self.position(id) {
            None => (self, Err(StateError::TabNotFound)),
            Some(index) => {
                if !self.tabs[index].active {
                    (WindowView { tabs: self.tabs.remove(index), ..self }, Ok(false))
                } else if self.tabs.len() == 1 {
                    (WindowView { tabs: self.tabs.remove(index), ..self }, Ok(true))
                } else {
                    let heir = self.tabs[successor(self.tabs.len() as int, index)].id;
                    (
                        WindowView { tabs: only_shown(self.tabs, heir).remove(index), ..self },
                        Ok(false),
                    )
                }
            },
        }
    }
}

/// One window of the application.
pub struct Window {
    pub id: usize,
    pub tabs: Vec<Tab>,
    pub settings: Arc<AppSettings>,
    next_tab_id: usize,
}

impl View for Window {
    type V = WindowView;

    closed spec fn view(&self) -> WindowView {
        WindowView {
            id: self.id as nat,
            tabs: self.tabs@.map_values(|tab: Tab| tab@),
            settings: self.settings@,
            next_tab_id: self.next_tab_id as nat,
        }
    }
}

impl Window {
    /// Opens a window with one tab, which has id 0, is shown, and opened the
    /// default address; `fetched` is what the host's fetch of
    /// `settings.default_url` returned.
    pub fn new(id: usize, settings: Arc<AppSettings>, fetched: Result<String, String>) -> (window:
        Window)
        ensures
            window@ == WindowView::created(id as nat, settings@, fetched_view(fetched)),
            window@.well_formed(),
    {
        let default_tab = Tab::new(0, share(&settings), fetched);
        let mut tabs: Vec<Tab> = Vec::new();
        tabs.push(default_tab);
        let window = Window { id, tabs, settings, next_tab_id: 1 };
        proof {
            assert(window@.tabs =~= seq![
                TabView::created(0, settings@, fetched_view(fetched)),
            ]);
            lemma_created_well_formed(id as nat, settings@, fetched_view(fetched));
        }
        window
    }

    /// The number by which the application knows this window.
    pub fn id(&self) -> (id: usize)
        ensures
            id == self@.id,
    {
        self.id
    }

    /// The address that a new tab opens.
    pub fn default_url(&self) -> (address: String)
        ensures
            address@ == self@.settings.default_url,
    {
        self.settings.default_url.clone()
    }

    /// How many tabs the window has.
    pub fn tab_count(&self) -> (count: usize)
        ensures
            count == self@.tabs.len(),
    {
        self.tabs.len()
    }

    /// Whether another tab can be opened: the ids are not used up.
    pub fn can_open_tab(&self) -> (r: bool)
        ensures
            r == (self@.next_tab_id < usize::MAX),
    {
        self.next_tab_id < usize::MAX
    }

    /// Where the first tab with the given id stands.
    pub fn tab_index(&self, id: usize) -> (r: Option<usize>)
        ensures
            match r {
                Some(index) => self@.position(id as nat) == Some(index as int),
                None => self@.position(id as nat) is None,
            },
            r is Some <==> self@.has_tab(id as nat),
    {
        let mut i: usize = 0;
        while i < self.tabs.len()
            invariant
                i <= self.tabs.len(),
                forall|j: int| 0 <= j < i ==> (#[trigger] self@.tabs[j]).id != id as nat,
            decreases self.tabs.len() - i,
        {
            if self.tabs[i].id() == id {
                proof {
                    lemma_position_unique(self@, id as nat, i as int);
                }
                return Some(i);
            }
            i = i + 1;
        }
        proof {
            lemma_position_none(self@, id as nat);
        }
        None
    }

    /// Whether some tab has the given id.
    pub fn has_tab(&self, id: usize) -> (r: bool)
        ensures
            r == self@.has_tab(id as nat),
    {
        self.tab_index(id).is_some()
    }

    /// The first tab with the given id.
    pub fn tab(&self, id: usize) -> (r: Option<&Tab>)
        ensures
            match r {
                Some(tab) => {
                    &&& self@.position(id as nat) matches Some(index)
                    &&& tab@ == self@.tabs[index]
                },
                None => self@.position(id as nat) is None,
            },
            r is Some <==> self@.has_tab(id as nat),
    {
        match self.tab_index(id) {
            Some(index) => Some(&self.tabs[index]),
            None => None,
        }
    }

    /// Shows the tabs with the given id and hides every other.
    ///
    /// With an id that no tab has, no tab is left shown: callers are expected
    /// to pass the id of a tab of this window.
    pub fn set_active_tab(&mut self, id: usize)
        ensures
            final(self)@ == old(self)@.with_active_tab(id as nat),
            old(self)@.well_formed() && old(self)@.has_tab(id as nat)
                ==> final(self)@.well_formed(),
    {
        let mut i: usize = 0;
        while i < self.tabs.len()
            invariant
                i <= self.tabs.len(),
                self.tabs.len() == old(self).tabs.len(),
                self.id == old(self).id,
                self.settings == old(self).settings,
                self.next_tab_id == old(self).next_tab_id,
                forall|j: int|
                    0 <= j < i ==> (#[trigger] self.tabs@[j])@ == old(self).tabs@[j]@.with_active(
                        old(self).tabs@[j]@.id == id as nat,
                    ),
                forall|j: int|
                    i <= j < self.tabs.len() ==> (#[trigger] self.tabs@[j]) == old(self).tabs@[j],
            decreases self.tabs.len() - i,
        {
            if self.tabs[i].id() == id {
                self.tabs[i].set_state(TabState::Active);
            } else {
                self.tabs[i].set_state(TabState::Inactive);
            }
            i = i + 1;
        }
        assert(self@.tabs =~= only_shown(old(self)@.tabs, id as nat));
        proof {
            if old(self)@.well_formed() && old(self)@.has_tab(id as nat) {
                lemma_active_tab_well_formed(old(self)@, id as nat);
            }
        }
    }

    /// Opens a new tab: it stands last, gets the next id, and is the one
    /// shown. `fetched` is what the host's fetch of `settings.default_url`
    /// returned.
    pub fn new_tab(&mut self, fetched: Result<String, String>)
        requires
            old(self)@.next_tab_id < usize::MAX,
        ensures
            final(self)@ == old(self)@.with_new_tab(fetched_view(fetched)),
            final(self)@.tabs.len() == old(self)@.tabs.len() + 1,
            final(self)@.tabs.last().active,
            final(self)@.tabs.last().id == old(self)@.next_tab_id,
            forall|i: int|
                0 <= i < old(self)@.tabs.len() ==> #[trigger] final(self)@.tabs[i]
                    == old(self)@.tabs[i].with_active(false),
            final(self)@.is_only_active(old(self)@.tabs.len() as int),
            shown_count(final(self)@.tabs) == 1,
            old(self)@.retires_for_good(final(self)@),
            old(self)@.ids_issued() ==> forall|i: int|
                0 <= i < old(self)@.tabs.len() ==> (#[trigger] final(self)@.tabs[i]).id
                    < old(self)@.next_tab_id,
            old(self)@.well_formed() ==> final(self)@.well_formed(),
    {
        let mut i: usize = 0;
        while i < self.tabs.len()
            invariant
                i <= self.tabs.len(),
                self.tabs.len() == old(self).tabs.len(),
                self.id == old(self).id,
                self.settings == old(self).settings,
                self.next_tab_id == old(self).next_tab_id,
                forall|j: int|
                    0 <= j < i ==> (#[trigger] self.tabs@[j])@ == old(self).tabs@[j]@.with_active(
                        false,
                    ),
                forall|j: int|
                    i <= j < self.tabs.len() ==> (#[trigger] self.tabs@[j]) == old(self).tabs@[j],
            decreases self.tabs.len() - i,
        {
            self.tabs[i].set_state(TabState::Inactive);
            i = i + 1;
        }
        let new_tab = Tab::new(self.next_tab_id, share(&self.settings), fetched);
        self.tabs.push(new_tab);
        self.next_tab_id = self.next_tab_id + 1;
        assert(self@.tabs =~= old(self)@.with_new_tab(fetched_view(fetched)).tabs);
        proof {
            lemma_new_tab_is_shown(old(self)@, fetched_view(fetched));
            lemma_new_tab_keeps_ids(old(self)@, fetched_view(fetched));
            lemma_only_active_counts_one(final(self)@, old(self)@.tabs.len() as int);
            if old(self)@.well_formed() {
                lemma_new_tab_well_formed(old(self)@, fetched_view(fetched));
            }
        }
    }

    /// The tab that is shown: the first one, should several be.
    pub fn get_active_tab(&self) -> (r: Result<&Tab, StateError>)
        ensures
            match r {
                Ok(tab) => {
                    &&& self@.active_position() matches Some(index)
                    &&& tab@ == self@.tabs[index]
                },
                Err(e) => e == StateError::NoActiveTab && self@.active_position() is None,
            },
    {
        let mut i: usize = 0;
        while i < self.tabs.len()
            invariant
                i <= self.tabs.len(),
                forall|j: int| 0 <= j < i ==> !(#[trigger] self@.tabs[j]).active,
            decreases self.tabs.len() - i,
        {
            if self.tabs[i].is_active() {
                proof {
                    lemma_active_position_unique(self@, i as int);
                }
                return Ok(&self.tabs[i]);
            }
            i = i + 1;
        }
        Err(StateError::NoActiveTab)
    }

    /// The tab that is shown, for the caller to change. What the caller
    /// leaves in it takes the tab's place in the window.
    pub fn get_active_tab_mut(&mut self) -> (r: Result<&mut Tab, StateError>)
        ensures
            match r {
                Ok(tab) => {
                    &&& old(self)@.active_position() matches Some(index)
                    &&& tab@ == old(self)@.tabs[index]
                    &&& final(self)@ == (WindowView {
                        tabs: old(self)@.tabs.update(index, final(tab)@),
                        ..old(self)@
                    })
                },
                Err(e) => {
                    &&& e == StateError::NoActiveTab
                    &&& old(self)@.active_position() is None
                    &&& final(self)@ == old(self)@
                },
            },
    {
        let mut i: usize = 0;
        while i < self.tabs.len()
            invariant
                i <= self.tabs.len(),
                *self == *old(self),
                forall|j: int| 0 <= j < i ==> !(#[trigger] self@.tabs[j]).active,
            decreases self.tabs.len() - i,
        {
            if self.tabs[i].is_active() {
                proof {
                    lemma_active_position_unique(self@, i as int);
                }
                return Ok(&mut self.tabs[i]);
            }
            i = i + 1;
        }
        Err(StateError::NoActiveTab)
    }

    /// Runs a search in the tab with the given id. `fetched` is what the
    /// host's fetch of that tab's `search_url()` returned.
    ///
    /// A search that fails does not fail the call: the failure is handed back
    /// for display, and the window is left as it was.
    pub fn search_tab(&mut self, id: usize, fetched: Result<String, String>) -> (r: Result<
        Option<SearchError>,
        StateError,
    >)
        ensures
            final(self)@ == old(self)@.with_search(id as nat, fetched_view(fetched)).0,
            match r {
                Ok(Some(e)) => old(self)@.with_search(id as nat, fetched_view(fetched)).1 == Ok::<
                    _,
                    StateError,
                >(Some(e@)),
                Ok(None) => old(self)@.with_search(id as nat, fetched_view(fetched)).1 == Ok::<
                    Option<SearchFailure>,
                    StateError,
                >(None),
                Err(e) => old(self)@.with_search(id as nat, fetched_view(fetched)).1 == Err::<
                    Option<SearchFailure>,
                    _,
                >(e),
            },
            r is Err <==> !old(self)@.has_tab(id as nat),
            r is Err ==> r matches Err(StateError::TabNotFound),
            !(r matches Ok(None)) ==> final(self)@ == old(self)@,
            old(self)@.well_formed() ==> final(self)@.well_formed(),
    {
        proof {
            lemma_search_well_formed(old(self)@, id as nat, fetched_view(fetched));
            if old(self)@.has_tab(id as nat) {
                lemma_known_id_is_found(old(self)@, id as nat, fetched_view(fetched));
            } else {
                lemma_unknown_id_changes_nothing(old(self)@, id as nat, fetched_view(fetched));
            }
        }
        let index = match self.tab_index(id) {
            Some(index) => index,
            None => { return Err(StateError::TabNotFound); },
        };
        match self.tabs[index].search(fetched) {
            Ok(()) => {
                assert(self@.tabs =~= old(self)@.tabs.update(index as int, self.tabs@[index as int]@));
                Ok(None)
            },
            Err(e) => {
                assert(self@.tabs =~= old(self)@.tabs);
                Ok(Some(e))
            },
        }
    }

    /// Closes the tab with the given id and says whether the window has to
    /// close with it, which is so when its only tab, shown, was closed.
    ///
    /// Closing a hidden tab leaves the others as they are. Closing the shown
    /// tab while others remain shows the tab before it if it stood last, and
    /// the tab after it otherwise.
    pub fn close_tab(&mut self, id: usize) -> (r: Result<bool, StateError>)
        ensures
            (final(self)@, r) == old(self)@.with_closed_tab(id as nat),
            r is Err <==> !old(self)@.has_tab(id as nat),
            r is Err ==> r == Err::<bool, _>(StateError::TabNotFound) && final(self)@ == old(self)@,
            old(self)@.well_formed() ==> final(self)@.well_formed(),
    {
        proof {
            if old(self)@.well_formed() {
                lemma_close_tab_well_formed(old(self)@, id as nat);
            }
            if old(self)@.has_tab(id as nat) {
                lemma_known_id_is_found(old(self)@, id as nat, Err(Seq::empty()));
            } else {
                lemma_unknown_id_changes_nothing(old(self)@, id as nat, Err(Seq::empty()));
            }
        }
        let index = match self.tab_index(id) {
            Some(index) => index,
            None => { return Err(StateError::TabNotFound); },
        };
        if !self.tabs[index].is_active() {
            self.tabs.remove(index);
            assert(self@.tabs =~= old(self)@.tabs.remove(index as int));
            return Ok(false);
        }
        let tab_count: usize = self.tabs.len();
        if tab_count == 1 {
            self.tabs.remove(index);
            assert(self@.tabs =~= old(self)@.tabs.remove(index as int));
            return Ok(true);
        }
        let heir: usize = if index == tab_count - 1 {
            self.tabs[index - 1].id()
        } else {
            self.tabs[index + 1].id()
        };
        self.set_active_tab(heir);
        self.tabs.remove(index);
        assert(self@.tabs =~= only_shown(old(self)@.tabs, heir as nat).remove(index as int));
        Ok(false)
    }
}

} // verus!
