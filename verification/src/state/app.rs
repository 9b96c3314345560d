//! The application: the windows that are open and the settings they share.

use crate::outside::share;
use crate::state::settings::AppSettings;
use crate::state::settings::AppSettingsView;
use crate::state::app_laws::lemma_app_close_tab_well_formed;
use crate::state::app_laws::lemma_app_created_well_formed;
use crate::state::app_laws::lemma_close_window_well_formed;
use crate::state::app_laws::lemma_new_window_well_formed;
use crate::state::app_laws::lemma_window_position_none;
use crate::state::app_laws::lemma_window_position_unique;
use crate::state::tab::fetched_view;
use crate::state::window::StateError;
use crate::state::window::Window;
use crate::state::window::WindowView;
use crate::ui::AppAction;
use std::sync::Arc;
use vstd::prelude::*;

verus! {

/// The application as a mathematical value.
#[verifier::ext_equal]
pub struct AppView {
    pub windows: Seq<WindowView>,
    pub settings: AppSettingsView,
    /// The id that the next new window gets.
    pub next_window_id: nat,
}

impl AppView {
    /// Some window has this id.
    pub open spec fn has_window(self, id: nat) -> bool {
        exists|i: int| 0 <= i < self.windows.len() && #[trigger] self.windows[i].id == id
    }

    /// `index` is where the first window with this id stands.
    pub open spec fn is_position(self, id: nat, index: int) -> bool {
        &&& 0 <= index < self.windows.len()
        &&& self.windows[index].id == id
        &&& forall|j: int| 0 <= j < index ==> #[trigger] self.windows[j].id != id
    }

    /// Where the first window with this id stands.
    pub open spec fn position(self, id: nat) -> Option<int> {
        if exists|i: int| self.is_position(id, i) {
            Some(choose|i: int| self.is_position(id, i))
        } else {
            None
        }
    }

    /// The application's invariant: every window meets its own and has a
    /// tab, no two windows share an id, and every id in use was handed out
    /// by the counter.
    pub open spec fn well_formed(self) -> bool {
        &&& forall|i: int|
            0 <= i < self.windows.len() ==> (#[trigger] self.windows[i]).well_formed()
                && self.windows[i].tabs.len() > 0
        &&& forall|i: int, j: int|
            0 <= i < j < self.windows.len() ==> (#[trigger] self.windows[i]).id != (
            #[trigger] self.windows[j]).id
        &&& forall|i: int|
            0 <= i < self.windows.len() ==> (#[trigger] self.windows[i]).id < self.next_window_id
    }

    /// The application at its start: one window, with id 0.
    pub open spec fn created(
        settings: AppSettingsView,
        fetched: Result<Seq<char>, Seq<char>>,
    ) -> AppView {
        AppView {
            windows: seq![WindowView::created(0, settings, fetched)],
            settings,
            next_window_id: 1,
        }
    }

    /// The application after a window was opened: it stands last and has
    /// the next id.
    pub open spec fn with_new_window(self, fetched: Result<Seq<char>, Seq<char>>) -> AppView {
        AppView {
            windows: self.windows.push(
                WindowView::created(self.next_window_id, self.settings, fetched),
            ),
            next_window_id: self.next_window_id + 1,
            ..self
        }
    }

    /// The application after the window with the given id was closed.
    pub open spec fn with_closed_window(self, id: nat) -> (AppView, Result<(), StateError>) {
        match self.position(id) {
            None => (self, Err(StateError::WindowNotFound)),
            Some(index) => (AppView { windows: self.windows.remove(index), ..self }, Ok(())),
        }
    }

    /// The application after a tab of a window was closed, and what its
    /// owner has to do: a window that lost its last tab is closed with it,
    /// and with the last window the application is over.
    pub open spec fn with_closed_tab(self, window_id: nat, tab_id: nat) -> (
        AppView,
        Result<AppAction, StateError>,
    ) {
        match self.position(window_id) {
            None => (self, Err(StateError::WindowNotFound)),
            Some(index) => {
                let (window, outcome) = self.windows[index].with_closed_tab(tab_id);
                match outcome {
                    Err(e) => (self, Err(e)),
                    Ok(false) => (
                        AppView { windows: self.windows.update(index, window), ..self },
                        Ok(AppAction::Nothing),
                    ),
                    Ok(true) => (
                        AppView { windows: self.windows.remove(index), ..self },
                        Ok(
                            if self.windows.len() == 1 {
                                AppAction::CloseApp
                            } else {
                                AppAction::CloseWindow
                            },
                        ),
                    ),
                }
            },
        }
    }
}

/// The application: its windows in the order in which they were opened.
pub struct OliverExplorer {
    pub windows: Vec<Window>,
    pub settings: Arc<AppSettings>,
    next_window_id: usize,
}

impl View for OliverExplorer {
    type V = AppView;

    closed spec fn view(&self) -> AppView {
        AppView {
            windows: self.windows@.map_values(|window: Window| window@),
            settings: self.settings@,
            next_window_id: self.next_window_id as nat,
        }
    }
}

impl OliverExplorer {
    /// Starts the application with the default settings and one window.
    /// `fetched` is what the host's fetch of the default address returned.
    pub fn new(fetched: Result<String, String>) -> (app: OliverExplorer)
        ensures
            app@ == AppView::created(AppSettings::default_view(), fetched_view(fetched)),
            app@.well_formed(),
    {
        OliverExplorer::with_settings(Arc::new(AppSettings::default()), fetched)
    }

    /// Starts the application with the given settings and one window.
    /// `fetched` is what the host's fetch of `settings.default_url` returned.
    pub fn with_settings(settings: Arc<AppSettings>, fetched: Result<String, String>) -> (app:
        OliverExplorer)
        ensures
            app@ == AppView::created(settings@, fetched_view(fetched)),
            app@.well_formed(),
    {
        let default_window = Window::new(0, share(&settings), fetched);
        let mut windows: Vec<Window> = Vec::new();
        windows.push(default_window);
        let app = OliverExplorer { windows, settings, next_window_id: 1 };
        proof {
            assert(app@.windows =~= seq![
                WindowView::created(0, settings@, fetched_view(fetched)),
            ]);
            lemma_app_created_well_formed(settings@, fetched_view(fetched));
        }
        app
    }

    /// How many windows are open.
    pub fn window_count(&self) -> (count: usize)
        ensures
            count == self@.windows.len(),
    {
        self.windows.len()
    }

    /// Whether another window can be opened: the ids are not used up.
    pub fn can_open_window(&self) -> (r: bool)
        ensures
            r == (self@.next_window_id < usize::MAX),
    {
        self.next_window_id < usize::MAX
    }

    /// Where the first window with the given id stands.
    pub fn window_index(&self, id: usize) -> (r: Option<usize>)
        ensures
            match r {
                Some(index) => self@.position(id as nat) == Some(index as int),
                None => self@.position(id as nat) is None,
            },
            r is Some <==> self@.has_window(id as nat),
    {
        let mut i: usize = 0;
        while i < self.windows.len()
            invariant
                i <= self.windows.len(),
                forall|j: int| 0 <= j < i ==> (#[trigger] self@.windows[j]).id != id as nat,
            decreases self.windows.len() - i,
        {
            if self.windows[i].id() == id {
                proof {
                    lemma_window_position_unique(self@, id as nat, i as int);
                }
                return Some(i);
            }
            i = i + 1;
        }
        proof {
            lemma_window_position_none(self@, id as nat);
        }
        None
    }

    /// Opens a window: it stands last, gets the next id, and shares the
    /// application's settings. `fetched` is what the host's fetch of the
    /// default address returned.
    pub fn new_window(&mut self, fetched: Result<String, String>)
        requires
            old(self)@.next_window_id < usize::MAX,
        ensures
            final(self)@ == old(self)@.with_new_window(fetched_view(fetched)),
            old(self)@.well_formed() ==> final(self)@.well_formed(),
    {
        let new_window = Window::new(self.next_window_id, share(&self.settings), fetched);
        self.windows.push(new_window);
        self.next_window_id = self.next_window_id + 1;
        proof {
            assert(self@.windows =~= old(self)@.with_new_window(fetched_view(fetched)).windows);
            if old(self)@.well_formed() {
                lemma_new_window_well_formed(old(self)@, fetched_view(fetched));
            }
        }
    }

    /// Closes the window with the given id. When this was the last window
    /// the application is over; no window is opened in its place.
    pub fn close_window(&mut self, id: usize) -> (r: Result<(), StateError>)
        ensures
            (final(self)@, r) == old(self)@.with_closed_window(id as nat),
            r is Ok <==> old(self)@.has_window(id as nat),
            r is Err ==> r == Err::<(), _>(StateError::WindowNotFound)
                && final(self)@ == old(self)@,
            old(self)@.well_formed() ==> final(self)@.well_formed(),
    {
        proof {
            if old(self)@.well_formed() {
                lemma_close_window_well_formed(old(self)@, id as nat);
            }
        }
        let index = match self.window_index(id) {
            Some(index) => index,
            None => { return Err(StateError::WindowNotFound); },
        };
        self.windows.remove(index);
        assert(self@.windows =~= old(self)@.windows.remove(index as int));
        Ok(())
    }

    /// Closes a tab of a window and, where that was the window's last tab,
    /// the window with it; says what is left for the owner to do.
    pub fn close_tab(&mut self, window_id: usize, tab_id: usize) -> (r: Result<
        AppAction,
        StateError,
    >)
        ensures
            (final(self)@, r) == old(self)@.with_closed_tab(window_id as nat, tab_id as nat),
            r is Err ==> final(self)@ == old(self)@,
            old(self)@.well_formed() ==> final(self)@.well_formed(),
            old(self)@.well_formed() ==> (r == Ok::<_, StateError>(AppAction::CloseApp) <==> r is Ok
                && final(self)@.windows.len() == 0),
    {
        proof {
            if old(self)@.well_formed() {
                lemma_app_close_tab_well_formed(old(self)@, window_id as nat, tab_id as nat);
            }
        }
        let index = match self.window_index(window_id) {
            Some(index) => index,
            None => { return Err(StateError::WindowNotFound); },
        };
        match self.windows[index].close_tab(tab_id) {
            Err(e) => {
                assert(self@.windows =~= old(self)@.windows);
                Err(e)
            },
            Ok(false) => {
                assert(self@.windows =~= old(self)@.windows.update(
                    index as int,
                    self.windows@[index as int]@,
                ));
                Ok(AppAction::Nothing)
            },
            Ok(true) => {
                self.windows.remove(index);
                assert(self@.windows =~= old(self)@.windows.remove(index as int));
                if self.windows.len() == 0 {
                    Ok(AppAction::CloseApp)
                } else {
                    Ok(AppAction::CloseWindow)
                }
            },
        }
    }
}

} // verus!
