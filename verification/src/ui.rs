//! What a front end asks of a window, and what the library asks of the
//! front end in return.

use crate::state::fetched_view;
use crate::state::SearchError;
use crate::state::SearchFailure;
use crate::state::StateError;
use crate::state::Window;
use crate::state::WindowView;
use vstd::prelude::*;

verus! {

/// What the application's owner has to do after a tab was closed.
#[derive(Debug, Clone, Copy, PartialEq, Eq, Structural)]
pub enum AppAction {
    /// A window closed with its last tab; others are still open.
    CloseWindow,
    /// Nothing.
    Nothing,
    /// The last window closed: the application is over.
    CloseApp,
}

/// Something the user asked of a window.
#[derive(Debug, Clone, Copy, PartialEq, Eq, Structural)]
pub enum WindowAction {
    /// Open a tab.
    NewTab,
    /// Show the tab with this id.
    SelectTab(usize),
    /// Close the tab with this id.
    CloseTab(usize),
    /// Load what the search input of the tab with this id names.
    Search(usize),
    /// Maximize the window, or restore it if it is maximized.
    ToggleMaximize,
    /// Begin to drag the window.
    DragWindow,
    /// Close the window.
    CloseWindow,
    /// Nothing.
    Nothing,
}

/// Why an action changed nothing.
#[derive(Debug)]
pub enum ActionError {
    /// The window does not have the tab that the action names.
    Tab(StateError),
    /// The tab was found, but its search loaded no page.
    Search(SearchError),
}

/// `ActionError` with its messages as text.
pub enum ActionFailure {
    Tab(StateError),
    Search(SearchFailure),
}

impl View for ActionError {
    type V = ActionFailure;

    open spec fn view(&self) -> ActionFailure {
        match self {
            ActionError::Tab(e) => ActionFailure::Tab(*e),
            ActionError::Search(e) => ActionFailure::Search(e@),
        }
    }
}

impl ActionFailure {
    /// The sentence shown to the user.
    pub open spec fn message(self) -> Seq<char> {
        match self {
            ActionFailure::Tab(e) => e.spec_message(),
            ActionFailure::Search(e) => e.message(),
        }
    }
}

impl ActionError {
    /// The sentence shown to the user.
    pub fn message(&self) -> (text: String)
        ensures
            text@ == self@.message(),
    {
        match self {
            ActionError::Tab(e) => e.message(),
            ActionError::Search(e) => e.message(),
        }
    }
}

impl WindowAction {
    /// What a click on the tab with the given id asks for: to show the tab
    /// where its label or its background was clicked, else to close it where
    /// its close button was, else nothing.
    pub open spec fn spec_tab_action(
        id: usize,
        close: bool,
        label: bool,
        background: bool,
    ) -> WindowAction {
        if label || background {
            WindowAction::SelectTab(id)
        } else if close {
            WindowAction::CloseTab(id)
        } else {
            WindowAction::Nothing
        }
    }

    /// What a click on the tab with the given id asks for; `close`, `label`
    /// and `background` say which parts of the tab were clicked.
    pub fn tab_action(id: usize, close: bool, label: bool, background: bool) -> (action:
        WindowAction)
        ensures
            action == WindowAction::spec_tab_action(id, close, label, background),
    {
        if label || background {
            WindowAction::SelectTab(id)
        } else if close {
            WindowAction::CloseTab(id)
        } else {
            WindowAction::Nothing
        }
    }

    /// The address that the host has to fetch before it executes this
    /// action on `window`, if there is one: the default address for a new
    /// tab, the search target for a search.
    pub open spec fn spec_fetch_target(self, window: WindowView) -> Option<Seq<char>> {
        match self {
            WindowAction::NewTab => Some(window.settings.default_url),
            WindowAction::Search(id) => match window.position(id as nat) {
                Some(index) => match window.tabs[index].search_target() {
                    Ok(address) => Some(address),
                    Err(_) => None,
                },
                None => None,
            },
            _ => None,
        }
    }

    /// The window after this action, and what is left for the host to do
    /// to the viewport, or why nothing changed. `fetched` is what the fetch
    /// of the fetch target returned.
    pub open spec fn spec_execute(
        self,
        window: WindowView,
        fetched: Result<Seq<char>, Seq<char>>,
    ) -> (WindowView, Result<WindowAction, ActionFailure>) {
        match self {
            WindowAction::NewTab => (window.with_new_tab(fetched), Ok(WindowAction::Nothing)),
            WindowAction::SelectTab(id) => if window.has_tab(id as nat) {
                (window.with_active_tab(id as nat), Ok(WindowAction::Nothing))
            } else {
                (window, Err(ActionFailure::Tab(StateError::TabNotFound)))
            },
            WindowAction::CloseTab(id) => match window.with_closed_tab(id as nat).1 {
                Ok(true) => (window.with_closed_tab(id as nat).0, Ok(WindowAction::CloseWindow)),
                Ok(false) => (window.with_closed_tab(id as nat).0, Ok(WindowAction::Nothing)),
                Err(e) => (window, Err(ActionFailure::Tab(e))),
            },
            WindowAction::Search(id) => match window.with_search(id as nat, fetched).1 {
                Ok(None) => (window.with_search(id as nat, fetched).0, Ok(WindowAction::Nothing)),
                Ok(Some(failure)) => (window, Err(ActionFailure::Search(failure))),
                Err(e) => (window, Err(ActionFailure::Tab(e))),
            },
            WindowAction::ToggleMaximize => (window, Ok(WindowAction::ToggleMaximize)),
            WindowAction::DragWindow => (window, Ok(WindowAction::DragWindow)),
            WindowAction::CloseWindow => (window, Ok(WindowAction::CloseWindow)),
            WindowAction::Nothing => (window, Ok(WindowAction::Nothing)),
        }
    }

    /// Whether the action is one that the host carries out on the viewport.
    pub open spec fn for_viewport(self) -> bool {
        self is ToggleMaximize || self is DragWindow || self is CloseWindow || self is Nothing
    }

    /// The address that the host has to fetch before it executes this
    /// action on `window`, if there is one.
    pub fn fetch_target(&self, window: &Window) -> (r: Option<String>)
        ensures
            match r {
                Some(address) => self.spec_fetch_target(window@) == Some(address@),
                None => self.spec_fetch_target(window@) is None,
            },
    {
        match self {
            WindowAction::NewTab => Some(window.default_url()),
            WindowAction::Search(id) => match window.tab(*id) {
                Some(tab) => match tab.search_url() {
                    Ok(address) => Some(address),
                    Err(_) => None,
                },
                None => None,
            },
            _ => None,
        }
    }

    /// Carries the action out on `window` and hands back what is left for
    /// the host to do to the viewport. `fetched` is what the host's fetch of
    /// `fetch_target(window)` returned; an action without a fetch target does
    /// not look at it.
    ///
    /// A tab is selected only if the window has it. When the last tab was
    /// closed the window has to close: the host is handed `CloseWindow`.
    pub fn execute(self, window: &mut Window, fetched: Result<String, String>) -> (r: Result<
        WindowAction,
        ActionError,
    >)
        requires
            self is NewTab ==> old(window)@.next_tab_id < usize::MAX,
        ensures
            final(window)@ == self.spec_execute(old(window)@, fetched_view(fetched)).0,
            match r {
                Ok(rest) => self.spec_execute(old(window)@, fetched_view(fetched)).1 == Ok::<
                    _,
                    ActionFailure,
                >(rest) && rest.for_viewport(),
                Err(e) => self.spec_execute(old(window)@, fetched_view(fetched)).1 == Err::<
                    WindowAction,
                    _,
                >(e@) && final(window)@ == old(window)@,
            },
            old(window)@.well_formed() ==> final(window)@.well_formed(),
    {
        match self {
            WindowAction::NewTab => {
                window.new_tab(fetched);
                Ok(WindowAction::Nothing)
            },
            WindowAction::SelectTab(id) => {
                if window.has_tab(id) {
                    window.set_active_tab(id);
                    Ok(WindowAction::Nothing)
                } else {
                    Err(ActionError::Tab(StateError::TabNotFound))
                }
            },
            WindowAction::CloseTab(id) => match window.close_tab(id) {
                Ok(true) => Ok(WindowAction::CloseWindow),
                Ok(false) => Ok(WindowAction::Nothing),
                Err(e) => Err(ActionError::Tab(e)),
            },
            WindowAction::Search(id) => match window.search_tab(id, fetched) {
                Ok(None) => Ok(WindowAction::Nothing),
                Ok(Some(failure)) => Err(ActionError::Search(failure)),
                Err(e) => Err(ActionError::Tab(e)),
            },
            WindowAction::ToggleMaximize => Ok(WindowAction::ToggleMaximize),
            WindowAction::DragWindow => Ok(WindowAction::DragWindow),
            WindowAction::CloseWindow => Ok(WindowAction::CloseWindow),
            WindowAction::Nothing => Ok(WindowAction::Nothing),
        }
    }
}

} // verus!
