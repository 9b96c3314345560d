//! One browsing context: an address, the text last loaded from it, and the
//! input that the user is typing.

use crate::html::extracted_text;
use crate::html::parse_html;
use crate::state::settings::AppSettings;
use crate::state::settings::AppSettingsView;
use crate::text::lemma_trimmed_away;
use crate::text::trim;
use crate::text::white_space;
use crate::text::trimmed;
use std::sync::Arc;
use vstd::prelude::*;

verus! {

/// Whether a tab is the one that its window shows.
#[derive(Debug, Clone, PartialEq)]
pub enum TabState {
    Active,
    Inactive,
}

/// Why a search did not load a page.
#[derive(Debug)]
pub enum SearchError {
    /// The input was blank.
    EmptyInput,
    /// The page could not be fetched; holds the transport's message.
    FetchFailed(String),
    /// The page was fetched but no text could be extracted from it.
    ParseFailed(String),
}

/// `SearchError` with its messages as text.
pub enum SearchFailure {
    EmptyInput,
    FetchFailed(Seq<char>),
    ParseFailed(Seq<char>),
}

impl SearchFailure {
    /// The sentence shown to the user.
    pub open spec fn message(self) -> Seq<char> {
        match self {
            SearchFailure::EmptyInput => "Empty URL"@,
            SearchFailure::FetchFailed(detail) => "Failed to fetch URL: "@ + detail,
            SearchFailure::ParseFailed(detail) => "Failed to parse HTML: "@ + detail,
        }
    }
}

impl View for SearchError {
    type V = SearchFailure;

    open spec fn view(&self) -> SearchFailure {
        match self {
            SearchError::EmptyInput => SearchFailure::EmptyInput,
            SearchError::FetchFailed(detail) => SearchFailure::FetchFailed(detail@),
            SearchError::ParseFailed(detail) => SearchFailure::ParseFailed(detail@),
        }
    }
}

impl SearchError {
    /// The sentence shown to the user.
    pub fn message(&self) -> (text: String)
        ensures
            text@ == self@.message(),
    {
        match self {
            SearchError::EmptyInput => String::from_str("Empty URL"),
            SearchError::FetchFailed(detail) => String::from_str("Failed to fetch URL: ").concat(
                detail.as_str(),
            ),
            SearchError::ParseFailed(detail) => String::from_str("Failed to parse HTML: ").concat(
                detail.as_str(),
            ),
        }
    }
}

/// What the host's fetch of an address gave: the raw body, or the message
/// of the failure.
pub open spec fn fetched_view(fetched: Result<String, String>) -> Result<Seq<char>, Seq<char>> {
    match fetched {
        Ok(body) => Ok(body@),
        Err(message) => Err(message@),
    }
}

/// The text that a fetch leads to: the extracted body text, or the failure
/// of the stage that failed.
pub open spec fn page_content(fetched: Result<Seq<char>, Seq<char>>) -> Result<
    Seq<char>,
    SearchFailure,
> {
    match fetched {
        Ok(body) => match extracted_text(body) {
            Ok(text) => Ok(text),
            Err(detail) => Err(SearchFailure::ParseFailed(detail)),
        },
        Err(detail) => Err(SearchFailure::FetchFailed(detail)),
    }
}

/// A tab as a mathematical value.
pub struct TabView {
    pub id: nat,
    pub url: Seq<char>,
    pub content: Seq<char>,
    pub search_buffer: Seq<char>,
    pub active: bool,
    pub settings: AppSettingsView,
}

impl TabView {
    /// The tab that opening the default address gives, `fetched` being what
    /// the fetch of that address returned. A failed load leaves the tab blank.
    pub open spec fn created(
        id: nat,
        settings: AppSettingsView,
        fetched: Result<Seq<char>, Seq<char>>,
    ) -> TabView {
        TabView {
            id,
            url: settings.default_url,
            content: match page_content(fetched) {
                Ok(text) => text,
                Err(_) => Seq::empty(),
            },
            search_buffer: Seq::empty(),
            active: true,
            settings,
        }
    }

    /// The address that a search would load: the input without the white
    /// space around it, unless nothing is left.
    pub open spec fn search_target(self) -> Result<Seq<char>, SearchFailure> {
        let address = trimmed(self.search_buffer);
        if address.len() == 0 {
            Err(SearchFailure::EmptyInput)
        } else {
            Ok(address)
        }
    }

    /// The tab after a search, `fetched` being what the fetch of the search
    /// target returned; or why the search changes nothing.
    pub open spec fn searched(self, fetched: Result<Seq<char>, Seq<char>>) -> Result<
        TabView,
        SearchFailure,
    > {
        match self.search_target() {
            Err(failure) => Err(failure),
            Ok(address) => match page_content(fetched) {
                Err(failure) => Err(failure),
                Ok(text) => Ok(TabView { url: address, content: text, ..self }),
            },
        }
    }

    /// This tab, shown if `active` and hidden otherwise.
    pub open spec fn with_active(self, active: bool) -> TabView {
        TabView { active, ..self }
    }
}

/// One tab of a window.
#[derive(Debug)]
pub struct Tab {
    pub id: usize,
    pub url: String,
    pub content: String,
    pub settings: Arc<AppSettings>,
    state: TabState,
    pub search_buffer: String,
}

impl View for Tab {
    type V = TabView;

    closed spec fn view(&self) -> TabView {
        TabView {
            id: self.id as nat,
            url: self.url@,
            content: self.content@,
            search_buffer: self.search_buffer@,
            active: self.state is Active,
            settings: self.settings@,
        }
    }
}

impl Tab {
    /// Opens the default address. `fetched` is what the host's fetch of
    /// `settings.default_url` returned; where it or the extraction failed the
    /// tab starts blank. The tab starts active: its owner has to hide its
    /// siblings.
    pub fn new(id: usize, settings: Arc<AppSettings>, fetched: Result<String, String>) -> (tab:
        Tab)
        ensures
            tab@ == TabView::created(id as nat, settings@, fetched_view(fetched)),
    {
        let content = match Tab::content_from_fetch(fetched) {
            Ok(text) => text,
            Err(_) => String::new(),
        };
        Tab {
            id,
            url: settings.default_url.clone(),
            content,
            settings,
            state: TabState::Active,
            search_buffer: String::new(),
        }
    }

    /// The number by which the window knows this tab.
    pub fn id(&self) -> (id: usize)
        ensures
            id == self@.id,
    {
        self.id
    }

    /// The address of the page that the tab holds.
    pub fn url(&self) -> (url: &String)
        ensures
            url@ == self@.url,
    {
        &self.url
    }

    /// The text of the page that the tab holds; empty where none was loaded.
    pub fn content(&self) -> (content: &String)
        ensures
            content@ == self@.content,
    {
        &self.content
    }

    /// What the user has typed into the search input.
    pub fn search_buffer(&self) -> (input: &String)
        ensures
            input@ == self@.search_buffer,
    {
        &self.search_buffer
    }

    /// Puts `input` into the search input and changes nothing else.
    pub fn set_search_buffer(&mut self, input: String)
        ensures
            final(self)@ == (TabView { search_buffer: input@, ..old(self)@ }),
    {
        self.search_buffer = input;
    }

    /// Whether this is the tab that its window shows.
    pub fn is_active(&self) -> (active: bool)
        ensures
            active == self@.active,
    {
        match self.state {
            TabState::Active => true,
            TabState::Inactive => false,
        }
    }

    /// Shows or hides the tab. Reserved to the owning window, which keeps
    /// one tab shown.
    pub(in crate::state) fn set_state(&mut self, state: TabState)
        ensures
            final(self)@ == old(self)@.with_active(state is Active),
    {
        self.state = state;
    }

    /// The address that `search` would load, for the host to fetch: the
    /// search input without the white space around it. An input of nothing
    /// but white space has none.
    pub fn search_url(&self) -> (r: Result<String, SearchError>)
        ensures
            match r {
                Ok(address) => self@.search_target() == Ok::<_, SearchFailure>(address@),
                Err(e) => self@.search_target() == Err::<Seq<char>, _>(e@),
            },
            r is Err <==> forall|j: int|
                0 <= j < self@.search_buffer.len() ==> white_space(#[trigger] self@.search_buffer[j]),
            r is Err ==> r matches Err(SearchError::EmptyInput),
    {
        proof {
            lemma_trimmed_away(self@.search_buffer);
        }
        let address = trim(self.search_buffer.as_str());
        if address.is_empty() {
            Err(SearchError::EmptyInput)
        } else {
            Ok(String::from_str(address))
        }
    }

    /// Loads the address in the search input. `fetched` is what the host's
    /// fetch of `search_url()` returned; it is not looked at where the input
    /// is blank. On success the address and the text are replaced together;
    /// on any failure the tab is left as it was.
    pub fn search(&mut self, fetched: Result<String, String>) -> (r: Result<(), SearchError>)
        ensures
            match r {
                Ok(()) => old(self)@.searched(fetched_view(fetched)) == Ok::<_, SearchFailure>(
                    final(self)@,
                ),
                Err(e) => old(self)@.searched(fetched_view(fetched)) == Err::<TabView, _>(e@)
                    && final(self)@ == old(self)@,
            },
            final(self)@.id == old(self)@.id,
            final(self)@.active == old(self)@.active,
            final(self)@.search_buffer == old(self)@.search_buffer,
            r matches Err(SearchError::EmptyInput) <==> forall|j: int|
                0 <= j < old(self)@.search_buffer.len() ==> white_space(
                    #[trigger] old(self)@.search_buffer[j],
                ),
    {
        proof {
            lemma_trimmed_away(self@.search_buffer);
        }
        let address = match self.search_url() {
            Ok(address) => address,
            Err(e) => { return Err(e); },
        };
        let content = match Tab::content_from_fetch(fetched) {
            Ok(text) => text,
            Err(e) => { return Err(e); },
        };
        self.url = address;
        self.content = content;
        Ok(())
    }

    /// Turns what a fetch returned into the text of the page, or into the
    /// failure of the stage that failed.
    pub fn content_from_fetch(fetched: Result<String, String>) -> (r: Result<String, SearchError>)
        ensures
            match r {
                Ok(text) => page_content(fetched_view(fetched)) == Ok::<_, SearchFailure>(text@),
                Err(e) => page_content(fetched_view(fetched)) == Err::<Seq<char>, _>(e@),
            },
    {
        match fetched {
            Ok(body) => match parse_html(body.as_str()) {
                Ok(text) => Ok(text),
                Err(e) => Err(SearchError::ParseFailed(e.message)),
            },
            Err(detail) => Err(SearchError::FetchFailed(detail)),
        }
    }
}

} // verus!
