//! The state of a small desktop browser: an application that owns windows,
//! each of which owns tabs and shows exactly one of them.
//!
//! The library never touches the network or the screen. Whoever embeds it
//! fetches pages and hands the outcome in; the library extracts the text,
//! keeps the windows and tabs, and says what the embedder has to do next.
//! Every operation is proved against a mathematical model of the state
//! (`TabView`, `WindowView`, `AppView`), and the properties that relate
//! several operations are proved in `state::window_laws` and
//! `state::app_laws`.

pub mod dom;
pub mod html;
pub mod networking;
pub mod outside;
pub mod state;
pub mod text;
pub mod ui;
