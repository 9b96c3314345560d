//! Windows, their tabs, and the application that owns them.

pub mod app;
pub mod app_laws;
pub mod settings;
pub mod tab;
pub mod window;
pub mod window_laws;

pub use app::AppView;
pub use app::OliverExplorer;
pub use settings::default_address;
pub use settings::default_title;
pub use settings::AppSettings;
pub use settings::AppSettingsView;
pub use tab::fetched_view;
pub use tab::page_content;
pub use tab::SearchError;
pub use tab::SearchFailure;
pub use tab::Tab;
pub use tab::TabState;
pub use tab::TabView;
pub use window::StateError;
pub use window::Window;
pub use window::WindowView;
