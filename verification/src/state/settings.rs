//! The configuration that the application and everything it opens share.

use crate::outside::serialize_url;
use crate::outside::url_serialization;
use vstd::prelude::*;

verus! {

/// The window title that `AppSettings::default` gives.
pub open spec fn default_title() -> Seq<char> {
    "Oliver Explorer"@
}

/// The address that `AppSettings::default` gives: the serialization of the
/// local development server's URL.
pub open spec fn default_address() -> Seq<char> {
    match url_serialization("http://localhost:3333"@) {
        Some(address) => address,
        None => "http://localhost:3333"@,
    }
}

/// Settings fixed when the application starts and never changed after.
#[derive(Debug)]
pub struct AppSettings {
    pub title: String,
    /// The address that a new tab opens, in serialized form.
    pub default_url: String,
}

/// What `AppSettings` holds, as text.
pub struct AppSettingsView {
    pub title: Seq<char>,
    pub default_url: Seq<char>,
}

impl View for AppSettings {
    type V = AppSettingsView;

    open spec fn view(&self) -> AppSettingsView {
        AppSettingsView { title: self.title@, default_url: self.default_url@ }
    }
}

impl AppSettings {
    /// What `AppSettings::default` gives.
    pub open spec fn default_view() -> AppSettingsView {
        AppSettingsView { title: default_title(), default_url: default_address() }
    }

    /// Settings with the given title whose new tabs open `address`, provided
    /// `address` denotes an absolute URL; the URL is kept in serialized form.
    pub fn with_address(title: String, address: &str) -> (r: Option<AppSettings>)
        ensures
            match r {
                Some(settings) => url_serialization(address@) == Some(settings@.default_url)
                    && settings@.title == title@,
                None => url_serialization(address@) is None,
            },
    {
        match serialize_url(address) {
            Some(default_url) => Some(AppSettings { title, default_url }),
            None => None,
        }
    }
}

impl Default for AppSettings {
    fn default() -> (settings: AppSettings)
        ensures
            settings@ == AppSettings::default_view(),
    {
        let address = "http://localhost:3333";
        let default_url = match serialize_url(address) {
            Some(serialized) => serialized,
            None => String::from_str(address),
        };
        AppSettings { title: String::from_str("Oliver Explorer"), default_url }
    }
}

} // verus!
