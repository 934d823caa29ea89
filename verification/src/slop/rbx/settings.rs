//! Boundary for the engine's settings singletons, and the base URL of the
//! web services.

use vstd::prelude::*;

verus! {

/// The base URL of the web services, as `::SetBaseURL` stores it.
pub struct BaseUrlSetting {
    url: String,
}

impl BaseUrlSetting {
    pub closed spec fn spec_url(&self) -> Seq<char> {
        self.url@
    }

    /// No base URL yet: the empty string.
    pub fn new() -> (r: BaseUrlSetting)
        ensures
            r.spec_url() == Seq::<char>::empty(),
    {
        BaseUrlSetting { url: String::new() }
    }
}

/// `::GetBaseURL()`: the URL last stored.
pub fn base_url(setting: &BaseUrlSetting) -> (r: String)
    ensures
        r@ == setting.spec_url(),
{
    setting.url.clone()
}

/// `::SetBaseURL()`: stores `url`.
pub fn set_base_url(setting: &mut BaseUrlSetting, url: &str)
    ensures
        final(setting).spec_url() == url@,
{
    setting.url = url.to_owned();
}

/// The client's application flags, every one at its default.
pub struct ClientAppSettings;

impl ClientAppSettings {
    pub fn singleton() -> ClientAppSettings {
        ClientAppSettings
    }

    pub fn http_use_curl_percentage_win_client(&self) -> (r: i32)
        ensures
            r == 0,
    {
        0
    }

    pub fn google_analytics_init_fix(&self) -> (r: bool)
        ensures
            !r,
    {
        false
    }

    pub fn google_analytics_load_player(&self) -> (r: i32)
        ensures
            r == 0,
    {
        0
    }

    pub fn allow_video_preroll(&self) -> (r: bool)
        ensures
            !r,
    {
        false
    }

    pub fn video_preroll_wait_time_seconds(&self) -> (r: i32)
        ensures
            r == 0,
    {
        0
    }
}

/// The global basic and advanced settings, which the inert engine does not store.
pub struct GlobalSettings;

impl GlobalSettings {
    pub fn basic() -> GlobalSettings {
        GlobalSettings
    }

    pub fn advanced() -> GlobalSettings {
        GlobalSettings
    }

    pub fn load_state(&self, path: &str) {
    }

    pub fn save_state(&self) {
    }

    pub fn remove_invalid_children(&self) {
    }
}

/// The player's basic game settings: whether the game runs fullscreen and
/// whether its window starts maximized. Each reads back what was last set.
pub struct GameBasicSettings {
    full_screen: bool,
    start_maximized: bool,
}

/// The settings as plain values.
pub struct GameBasicSettingsView {
    pub full_screen: bool,
    pub start_maximized: bool,
}

impl View for GameBasicSettings {
    type V = GameBasicSettingsView;

    closed spec fn view(&self) -> GameBasicSettingsView {
        GameBasicSettingsView { full_screen: self.full_screen, start_maximized: self.start_maximized }
    }
}

impl GameBasicSettings {
    /// The settings before anything was set: windowed, not maximized.
    pub fn singleton() -> (r: GameBasicSettings)
        ensures
            !r@.full_screen,
            !r@.start_maximized,
    {
        GameBasicSettings { full_screen: false, start_maximized: false }
    }

    /// Whether the game runs fullscreen: the value last set.
    pub fn full_screen(&self) -> (r: bool)
        ensures
            r == self@.full_screen,
    {
        self.full_screen
    }

    /// Sets whether the game runs fullscreen; the other setting stays.
    pub fn set_full_screen(&mut self, value: bool)
        ensures
            final(self)@.full_screen == value,
            final(self)@.start_maximized == old(self)@.start_maximized,
    {
        self.full_screen = value;
    }

    /// Whether the window starts maximized: the value last set.
    pub fn start_maximized(&self) -> (r: bool)
        ensures
            r == self@.start_maximized,
    {
        self.start_maximized
    }

    /// Sets whether the window starts maximized; the other setting stays.
    pub fn set_start_maximized(&mut self, value: bool)
        ensures
            final(self)@.start_maximized == value,
            final(self)@.full_screen == old(self)@.full_screen,
    {
        self.start_maximized = value;
    }
}

} // verus!
