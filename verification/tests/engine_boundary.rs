use studio_loader::offsets::datamodel::{self, DataModel};
use studio_loader::slop::app::fetch_join_script_async;
use studio_loader::slop::rbx::analytics::{self, EventType, Points};
use studio_loader::slop::rbx::http::{
    get_with_retries, post_async, ready_empty_future, Http, HttpFuture, HttpPostData, HttpRequest,
    CONTENT_TYPE_APPLICATION_JSON,
};
use studio_loader::slop::rbx::settings::{
    BaseUrlSetting, ClientAppSettings, GameBasicSettings, GlobalSettings,
};
use studio_loader::slop::rbx::{self, content_is_url, network_is_trusted_content};

#[test]
fn base_url_reads_back_what_was_set() {
    let mut s = BaseUrlSetting::new();
    assert_eq!(rbx::base_url(&s), "");
    rbx::set_base_url(&mut s, "http://www.example.com/");
    assert_eq!(rbx::base_url(&s), "http://www.example.com/");
    rbx::settings::set_base_url(&mut s, "http://other/");
    assert_eq!(rbx::settings::base_url(&s), "http://other/");
}

#[test]
fn content_urls() {
    assert!(content_is_url("http://a"));
    assert!(content_is_url("https://a"));
    assert!(content_is_url("rbxassetid://1"));
    assert!(!content_is_url("ftp://a"));
    assert!(!content_is_url("http:/"));
    assert!(!content_is_url(""));
    assert!(network_is_trusted_content("anything"));
}

#[test]
fn http_handles() {
    assert!(!HttpFuture::empty().valid());
    assert!(get_with_retries("http://a", 5).valid());
    assert!(ready_empty_future().valid());
    let data = HttpPostData::new("{}".to_string(), CONTENT_TYPE_APPLICATION_JSON, true);
    assert_eq!(data.content_type, "application/json");
    assert!(data.gzip);
    assert!(post_async("http://a", data).valid());
    assert_eq!(ready_empty_future().get().unwrap(), "");
    let h = Http::new("http://a");
    assert!(h.additional_headers.is_empty());
    let mut out = String::from("kept");
    assert!(h.get(&mut out).is_ok());
    assert!(h.post(&b"body"[..], "text/plain", false, &mut out).is_ok());
    assert_eq!(out, "kept");
    assert!(Http::trust_check_browser("http://anything"));
    Http::set_use_curl(true);
    Http::set_use_statistics(true);
}

#[test]
fn join_script_fetch_always_gives_a_handle() {
    assert!(fetch_join_script_async("http://join").valid());
    assert!(fetch_join_script_async("not a url").valid());
    match fetch_join_script_async("http://join").request() {
        Some(HttpRequest::Get { url, retries }) => {
            assert_eq!(url, "http://join");
            assert_eq!(*retries, 5);
        }
        _ => panic!("a content URL is fetched"),
    }
    assert!(matches!(fetch_join_script_async("not a url").request(), Some(HttpRequest::Ready)));
    assert!(HttpFuture::empty().request().is_none());
}

#[test]
fn requests_are_kept() {
    match post_async("http://p", HttpPostData::new("b".to_string(), "text/plain", true)).request() {
        Some(HttpRequest::Post { url, data }) => {
            assert_eq!(url, "http://p");
            assert_eq!(data.body, "b");
            assert_eq!(data.content_type, "text/plain");
            assert!(data.gzip);
        }
        _ => panic!("a POST is kept"),
    }
    match studio_loader::slop::place_request::login_async("http://www.roblox.com/", "bob", "pw").request() {
        Some(HttpRequest::Post { url, data }) => {
            assert_eq!(url, "https://api.roblox.com/login/v1");
            assert_eq!(data.body, "{\"username\":\"bob\", \"password\":\"pw\"}");
            assert_eq!(data.content_type, "application/json");
            assert!(!data.gzip);
        }
        _ => panic!("a login is a POST"),
    }
}

#[test]
fn settings_defaults() {
    let c = ClientAppSettings::singleton();
    assert_eq!(c.http_use_curl_percentage_win_client(), 0);
    assert!(!c.google_analytics_init_fix());
    assert_eq!(c.google_analytics_load_player(), 0);
    assert!(!c.allow_video_preroll());
    assert_eq!(c.video_preroll_wait_time_seconds(), 0);
    let mut g = GameBasicSettings::singleton();
    assert!(!g.full_screen());
    assert!(!g.start_maximized());
    g.set_full_screen(true);
    assert!(g.full_screen());
    assert!(!g.start_maximized());
    g.set_start_maximized(true);
    assert!(g.start_maximized());
    assert!(g.full_screen());
    g.set_full_screen(false);
    assert!(!g.full_screen());
    assert!(g.start_maximized());
    GlobalSettings::basic().load_state("x");
    GlobalSettings::advanced().save_state();
    GlobalSettings::basic().remove_invalid_children();
}

#[test]
fn analytics_calls_are_accepted() {
    let mut p = Points::default();
    p.add_point("k", "v");
    p.report("n", 100);
    analytics::report_counter("c", 1, false);
    analytics::set_reporter("PC Player");
    analytics::set_location("x");
    analytics::set_app_version("1");
    analytics::track_event("a", "b", "c");
    analytics::report_event(EventType::Error, "m");
}

#[test]
fn v548_engine_addresses() {
    let d = datamodel::find(0x7FF7_0000_0000);
    assert_eq!(d.unsecured_studio_game, 0x7FF7_0000_0000 + 0x12A5680);
    assert_eq!(d.create_view, 0x7FF7_0000_0000 + 0x220ACA0);
    let base = DataModel { unsecured_studio_game: 0x10, create_view: 0x20 };
    assert!(base.fits_offset(-0x10));
    assert!(!base.fits_offset(-0x11));
    let moved = base.with_offset(-0x10);
    assert_eq!((moved.unsecured_studio_game, moved.create_view), (0, 0x10));
}

#[test]
fn engine_errors_display_their_text() {
    let e = studio_loader::slop::rbx::http::EngineError("timed out".to_string());
    assert_eq!(e.to_display_string(), "timed out");
}
