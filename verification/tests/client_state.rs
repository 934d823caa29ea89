use studio_loader::slop::user_input::{
        alt_held, key_press_action, KeyPressAction, DIK_LMENU, DIK_RMENU, VK_F1, VK_F4,
    };
use studio_loader::slop::place_request::{place_info_step, PlaceInfoStep, PLACE_INFO_RETRY_PAUSE_MS};
use studio_loader::slop::function_marshaller::MarshallerRegistry;
use studio_loader::slop::game_verbs::{LeaveGameVerb, ToggleFullscreenVerb};
use studio_loader::slop::document::seo_text;
use studio_loader::slop::app::{
    execute_script_outcome, script_outcome, JoinScriptAction, LaunchOptions, ScriptOutcome,
    JOIN_FAILED_MESSAGE,
};
use studio_loader::slop::function_marshaller::AsyncQueue;
use studio_loader::slop::game_verbs::{toggle_fullscreen, RecordToggleVerb, Verb};
use studio_loader::slop::place_request::{
    is_place_launcher_url, login_async, login_body, login_url, place_info_result,
    place_launcher_url, push_i32, str_contains, PlaceSource, RequestPlaceInfoResult,
    REQUEST_PLACE_INFO_RETRY_COUNT,
};
use studio_loader::slop::rbx::http::{EngineError, ready_empty_future};
use studio_loader::slop::rbx::LaunchMode;
use studio_loader::slop::render_job::{get_metric, RenderJobState, StepResult};
use studio_loader::slop::user_input::{
    input_message, DeviceChange, InputMessage, InputState, MouseButton,
};
use studio_loader::slop::view::{
    window_settings, FullscreenChange, FullscreenState, SW_SHOWMAXIMIZED, SW_SHOWNORMAL,
};
use studio_loader::slop::web_browser_ax_dialog::{
    dispatch_id, invoke_action, video_upload, InvokeAction, UploadDialog, WebViewState,
    ROBLOX_BROWSER_FLAGS,
};
use studio_loader::slop::{WM_KILLFOCUS, WM_MOUSELEAVE, WM_MOUSEMOVE, WM_MOUSEWHEEL, WM_SETFOCUS, WM_TIMER};

#[test]
fn keyboard_follows_the_wish() {
    let mut s = InputState::new(false);
    assert_eq!(s.keyboard_change(), DeviceChange::Keep);
    let c = s.set_keyboard_desired(true);
    assert_eq!(c, DeviceChange::Acquire);
    s.keyboard_changed(c, false);
    assert!(!s.is_keyboard_acquired);
    assert_eq!(s.keyboard_change(), DeviceChange::Acquire);
    s.keyboard_changed(DeviceChange::Acquire, true);
    assert_eq!(s.keyboard_change(), DeviceChange::Keep);
    let c = s.set_keyboard_desired(false);
    assert_eq!(c, DeviceChange::Release);
    s.keyboard_changed(c, true);
    assert!(!s.is_keyboard_acquired);
    assert_eq!(s.keyboard_change(), DeviceChange::Keep);
}

#[test]
fn mouse_enters_and_leaves() {
    let mut s = InputState::new(false);
    assert!(s.auto_mouse_move);
    assert!(s.needs_leave_tracking());
    // Tracking could not be started: nothing changes.
    assert!(!s.mouse_entered(false));
    assert!(!s.is_mouse_inside);
    assert!(s.mouse_entered(true));
    assert!(s.is_mouse_inside);
    assert!(!s.needs_leave_tracking());
    assert_eq!(s.mouse_change(), DeviceChange::Acquire);
    s.mouse_acquired(false);
    assert!(!s.is_mouse_acquired);
    s.mouse_acquired(true);
    assert!(s.is_mouse_acquired);
    assert_eq!(s.mouse_change(), DeviceChange::Keep);
    // A second enter does nothing.
    assert!(!s.mouse_entered(true));
    assert!(s.mouse_left());
    assert!(!s.is_mouse_inside);
    assert_eq!(s.mouse_change(), DeviceChange::Release);
    s.mouse_released();
    assert_eq!(s.mouse_change(), DeviceChange::Keep);
    assert!(!s.mouse_left());
    assert!(!s.is_mouse_captured);
}

#[test]
fn mouse_buttons_with_and_without_swap() {
    let mut s = InputState::new(false);
    assert_eq!(s.mouse_button(MouseButton::Left, true), MouseButton::Left);
    assert!(s.left_mouse_button_down);
    assert!(!s.auto_mouse_move);
    assert_eq!(s.mouse_button(MouseButton::Left, false), MouseButton::Left);
    assert!(!s.left_mouse_button_down);
    assert!(s.auto_mouse_move);
    assert_eq!(s.mouse_button(MouseButton::Middle, true), MouseButton::Middle);
    assert!(!s.right_mouse_down);

    let mut t = InputState::new(true);
    assert_eq!(t.mouse_button(MouseButton::Left, true), MouseButton::Right);
    assert!(t.right_mouse_down);
    assert!(!t.left_mouse_button_down);
    assert!(t.auto_mouse_move);
    assert_eq!(t.mouse_button(MouseButton::Right, true), MouseButton::Left);
    assert!(t.left_mouse_button_down);
    assert!(!t.auto_mouse_move);
}

#[test]
fn input_messages() {
    assert_eq!(input_message(WM_MOUSEMOVE, 0, 0x0020_0010), InputMessage::MouseMove(0x10, 0x20));
    assert_eq!(input_message(WM_MOUSELEAVE, 0, 0), InputMessage::MouseLeave);
    assert_eq!(
        input_message(WM_MOUSEWHEEL, 0xFFFF_FF88, 0x0002_0001),
        InputMessage::MouseWheel(1, 2, -120)
    );
    assert_eq!(input_message(WM_MOUSEWHEEL, 120, 0), InputMessage::MouseWheel(0, 0, 120));
    assert_eq!(input_message(WM_SETFOCUS, 0, 0), InputMessage::SetFocus);
    assert_eq!(input_message(WM_KILLFOCUS, 0, 0), InputMessage::KillFocus);
    assert_eq!(input_message(WM_TIMER, 0, 0), InputMessage::Ignored);
}

#[test]
fn render_job_steps_until_stopped() {
    let mut j = RenderJobState::new();
    assert!(j.is_awake);
    assert_eq!(j.step_data_model_job(false), StepResult::Done);
    assert!(j.is_awake);
    assert_eq!(j.step_data_model_job(true), StepResult::Stepped);
    assert!(!j.is_awake);
    j.stop();
    assert_eq!(j.step_data_model_job(true), StepResult::Done);
    assert!(j.stopped);
}

#[test]
fn render_metrics() {
    assert_eq!(get_metric("Graphics Mode"), "OpenGL");
    assert_eq!(get_metric("Render"), "0.0/s 0%");
    assert_eq!(get_metric("render"), "?");
    assert_eq!(get_metric(""), "?");
}

#[test]
fn fullscreen_changes() {
    let mut v = FullscreenState { fullscreen: false, desire_fullscreen: false };
    assert_eq!(v.show_command(), SW_SHOWNORMAL);
    assert_eq!(v.set_fullscreen(true), FullscreenChange::Enter);
    assert!(v.fullscreen && v.desire_fullscreen);
    assert_eq!(v.show_command(), SW_SHOWMAXIMIZED);
    assert_eq!(v.set_fullscreen(true), FullscreenChange::Keep);
    assert_eq!(v.set_fullscreen(false), FullscreenChange::Leave);
    assert!(!v.fullscreen && !v.desire_fullscreen);
    // Saving the windowed placement happens only when entering fullscreen.
    assert!(v.change_resolution());
    assert!(!v.change_resolution());
    v.restore_resolution();
    assert!(!v.fullscreen);
}

#[test]
fn toggling_fullscreen_twice() {
    let mut v = FullscreenState { fullscreen: false, desire_fullscreen: false };
    assert_eq!(toggle_fullscreen(&mut v), FullscreenChange::Enter);
    assert!(v.fullscreen);
    assert_eq!(toggle_fullscreen(&mut v), FullscreenChange::Leave);
    assert!(!v.fullscreen);
}

#[test]
fn remembered_window_settings() {
    let w = window_settings(10, 20, 810, 620, SW_SHOWMAXIMIZED);
    assert_eq!((w.left, w.top, w.width, w.height, w.maximized), (10, 20, 800, 600, true));
    let w = window_settings(-5, 0, 5, 0, SW_SHOWNORMAL);
    assert_eq!((w.width, w.height, w.maximized), (10, 0, false));
}

#[test]
fn record_toggle() {
    let mut v = RecordToggleVerb::new();
    assert!(!v.is_checked());
    assert!(v.is_enabled());
    v.do_it();
    assert!(v.is_checked());
    v.do_it();
    assert!(!v.recording);
}

#[test]
fn async_calls_come_out_in_order_with_one_post() {
    let mut q: AsyncQueue<u32> = AsyncQueue::new();
    assert!(q.submit(1));
    assert!(!q.submit(2));
    assert!(!q.submit(3));
    assert_eq!(q.drain(), vec![1, 2, 3]);
    assert!(q.drain().is_empty());
    assert!(q.submit(4));
    assert_eq!(q.drain(), vec![4]);
}

#[test]
fn writes_integers_like_display() {
    for v in [0, 7, 10, 1818, -1, -42, i32::MAX, i32::MIN] {
        let mut s = String::from("x");
        push_i32(&mut s, v);
        assert_eq!(s, format!("x{v}"));
        assert_eq!(s[1..].parse::<i32>(), Ok(v));
    }
}

#[test]
fn place_launcher_request() {
    assert_eq!(
        place_launcher_url("http://www.roblox.com/", 1818),
        "http://www.roblox.com/Game/PlaceLauncher.ashx?request=RequestGame&placeId=1818&isPartyLeader=false&gender=&isTeleport=true"
    );
    assert_eq!(
        place_launcher_url("", -3),
        "Game/PlaceLauncher.ashx?request=RequestGame&placeId=-3&isPartyLeader=false&gender=&isTeleport=true"
    );
    assert_eq!(REQUEST_PLACE_INFO_RETRY_COUNT, 5);
}

#[test]
fn place_info_statuses() {
    assert_eq!(place_info_result(2), RequestPlaceInfoResult::Success);
    assert_eq!(place_info_result(6), RequestPlaceInfoResult::GameFull);
    assert_eq!(place_info_result(10), RequestPlaceInfoResult::UserLeft);
    assert_eq!(place_info_result(0), RequestPlaceInfoResult::Retry);
    assert_eq!(place_info_result(1), RequestPlaceInfoResult::Retry);
    assert_eq!(place_info_result(3), RequestPlaceInfoResult::Failed);
    assert_eq!(place_info_result(-1), RequestPlaceInfoResult::Failed);
}

#[test]
fn substring_search() {
    assert!(str_contains("abc", ""));
    assert!(str_contains("abc", "abc"));
    assert!(str_contains("xxabcxx", "bc"));
    assert!(!str_contains("ab", "abc"));
    assert!(!str_contains("abd", "abc"));
}

#[test]
fn place_launcher_urls_by_lowercase() {
    assert!(is_place_launcher_url("http://www.roblox.com/Game/PlaceLauncher.ashx?x=1"));
    assert!(is_place_launcher_url("HTTP://X/PLACELAUNCHER.ASHX"));
    assert!(!is_place_launcher_url("http://www.roblox.com/Game/Join.ashx"));
}

#[test]
fn place_sources() {
    let mut o = LaunchOptions::new();
    assert!(o.parse_arguments("-id 1818 -a http://auth -t tick -j http://x/PlaceLauncher.ashx"));
    match o.place_source() {
        PlaceSource::PlaceId(id) => assert_eq!(id, 1818),
        _ => panic!("an id comes first"),
    }
    assert_eq!(o.launch_mode, LaunchMode::Play);

    let mut o = LaunchOptions::new();
    assert!(o.parse_arguments("-a http://auth -t tick -j http://x/PlaceLauncher.ashx"));
    match o.place_source() {
        PlaceSource::Given { authentication_url, authentication_ticket, join_script_url, place_launcher } => {
            assert_eq!(authentication_url, "http://auth");
            assert_eq!(authentication_ticket, "tick");
            assert_eq!(join_script_url, "http://x/PlaceLauncher.ashx");
            assert!(place_launcher);
        }
        _ => panic!("the URLs were given"),
    }
    assert_eq!(o.launch_mode, LaunchMode::PlayProtocol);

    let mut o = LaunchOptions::new();
    assert!(o.parse_arguments("-a http://auth -t tick -j http://x/Join.ashx"));
    match o.place_source() {
        PlaceSource::Given { place_launcher, .. } => assert!(!place_launcher),
        _ => panic!("the URLs were given"),
    }
    assert_eq!(o.launch_mode, LaunchMode::Play);

    let mut o = LaunchOptions::new();
    assert!(o.parse_arguments("-a http://auth -j http://x/PlaceLauncher.ashx"));
    assert!(matches!(o.place_source(), PlaceSource::Nothing));
    assert_eq!(o.launch_mode, LaunchMode::Play);
}

#[test]
fn login_request() {
    assert_eq!(login_url("http://www.roblox.com/"), "https://api.roblox.com/login/v1");
    assert_eq!(login_url("https://www.x/"), "httpss://api.x/login/v1");
    assert_eq!(login_url(""), "login/v1");
    assert_eq!(login_url("wwwww"), "apiwwlogin/v1");
    assert_eq!(
        login_body("bob", "pw"),
        "{\"username\":\"bob\", \"password\":\"pw\"}"
    );
    assert!(login_async("http://www.roblox.com/", "bob", "pw").valid());
}

#[test]
fn join_script_outcomes() {
    match script_outcome(Err(EngineError("timeout".to_owned())), false) {
        ScriptOutcome::Failed(m) => assert_eq!(m, "Exception in Document::executeScript: timeout"),
        _ => panic!("a failed fetch is reported"),
    }
    assert!(matches!(script_outcome(Ok("x\r\ny".to_owned()), true), ScriptOutcome::Closed));
    match script_outcome(Ok("sig\r\n{\"a\":1}".to_owned()), false) {
        ScriptOutcome::Run(JoinScriptAction::ConfigurePlayer(s)) => assert_eq!(s, "{\"a\":1}"),
        _ => panic!("a JSON object configures the player"),
    }
    assert!(matches!(
        execute_script_outcome(&ready_empty_future(), false),
        ScriptOutcome::Run(JoinScriptAction::Ignore)
    ));
    assert_eq!(JOIN_FAILED_MESSAGE, "Unable to join game. Please try again later.");
}

#[test]
fn upload_dialog() {
    assert_eq!(dispatch_id("CheckAppHost"), Some(0));
    assert_eq!(dispatch_id("AppHostOpenVideoFolder"), Some(1));
    assert_eq!(dispatch_id("AppHostUploadVideo"), Some(2));
    assert_eq!(dispatch_id("AppHostOpenPicFolder"), Some(3));
    assert_eq!(dispatch_id("AppHostPostImage"), Some(4));
    assert_eq!(dispatch_id("apphostpostimage"), None);
    assert_eq!(invoke_action(1), InvokeAction::OpenVideoFolder);
    assert_eq!(invoke_action(2), InvokeAction::UploadVideo);
    assert_eq!(invoke_action(3), InvokeAction::OpenPictureFolder);
    assert_eq!(invoke_action(4), InvokeAction::NeverPostImages);
    assert_eq!(invoke_action(0), InvokeAction::Nothing);

    let u = video_upload("tok".to_owned(), String::new(), String::new(), 1818);
    assert_eq!(u.title, "ROBLOX ROCKS!");
    assert_eq!(u.token, "tok");
    assert_eq!(
        u.seo_info,
        "To play this game, please visit: http://www.roblox.com/item.aspx?id=1818&amp;rbx_source=youtube&amp;rbx_medium=uservideo"
    );
    assert!(!u.site_seo);
    let u = video_upload(String::new(), "mine".to_owned(), String::new(), 0);
    assert_eq!(u.title, "mine");
    assert_eq!(u.seo_info, "");
    assert!(u.site_seo);
    let u = video_upload(String::new(), "t".to_owned(), "site text".to_owned(), 5);
    assert_eq!(u.seo_info, "site text");
    assert!(u.site_seo);
}

#[test]
fn browser_dialog_closes_once() {
    assert_eq!(ROBLOX_BROWSER_FLAGS, 0x0055_0015);
    let mut w = WebViewState { dialog_active: false };
    assert!(!w.close_dialog());
    assert!(w.on_init_dialog());
    assert!(w.close_dialog());
    assert!(!w.close_dialog());
}

#[test]
fn default_graphics_context() {
    let c = studio_loader::slop::view::OSContext::default();
    assert_eq!((c.hwnd, c.width, c.height), (0, 640, 480));
}

#[test]
fn starting_an_upload_disables_the_button_once() {
    let mut d = UploadDialog::new(true);
    d.set_file_name("clip.avi".to_owned());
    assert_eq!(d.do_upload_video("tok".to_owned(), String::new(), String::new(), 42), Some(false));
    let u = d.upload.as_ref().unwrap();
    assert_eq!(u.title, "ROBLOX ROCKS!");
    assert_eq!(u.token, "tok");
    assert_eq!(
        u.seo_info,
        "To play this game, please visit: http://www.roblox.com/item.aspx?id=42&amp;rbx_source=youtube&amp;rbx_medium=uservideo"
    );
    assert!(!u.site_seo);
    assert_eq!(d.file_name, "clip.avi");
    let mut quiet = UploadDialog::new(false);
    assert_eq!(quiet.do_upload_video("t".to_owned(), "x".to_owned(), "s".to_owned(), 1), None);
}

#[test]
fn alt_f4_closes_and_other_keys_follow_the_whitelist() {
    let mut keys = [0u8; 256];
    assert!(!alt_held(&keys));
    keys[DIK_LMENU] = 0x80;
    assert!(alt_held(&keys));
    keys[DIK_LMENU] = 0x7F;
    keys[DIK_RMENU] = 0x81;
    assert!(alt_held(&keys));
    assert_eq!(key_press_action(VK_F4, true), KeyPressAction::Close);
    assert_eq!(key_press_action(VK_F4, false), KeyPressAction::Accelerator);
    assert_eq!(key_press_action(VK_F1, true), KeyPressAction::Accelerator);
    assert_eq!(key_press_action(0x41, true), KeyPressAction::Suppressed);
}

#[test]
fn place_info_is_asked_six_times_before_giving_up() {
    let mut retries = REQUEST_PLACE_INFO_RETRY_COUNT;
    let mut asked = 0;
    loop {
        asked += 1;
        match place_info_step(retries, RequestPlaceInfoResult::Failed) {
            PlaceInfoStep::PauseThenRetry(left) => retries = left,
            PlaceInfoStep::PauseThenGiveUp => break,
            PlaceInfoStep::Found => panic!("nothing was found"),
        }
    }
    assert_eq!(asked, 6);
    assert_eq!(place_info_step(3, RequestPlaceInfoResult::Success), PlaceInfoStep::Found);
    assert_eq!(place_info_step(3, RequestPlaceInfoResult::Retry), PlaceInfoStep::PauseThenRetry(2));
    assert_eq!(PLACE_INFO_RETRY_PAUSE_MS, 2000);
}

#[test]
fn one_marshaller_per_thread() {
    let mut r = MarshallerRegistry::new();
    assert!(r.get_window(7));
    assert!(!r.get_window(7));
    assert!(r.get_window(8));
    assert!(!r.release_window(7));
    assert!(r.release_window(7));
    assert!(r.get_window(7));
    assert!(r.release_window(8));
    // Another thread that already holds a marshaller does not touch thread 7's.
    assert!(r.get_window(9));
    assert!(!r.get_window(7));
    assert!(!r.get_window(9));
    assert!(!r.release_window(7));
    assert!(r.release_window(7));
    assert!(!r.release_window(9));
    assert!(r.release_window(9));
}

#[test]
fn leave_and_fullscreen_verbs() {
    let mut leave = LeaveGameVerb::new(true);
    leave.do_it();
    assert_eq!(leave.closes_requested, 1);
    let mut none = LeaveGameVerb::new(false);
    none.do_it();
    assert_eq!(none.closes_requested, 0);
    let mut t = ToggleFullscreenVerb::new(Some(FullscreenState { fullscreen: false, desire_fullscreen: false }));
    assert!(t.view.is_some());
    assert!(!t.is_checked());
    t.do_it();
    assert!(t.is_checked());
    t.do_it();
    assert!(!t.is_checked());
    let mut empty = ToggleFullscreenVerb::new(None);
    empty.do_it();
    assert!(!empty.is_checked());
}

#[test]
fn screenshot_text() {
    assert_eq!(seo_text(Some("place".to_owned())), "place");
    assert_eq!(seo_text(Some(String::new())), "");
    assert_eq!(seo_text(None), "");
}
