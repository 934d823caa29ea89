use studio_loader::slop::app::{
    is_whitespace, join_script_action, parse_i32, parse_program_options, split_winmain, str_eq,
    trim_start_dashes, JoinScriptAction, LaunchOptions,
};
use studio_loader::slop::rbx::LaunchMode;
use studio_loader::slop::user_input::{accelerator_key_allowed, effective_button, MouseButton};
use studio_loader::slop::view::{handle_windows_message_action, ActivationAction};
use studio_loader::slop::{hiword, loword, route_window_message, WindowMessage};

#[test]
fn splits_at_whitespace_outside_quotes() {
    assert_eq!(split_winmain("-id 1818"), vec!["-id", "1818"]);
    assert_eq!(split_winmain("  a   b\tc\n"), vec!["a", "b", "c"]);
    assert_eq!(split_winmain(r#"-c "C:\Program Files\x" -play"#), vec!["-c", r"C:\Program Files\x", "-play"]);
    assert_eq!(split_winmain(r#"a""b "" c"#), vec!["ab", "c"]);
    assert!(split_winmain("").is_empty());
    assert!(split_winmain("   ").is_empty());
}

#[test]
fn split_tokens_are_clean() {
    for line in [r#""" "a b" "#, r#"x"y z"w"#, "\u{3000}q\u{A0}r"] {
        for t in split_winmain(line) {
            assert!(!t.is_empty());
            assert!(!t.contains('"'));
        }
    }
    assert_eq!(split_winmain("q\u{3000}r"), vec!["q", "r"]);
}

#[test]
fn parses_integers_like_std() {
    for s in ["0", "42", "-42", "+7", "2147483647", "-2147483648", "2147483648", "-2147483649",
              "", "-", "+", "1a", " 1", "99999999999999999999", "00012", "+-1"] {
        assert_eq!(parse_i32(s), s.parse::<i32>().ok(), "input {s:?}");
    }
}

#[test]
fn trims_leading_dashes() {
    assert_eq!(trim_start_dashes("--id"), "id");
    assert_eq!(trim_start_dashes("id-"), "id-");
    assert_eq!(trim_start_dashes("---"), "");
    assert!(str_eq("abc", "abc"));
    assert!(!str_eq("abc", "abd"));
    assert!(!str_eq("ab", "abc"));
}

#[test]
fn empty_command_line_asks_for_help() {
    let a = parse_program_options("").unwrap();
    assert!(a.help);
    assert!(!a.version && a.id.is_none());
}

#[test]
fn options_with_values() {
    let a = parse_program_options(
        "-id 1818 --content C:\\c -a http://auth -t tick -j http://join -b 7 -w ev -g set.xml --API out.txt",
    )
    .unwrap();
    assert_eq!(a.id, Some(1818));
    assert_eq!(a.content.as_deref(), Some("C:\\c"));
    assert_eq!(a.authentication_url.as_deref(), Some("http://auth"));
    assert_eq!(a.authentication_ticket.as_deref(), Some("tick"));
    assert_eq!(a.join_script_url.as_deref(), Some("http://join"));
    assert_eq!(a.browser_tracker_id.as_deref(), Some("7"));
    assert_eq!(a.wait_event.as_deref(), Some("ev"));
    assert_eq!(a.global_basic_settings_path.as_deref(), Some("set.xml"));
    assert_eq!(a.api_out.as_deref(), Some("out.txt"));
    assert!(!a.help);
}

#[test]
fn flags_and_unknown_tokens() {
    let a = parse_program_options("-play -app -dmp -v -? stray").unwrap();
    assert!(a.play && a.app && a.dmp && a.version && a.help);
    let b = parse_program_options("-id notanumber -play").unwrap();
    assert_eq!(b.id, None);
    assert!(b.play);
    let c = parse_program_options("-play -id").unwrap();
    assert!(c.play);
    assert_eq!(c.id, None);
    let d = parse_program_options("-c -play").unwrap();
    assert_eq!(d.content.as_deref(), Some("-play"));
    assert!(!d.play);
}

#[test]
fn parse_arguments_decides_whether_to_start() {
    let mut o = LaunchOptions::new();
    assert!(o.parse_arguments("-id 1818"));
    assert_eq!(o.args.id, Some(1818));
    assert_eq!(o.launch_mode, LaunchMode::Play);

    let mut o = LaunchOptions::new();
    assert!(!o.parse_arguments(""));
    let mut o = LaunchOptions::new();
    assert!(!o.parse_arguments("-API x"));
    let mut o = LaunchOptions::new();
    assert!(!o.parse_arguments("-g keep.xml -version"));
    assert_eq!(o.global_basic_settings_path, "keep.xml");
    assert!(o.args.id.is_none());

    let mut o = LaunchOptions::new();
    assert!(o.parse_arguments("-c assets -w event -play"));
    assert_eq!(o.asset_folder.as_deref(), Some("assets"));
    assert_eq!(o.wait_event_name, "event");
}

#[test]
fn join_script_actions() {
    match join_script_action("--sig\r\n{\"a\":1}") {
        JoinScriptAction::ConfigurePlayer(s) => assert_eq!(s, "{\"a\":1}"),
        _ => panic!("expected a player configuration"),
    }
    match join_script_action("--sig\r\nprint(1)\r\nx") {
        JoinScriptAction::ExecuteScript(s) => assert_eq!(s, "print(1)\r\nx"),
        _ => panic!("expected a script"),
    }
    match join_script_action("--sig\r\n") {
        JoinScriptAction::ExecuteScript(s) => assert_eq!(s, ""),
        _ => panic!("expected an empty script"),
    }
    assert!(matches!(join_script_action("no line break\n"), JoinScriptAction::Ignore));
}

#[test]
fn message_words() {
    assert_eq!(loword(0x1234_5678), 0x5678);
    assert_eq!(hiword(0x1234_5678), 0x1234);
    assert_eq!(loword(0), 0);
    assert_eq!(hiword(0xFFFF_0000), 0xFFFF);
}

#[test]
fn window_message_routing() {
    assert_eq!(route_window_message(0x0113, 0, 0), WindowMessage::Timer);
    assert_eq!(route_window_message(0x0111, 0x1_0042, 0), WindowMessage::Command(0x42));
    assert_eq!(route_window_message(0x0024, 0, 0), WindowMessage::GetMinMaxInfo);
    assert_eq!(route_window_message(0x0200, 0, 0), WindowMessage::Input);
    assert_eq!(route_window_message(0x0100, 0, 0), WindowMessage::Input);
    assert_eq!(route_window_message(0x0002, 0, 0), WindowMessage::Destroy);
    assert_eq!(route_window_message(0x0005, 0, 0x0258_0320), WindowMessage::Size(800, 600));
    assert_eq!(route_window_message(0x000F, 0, 0), WindowMessage::Default);
}

#[test]
fn view_activation() {
    assert_eq!(handle_windows_message_action(0x0006, 1, true, false, false), ActivationAction::RestoreFullscreen);
    assert_eq!(handle_windows_message_action(0x0006, 2, false, true, false), ActivationAction::RestoreFullscreen);
    assert_eq!(handle_windows_message_action(0x0006, 1, true, true, true), ActivationAction::Nothing);
    assert_eq!(handle_windows_message_action(0x0006, 0x1_0000, true, false, false), ActivationAction::DropToPopup);
    assert_eq!(handle_windows_message_action(0x0006, 0, false, true, false), ActivationAction::Nothing);
    assert_eq!(handle_windows_message_action(0x0006, 1, false, false, false), ActivationAction::Nothing);
    assert_eq!(handle_windows_message_action(0x0200, 1, true, true, false), ActivationAction::ForwardToInput);
}

#[test]
fn input_decisions() {
    assert_eq!(effective_button(MouseButton::Left, true), MouseButton::Right);
    assert_eq!(effective_button(MouseButton::Right, true), MouseButton::Left);
    assert_eq!(effective_button(MouseButton::Middle, true), MouseButton::Middle);
    assert_eq!(effective_button(MouseButton::Left, false), MouseButton::Left);
    for k in [0x70u16, 0x73, 0x77, 0x7A, 0x2C] {
        assert!(accelerator_key_allowed(k));
    }
    assert!(!accelerator_key_allowed(0x41));
    assert!(!accelerator_key_allowed(0x71));
}

#[test]
fn white_space_is_unicode_white_space() {
    for u in 0u32..=0x10FFFF {
        if let Some(c) = char::from_u32(u) {
            assert_eq!(is_whitespace(c), c.is_whitespace(), "U+{u:04X}");
        }
    }
    let toks = split_winmain("a\u{3000}b\u{A0}c\u{200B}d");
    assert_eq!(toks, vec!["a", "b", "c\u{200B}d"]);
}
