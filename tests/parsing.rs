use nicotine::settings::{
    default_backward_button, default_backward_key, default_enable_keyboard,
    default_enable_mouse, default_forward_button, default_forward_key,
    default_keyboard_device_path, default_minimize_inactive, default_modifier_key,
    default_mouse_device_path, default_show_overlay,
};
use nicotine::{
    compositor_from_lowered, detect_display_server, detect_display_size,
    detect_wayland_compositor, is_event_node_name, is_newer_version, newer_release,
    parse_characters, parse_version, select_backend, select_client_windows, Backend,
    BackendError, Command, Direction, DisplayLayout, DisplayServer, KeyboardState,
    MouseBindings, VersionError, WaylandCompositor,
};

#[test]
fn test_parse_version() {
    assert_eq!(parse_version("0.2.1").unwrap(), (0, 2, 1));
    assert_eq!(parse_version("1.0.0").unwrap(), (1, 0, 0));
    assert_eq!(parse_version("10.20.30").unwrap(), (10, 20, 30));
}

#[test]
fn test_is_newer_version() {
    assert!(is_newer_version("0.2.2", "0.2.1").unwrap());
    assert!(is_newer_version("0.3.0", "0.2.9").unwrap());
    assert!(is_newer_version("1.0.0", "0.9.9").unwrap());

    assert!(!is_newer_version("0.2.1", "0.2.1").unwrap());
    assert!(!is_newer_version("0.2.0", "0.2.1").unwrap());
    assert!(!is_newer_version("0.1.9", "0.2.0").unwrap());
}

#[test]
fn version_errors() {
    assert_eq!(parse_version("1.2"), Err(VersionError::InvalidFormat));
    assert_eq!(parse_version("1.2.3.4"), Err(VersionError::InvalidFormat));
    assert_eq!(parse_version("a.2.3"), Err(VersionError::Major));
    assert_eq!(parse_version("1..3"), Err(VersionError::Minor));
    assert_eq!(parse_version("1.2.4294967296"), Err(VersionError::Patch));
    assert_eq!(parse_version("1.2.4294967295"), Ok((1, 2, 4294967295)));
    assert_eq!(parse_version("+1.2.3"), Ok((1, 2, 3)));
    assert_eq!(is_newer_version("x", "1.0.0"), Err(VersionError::InvalidFormat));
    assert_eq!(is_newer_version("1.0.0", "1.0.y"), Err(VersionError::Patch));
}

#[test]
fn release_tags() {
    assert_eq!(newer_release("v0.3.0", "0.2.1"), Ok(Some("0.3.0".to_string())));
    assert_eq!(newer_release("vv1.0.0", "0.2.1"), Ok(Some("1.0.0".to_string())));
    assert_eq!(newer_release("v0.2.1", "0.2.1"), Ok(None));
    assert_eq!(newer_release("release-1", "0.2.1"), Err(VersionError::InvalidFormat));
}

#[test]
fn test_eve_height_adjusted_with_panel() {
    let layout = DisplayLayout {
        display_width: 1920,
        display_height: 1080,
        panel_height: 40,
        eve_width: 1000,
        eve_height: 1080,
    };
    assert_eq!(layout.eve_height_adjusted(), 1040);
}

#[test]
fn test_eve_height_adjusted_without_panel() {
    let layout = DisplayLayout {
        display_width: 1920,
        display_height: 1080,
        panel_height: 0,
        eve_width: 1000,
        eve_height: 1080,
    };
    assert_eq!(layout.eve_height_adjusted(), 1080);
}

#[test]
fn stack_rect_is_centered() {
    let layout = DisplayLayout {
        display_width: 7680,
        display_height: 2160,
        panel_height: 40,
        eve_width: 4147,
        eve_height: 2160,
    };
    assert_eq!(layout.stack_rect(), (1766, 0, 4147, 2120));
}

#[test]
fn control_lines() {
    assert_eq!(Command::from_str("forward\n"), Some(Command::Forward));
    assert_eq!(Command::from_str("  backward  "), Some(Command::Backward));
    assert_eq!(Command::from_str("refresh"), Some(Command::Refresh));
    assert_eq!(Command::from_str("quit\r\n"), Some(Command::Quit));
    assert_eq!(Command::from_str("switch:3"), Some(Command::Switch(3)));
    assert_eq!(Command::from_str("switch:0\n"), Some(Command::Switch(0)));
    assert_eq!(Command::from_str("switch:+7"), Some(Command::Switch(7)));
    assert_eq!(Command::from_str("switch:"), None);
    assert_eq!(Command::from_str("switch:-1"), None);
    assert_eq!(Command::from_str("switch:abc"), None);
    assert_eq!(Command::from_str("switch: 2"), None);
    assert_eq!(Command::from_str("Forward"), None);
    assert_eq!(Command::from_str(""), None);
}

#[test]
fn keyboard_modifier_selects_backward() {
    let mut keys = KeyboardState::new(15, 15, Some(42));
    assert_eq!(keys.on_key_event(15, 1), Some(Direction::Forward));
    assert_eq!(keys.on_key_event(42, 1), None);
    assert!(keys.modifier_pressed);
    assert_eq!(keys.on_key_event(15, 1), Some(Direction::Backward));
    assert_eq!(keys.on_key_event(15, 2), None);
    assert_eq!(keys.on_key_event(15, 0), None);
    assert_eq!(keys.on_key_event(42, 0), None);
    assert!(!keys.modifier_pressed);
    assert_eq!(keys.on_key_event(15, 2), None);
    assert_eq!(keys.on_key_event(15, 1), Some(Direction::Forward));
}

#[test]
fn keyboard_distinct_keys_without_modifier() {
    let mut keys = KeyboardState::new(59, 60, None);
    assert_eq!(keys.on_key_event(59, 1), Some(Direction::Forward));
    assert_eq!(keys.on_key_event(60, 1), Some(Direction::Backward));
    assert_eq!(keys.on_key_event(61, 1), None);
}

#[test]
fn mouse_presses_only() {
    let buttons = MouseBindings {
        forward_button: 276,
        backward_button: 275,
    };
    assert_eq!(buttons.on_button_event(276, 1), Some(Direction::Forward));
    assert_eq!(buttons.on_button_event(275, 1), Some(Direction::Backward));
    assert_eq!(buttons.on_button_event(276, 0), None);
    assert_eq!(buttons.on_button_event(276, 2), None);
    assert_eq!(buttons.on_button_event(272, 1), None);
}

#[test]
fn event_node_names() {
    assert!(is_event_node_name("event3"));
    assert!(!is_event_node_name("mouse0"));
    assert!(!is_event_node_name("even"));
}

#[test]
fn display_server_detection() {
    assert_eq!(detect_display_server(Some("wayland"), false), DisplayServer::Wayland);
    assert_eq!(detect_display_server(Some("x11"), false), DisplayServer::X11);
    assert_eq!(detect_display_server(None, true), DisplayServer::Wayland);
    assert_eq!(detect_display_server(None, false), DisplayServer::X11);
}

#[test]
fn compositor_detection() {
    assert_eq!(detect_wayland_compositor(Some("KDE"), false, false), WaylandCompositor::Kde);
    assert_eq!(
        detect_wayland_compositor(Some("ubuntu:GNOME"), true, false),
        WaylandCompositor::Gnome
    );
    assert_eq!(detect_wayland_compositor(Some("Hyprland"), false, false), WaylandCompositor::Hyprland);
    assert_eq!(detect_wayland_compositor(Some("river"), true, true), WaylandCompositor::Sway);
    assert_eq!(detect_wayland_compositor(None, false, true), WaylandCompositor::Hyprland);
    assert_eq!(detect_wayland_compositor(None, false, false), WaylandCompositor::Other);
    assert_eq!(compositor_from_lowered(Some("sway"), false, false), WaylandCompositor::Sway);
    assert_eq!(compositor_from_lowered(Some("KDE"), false, false), WaylandCompositor::Other);
}

#[test]
fn backend_selection() {
    assert_eq!(select_backend(DisplayServer::X11, WaylandCompositor::Gnome), Ok(Backend::X11));
    assert_eq!(select_backend(DisplayServer::Wayland, WaylandCompositor::Kde), Ok(Backend::KWin));
    assert_eq!(select_backend(DisplayServer::Wayland, WaylandCompositor::Sway), Ok(Backend::Sway));
    assert_eq!(
        select_backend(DisplayServer::Wayland, WaylandCompositor::Hyprland),
        Ok(Backend::Hyprland)
    );
    assert_eq!(
        select_backend(DisplayServer::Wayland, WaylandCompositor::Gnome),
        Err(BackendError::GnomeUnsupported)
    );
    assert_eq!(
        select_backend(DisplayServer::Wayland, WaylandCompositor::Other),
        Err(BackendError::UnknownCompositor)
    );
}

#[test]
fn client_window_selection() {
    let listed = vec![
        (5u32, "EVE - Alpha".to_string()),
        (6u32, "Firefox".to_string()),
        (7u32, "EVE - Launcher".to_string()),
        (8u32, "EVE - EVE - Bravo".to_string()),
        (9u32, "EVE".to_string()),
        (10u32, "EVE - ".to_string()),
    ];
    let clients = select_client_windows(&listed);
    let got: Vec<(u32, String)> = clients.iter().map(|w| (w.id, w.title.clone())).collect();
    assert_eq!(
        got,
        vec![
            (5, "Alpha".to_string()),
            (8, "Bravo".to_string()),
            (10, String::new())
        ]
    );
}

#[test]
fn character_file() {
    let contents = "Alpha\n  Bravo  \r\n\n# comment\nCharlie Delta\n   \n";
    assert_eq!(
        parse_characters(contents),
        vec!["Alpha".to_string(), "Bravo".to_string(), "Charlie Delta".to_string()]
    );
    assert!(parse_characters("").is_empty());
}

#[test]
fn display_report() {
    let report = "Screen 0: minimum 8 x 8, current 7680 x 2160\n\
                  DP-1 connected primary 7680x2160+0+0\n   \
                  7680x2160     60.00*+  30.00\n   \
                  3840x2160     60.00\n";
    assert_eq!(detect_display_size(Some(report)), (7680, 2160));
    assert_eq!(detect_display_size(Some("nothing here")), (1920, 1080));
    assert_eq!(detect_display_size(None), (1920, 1080));
    assert_eq!(detect_display_size(Some("  2560x1440 *\n")), (2560, 1440));
    assert_eq!(detect_display_size(Some("  2560x1440* x\n")), (1920, 1080));
}

#[test]
fn config_defaults() {
    assert!(default_enable_mouse());
    assert_eq!(default_forward_button(), 276);
    assert_eq!(default_backward_button(), 275);
    assert!(!default_enable_keyboard());
    assert_eq!(default_forward_key(), 15);
    assert_eq!(default_backward_key(), 15);
    assert!(default_show_overlay());
    assert_eq!(default_mouse_device_path(), None);
    assert!(!default_minimize_inactive());
    assert_eq!(default_keyboard_device_path(), None);
    assert_eq!(default_modifier_key(), None);
}
