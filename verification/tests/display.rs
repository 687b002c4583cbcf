use slipbox::display::DisplayServer;
use slipbox::display::SessionEnv;
use slipbox::display::get_display;
use slipbox::display::is_wayland;
use slipbox::display::is_x11;

fn env(
    wayland_display: Option<&str>,
    xdg_session_type: Option<&str>,
    display: Option<&str>,
) -> SessionEnv {
    SessionEnv {
        wayland_display: wayland_display.map(String::from),
        xdg_session_type: xdg_session_type.map(String::from),
        display: display.map(String::from),
    }
}

#[test]
fn detects_wayland_when_socket_and_session_type_agree() {
    let e = env(Some("wayland-0"), Some("wayland"), None);
    assert!(is_wayland(&e));
    assert_eq!(get_display(&e), DisplayServer::Wayland);
}

#[test]
fn detects_x11_when_display_and_session_type_agree() {
    let e = env(None, Some("x11"), Some(":0"));
    assert!(is_x11(&e));
    assert_eq!(get_display(&e), DisplayServer::X11);
}

#[test]
fn wayland_wins_when_both_conditions_hold() {
    let e = env(Some("wayland-0"), Some("wayland"), Some(":0"));
    assert_eq!(get_display(&e), DisplayServer::Wayland);
}

#[test]
fn socket_alone_is_not_wayland() {
    let e = env(Some("wayland-0"), None, None);
    assert!(!is_wayland(&e));
    assert_eq!(get_display(&e), DisplayServer::Other);
}

#[test]
fn session_type_alone_is_not_wayland() {
    let e = env(None, Some("wayland"), None);
    assert!(!is_wayland(&e));
    assert_eq!(get_display(&e), DisplayServer::Other);
}

#[test]
fn display_alone_is_not_x11() {
    let e = env(None, None, Some(":0"));
    assert!(!is_x11(&e));
    assert_eq!(get_display(&e), DisplayServer::Other);
}

#[test]
fn wayland_session_type_with_x_display_is_other() {
    let e = env(None, Some("wayland"), Some(":0"));
    assert_eq!(get_display(&e), DisplayServer::Other);
}

#[test]
fn empty_environment_is_other() {
    let e = env(None, None, None);
    assert_eq!(get_display(&e), DisplayServer::Other);
}

#[test]
fn unknown_session_type_is_other() {
    let e = env(Some("wayland-0"), Some("tty"), Some(":0"));
    assert_eq!(get_display(&e), DisplayServer::Other);
}
