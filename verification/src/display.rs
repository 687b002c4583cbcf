//! Display-server detection: a pure classification of the session as
//! Wayland, X11 or something else, from the three relevant environment
//! variable values handed in by the caller.

use vstd::prelude::*;

verus! {

/// The windowing system the current session runs under.
#[derive(Clone, Copy, PartialEq, Eq, Structural, Debug)]
pub enum DisplayServer {
    Wayland,
    X11,
    Other,
}

/// The environment variable values that display-server detection reads:
/// `WAYLAND_DISPLAY`, `XDG_SESSION_TYPE` and `DISPLAY`. A `None` field
/// stands for an unset variable.
pub struct SessionEnv {
    pub wayland_display: Option<String>,
    pub xdg_session_type: Option<String>,
    pub display: Option<String>,
}

/// The session counts as Wayland only when both the compositor socket
/// variable is set and the session type equals "wayland".
pub open spec fn spec_is_wayland(env: SessionEnv) -> bool {
    &&& env.wayland_display is Some
    &&& env.xdg_session_type matches Some(t) && t@ == "wayland"@
}

/// The session counts as X11 only when both the X display variable is set
/// and the session type equals "x11".
pub open spec fn spec_is_x11(env: SessionEnv) -> bool {
    &&& env.display is Some
    &&& env.xdg_session_type matches Some(t) && t@ == "x11"@
}

/// The classification: Wayland wins when its condition holds, X11 comes
/// second, everything else is Other.
pub open spec fn spec_display(env: SessionEnv) -> DisplayServer {
    if spec_is_wayland(env) {
        DisplayServer::Wayland
    } else if spec_is_x11(env) {
        DisplayServer::X11
    } else {
        DisplayServer::Other
    }
}

fn session_type_is(env: &SessionEnv, expected: &str) -> (r: bool)
    ensures
        r == (env.xdg_session_type matches Some(t) && t@ == expected@),
{
    match &env.xdg_session_type {
        Some(t) => {
            let e = String::from_str(expected);
            *t == e
        },
        None => false,
    }
}

pub fn is_wayland(env: &SessionEnv) -> (r: bool)
    ensures
        r == spec_is_wayland(*env),
{
    let socket_set = env.wayland_display.is_some();
    let session_wayland = session_type_is(env, "wayland");
    socket_set && session_wayland
}

pub fn is_x11(env: &SessionEnv) -> (r: bool)
    ensures
        r == spec_is_x11(*env),
{
    let display_set = env.display.is_some();
    let session_x11 = session_type_is(env, "x11");
    display_set && session_x11
}

/// Classifies the session. For every combination of variable values the
/// result is Wayland iff both Wayland conditions hold, X11 iff the Wayland
/// conditions fail and both X11 conditions hold, and Other in every
/// remaining case.
pub fn get_display(env: &SessionEnv) -> (r: DisplayServer)
    ensures
        r == spec_display(*env),
        r == DisplayServer::Wayland <==> spec_is_wayland(*env),
        r == DisplayServer::X11 <==> !spec_is_wayland(*env) && spec_is_x11(*env),
        r == DisplayServer::Other <==> !spec_is_wayland(*env) && !spec_is_x11(*env),
{
    if is_wayland(env) {
        DisplayServer::Wayland
    } else if is_x11(env) {
        DisplayServer::X11
    } else {
        DisplayServer::Other
    }
}

} // verus!
