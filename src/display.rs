//! Which display server and compositor the session runs, and which backend
//! serves it.

use vstd::prelude::*;

use crate::text::{chars_eq_str, chars_of, contains_str, has_infix};

verus! {

#[derive(Debug, Clone, Copy, PartialEq, Eq, Structural)]
pub enum DisplayServer {
    X11,
    Wayland,
}

#[derive(Debug, Clone, Copy, PartialEq, Eq, Structural)]
pub enum WaylandCompositor {
    /// KDE Plasma (KWin).
    Kde,
    /// Sway (wlroots).
    Sway,
    Hyprland,
    /// GNOME Shell.
    Gnome,
    /// Any other compositor.
    Other,
}

/// The backend that drives the session's display server.
#[derive(Debug, Clone, Copy, PartialEq, Eq, Structural)]
pub enum Backend {
    X11,
    KWin,
    Sway,
    Hyprland,
}

/// Why no backend serves the session.
#[derive(Debug, Clone, Copy, PartialEq, Eq, Structural)]
pub enum BackendError {
    /// GNOME Shell does not let clients manage other windows.
    GnomeUnsupported,
    /// The Wayland compositor could not be identified.
    UnknownCompositor,
}

/// Wayland when the session type says so or a Wayland display is set,
/// X11 otherwise.
pub open spec fn display_server_for(session_type: Option<Seq<char>>, wayland_display_set: bool) -> DisplayServer {
    if session_type == Some("wayland"@) || wayland_display_set {
        DisplayServer::Wayland
    } else {
        DisplayServer::X11
    }
}

/// Decides the display server from the session type variable (if set) and
/// whether a Wayland display variable is set.
pub fn detect_display_server(session_type: Option<&str>, wayland_display_set: bool) -> (r:
    DisplayServer)
    ensures
        r == display_server_for(
            match session_type {
                Some(s) => Some(s@),
                None => None,
            },
            wayland_display_set,
        ),
{
    if let Some(s) = session_type {
        let cs = chars_of(s);
        if chars_eq_str(cs.as_slice(), "wayland") {
            return DisplayServer::Wayland;
        }
    }
    if wayland_display_set {
        DisplayServer::Wayland
    } else {
        DisplayServer::X11
    }
}

/// What `str::to_lowercase` gives for a string.
pub uninterp spec fn lower_of(s: Seq<char>) -> Seq<char>;

/// Relies on `str::to_lowercase`: the lowercase mapping depends on the
/// characters alone.
#[verifier::external_body]
fn lowercase(s: &str) -> (r: String)
    ensures
        r@ == lower_of(s@),
{
    s.to_lowercase()
}

/// The compositor named by a lowercased desktop name (tested for `kde`,
/// `gnome`, `sway`, `hyprland` in that order), or else by the
/// compositor-specific variables that are set.
pub open spec fn compositor_for(
    lowered_desktop: Option<Seq<char>>,
    swaysock_set: bool,
    hyprland_set: bool,
) -> WaylandCompositor {
    let named = match lowered_desktop {
        Some(d) => if has_infix(d, "kde"@) {
            Some(WaylandCompositor::Kde)
        } else if has_infix(d, "gnome"@) {
            Some(WaylandCompositor::Gnome)
        } else if has_infix(d, "sway"@) {
            Some(WaylandCompositor::Sway)
        } else if has_infix(d, "hyprland"@) {
            Some(WaylandCompositor::Hyprland)
        } else {
            None
        },
        None => None,
    };
    match named {
        Some(c) => c,
        None => if swaysock_set {
            WaylandCompositor::Sway
        } else if hyprland_set {
            WaylandCompositor::Hyprland
        } else {
            WaylandCompositor::Other
        },
    }
}

/// Decides the compositor from an already lowercased desktop name.
pub fn compositor_from_lowered(
    lowered_desktop: Option<&str>,
    swaysock_set: bool,
    hyprland_set: bool,
) -> (r: WaylandCompositor)
    ensures
        r == compositor_for(
            match lowered_desktop {
                Some(d) => Some(d@),
                None => None,
            },
            swaysock_set,
            hyprland_set,
        ),
{
    if let Some(d) = lowered_desktop {
        let cs = chars_of(d);
        if contains_str(cs.as_slice(), "kde") {
            return WaylandCompositor::Kde;
        }
        if contains_str(cs.as_slice(), "gnome") {
            return WaylandCompositor::Gnome;
        }
        if contains_str(cs.as_slice(), "sway") {
            return WaylandCompositor::Sway;
        }
        if contains_str(cs.as_slice(), "hyprland") {
            return WaylandCompositor::Hyprland;
        }
    }
    if swaysock_set {
        WaylandCompositor::Sway
    } else if hyprland_set {
        WaylandCompositor::Hyprland
    } else {
        WaylandCompositor::Other
    }
}

/// Decides the compositor from the desktop variable (if set) and whether
/// the Sway and Hyprland variables are set; the desktop name is compared
/// case-insensitively.
pub fn detect_wayland_compositor(desktop: Option<&str>, swaysock_set: bool, hyprland_set: bool) -> (r:
    WaylandCompositor)
    ensures
        r == compositor_for(
            match desktop {
                Some(d) => Some(lower_of(d@)),
                None => None,
            },
            swaysock_set,
            hyprland_set,
        ),
{
    match desktop {
        Some(d) => {
            let lowered = lowercase(d);
            compositor_from_lowered(Some(lowered.as_str()), swaysock_set, hyprland_set)
        },
        None => compositor_from_lowered(None, swaysock_set, hyprland_set),
    }
}

/// The backend for a display server and compositor.
pub open spec fn backend_for(server: DisplayServer, compositor: WaylandCompositor) -> Result<
    Backend,
    BackendError,
> {
    match server {
        DisplayServer::X11 => Ok(Backend::X11),
        DisplayServer::Wayland => match compositor {
            WaylandCompositor::Kde => Ok(Backend::KWin),
            WaylandCompositor::Sway => Ok(Backend::Sway),
            WaylandCompositor::Hyprland => Ok(Backend::Hyprland),
            WaylandCompositor::Gnome => Err(BackendError::GnomeUnsupported),
            WaylandCompositor::Other => Err(BackendError::UnknownCompositor),
        },
    }
}

/// Picks the backend once, at startup; GNOME and unidentified compositors
/// are refused.
pub fn select_backend(server: DisplayServer, compositor: WaylandCompositor) -> (r: Result<
    Backend,
    BackendError,
>)
    ensures
        r == backend_for(server, compositor),
{
    match server {
        DisplayServer::X11 => Ok(Backend::X11),
        DisplayServer::Wayland => match compositor {
            WaylandCompositor::Kde => Ok(Backend::KWin),
            WaylandCompositor::Sway => Ok(Backend::Sway),
            WaylandCompositor::Hyprland => Ok(Backend::Hyprland),
            WaylandCompositor::Gnome => Err(BackendError::GnomeUnsupported),
            WaylandCompositor::Other => Err(BackendError::UnknownCompositor),
        },
    }
}

} // verus!
