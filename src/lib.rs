//! Focus cycling among the windows of one client program.
//!
//! The library holds the logic of the cycling daemon: the ordered window
//! list and its current index ([`cycle`]), the control commands and how one
//! is carried out against a [`window::WindowManager`] backend
//! ([`command`]), the translation of input-device events into cycle steps
//! ([`input`]), the choice of backend ([`display`]), and the readers for
//! configuration and release data ([`settings`], [`version`]).

pub mod command;
pub mod cycle;
pub mod display;
pub mod input;
pub mod laws;
pub mod settings;
pub mod text;
pub mod version;
pub mod window;

pub use command::{handle_command, sync_and_cycle, Command, Direction, Outcome};
pub use cycle::{CycleError, CycleState};
pub use display::{
    compositor_from_lowered, detect_display_server, detect_wayland_compositor, select_backend,
    Backend, BackendError, DisplayServer, WaylandCompositor,
};
pub use input::{is_event_node_name, KeyboardState, MouseBindings};
pub use settings::{detect_display_size, parse_characters, DisplayLayout};
pub use version::{is_newer_version, newer_release, parse_version, VersionError};
pub use window::{select_client_windows, EveWindow, WindowManager, WmError};
