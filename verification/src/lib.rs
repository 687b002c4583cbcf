//! Desktop-automation helpers for a personal note collection: display-server
//! detection, title slugging, note listing and filtering, sub-page link
//! construction, and the command lines for the external screenshot and
//! clipboard tools.

pub mod cli;
pub mod command;
pub mod display;
pub mod notes;
pub mod paths;
pub mod screenshot;
pub mod slug;
pub mod text;

pub use display::DisplayServer;
pub use display::SessionEnv;
pub use display::get_display;
pub use display::is_wayland;
pub use display::is_x11;
