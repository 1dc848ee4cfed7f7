//! Per-application volume control for audio render devices: the rules that
//! pick a device by friendly-name prefix, pick one of its sessions by display
//! name, and drive the command line through its stages.
pub mod cli;
pub mod level;
pub mod search;
pub mod text;

pub use cli::{exit_code, parse_command, Command, Driver, Failure, Stage, Step};
pub use level::Level;
pub use search::{find_application_for_device, find_device_with_friendly_name, propstore_find, SessionCursor};
pub use text::{has_prefix, is_friendly_name_key, same_text, PropertyKey};
