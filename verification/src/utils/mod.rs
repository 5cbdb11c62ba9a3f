//! Shared utilities for diagnostic modules.

pub mod files;
pub mod format;
pub mod math;
pub mod parse;
pub mod pattern;
pub mod permissions;
pub mod process;
pub mod ranking;
pub mod split;
pub mod system;
pub mod text;

pub use files::read_first_line;
pub use format::{format_bytes, format_duration};
pub use parse::{parse_key_value, parse_key_value_as, parse_size_human, parse_u64};
pub use permissions::{has_all_permissions, has_permission, is_root, HostAccess};
pub use process::{parse_status, process_name, process_user};
pub use system::{run_cmd, run_cmd_timeout, CommandError, CommandOutput};
