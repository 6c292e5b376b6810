//! A minimal leveled logging facility: messages carry one of five severities,
//! a configuration fixes the least severity that is emitted and whether an
//! elapsed-time marker is shown, and every emitted line goes to the error
//! stream with a colored severity tag. A configuration that cannot be loaded
//! falls back to a hardcoded one, with a single diagnostic line saying so.

pub mod clock;
pub mod config;
pub mod format;
pub mod level;
pub mod log;
pub mod result_ext;

pub use clock::{current_time_secs, elapsed_between, secs_elapsed};
pub use config::{load_config, resolve_config, Config, ConfigCell, ConfigError};
pub use format::{calculate_precedence, error_format, format_message, u64_to_dec};
pub use level::{level_from_name, rank, LogLevel};
pub use log::{debug, error, info, trace, warning, Logger};
pub use result_ext::{log_result, Describe, Errox};
