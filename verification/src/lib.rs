//! Small shared utilities: validated environment-variable reading with
//! optional file indirection, log-filter directive synthesis, fail-fast
//! exit decisions, and the messages answering termination signals. Every
//! decision and every diagnostic text is computed, and verified, here; the
//! thin process layer (environment, file system, signals, the logging sink)
//! stays outside the library and only carries raw values in and decisions
//! out.

mod env;
mod exits;
mod logs;
mod signals;
mod text;

pub use env::EnvValue;
pub use env::FileValue;
pub use env::RequiredEnv;
pub use env::blank_diagnostic;
pub use env::file_marker;
pub use env::is_file_directive;
pub use env::require_env;
pub use env::unreadable_diagnostic;
pub use env::unset_diagnostic;
pub use env::value_from_env_var;
pub use env::value_from_file;
pub use exits::ExitDecision;
pub use exits::exit_on_error;
pub use exits::failure_diagnostic;
pub use logs::dash_to_underscore;
pub use logs::join_directive_fragments;
pub use logs::join_directives;
pub use logs::normalize_package_name;
pub use logs::resolve_filter;
pub use logs::synthesize_filter;
pub use logs::synthesized_filter;
pub use signals::SignalEvent;
pub use signals::signal_diagnostic;
pub use text::is_space;
pub use text::is_space_char;
pub use text::trim;
pub use text::trim_spec;
