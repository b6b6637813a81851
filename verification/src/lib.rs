//! Control plane for a foreign-callable tunnel-agent session: the lifecycle
//! state machine (initialize / start / stop / query), the sanitized status
//! snapshot shared with foreign readers, and the log-event bridge that turns
//! structured log records into foreign-safe byte strings.
//!
//! All I/O, threading and the asynchronous runtime live outside this crate;
//! the functions here are the decisions and data transformations they drive.

mod control;
mod laws;
mod logbridge;
mod rundata;
mod status;
mod text;

pub use laws::lemma_init_then_query;
pub use laws::lemma_start_unconfigured;
pub use laws::lemma_start_before_init;
pub use laws::lemma_start_twice;
pub use laws::lemma_stop_idle;
pub use laws::lemma_start_during_stopping;
pub use laws::lemma_worker_exit_owns_record;
pub use laws::lemma_stop_then_restart;
pub use laws::lemma_transitions_preserve_wf;
pub use laws::lemma_all_disabled_publishes_disconnected;
pub use control::Config;
pub use control::ConfigView;
pub use control::ControlState;
pub use control::ControlView;
pub use control::SessionState;
pub use control::StartOutcome;
pub use control::finish_stop;
pub use control::DEFAULT_POLL_INTERVAL_MS;
pub use logbridge::LogField;
pub use logbridge::LogLevel;
pub use logbridge::LogVisitor;
pub use logbridge::compose_log_message;
pub use logbridge::log_payload;
pub use logbridge::trim_quotes_bytes;
pub use rundata::RunData;
pub use rundata::published_status;
pub use rundata::has_enabled;
pub use rundata::first_enabled;
pub use rundata::tunnel_enabled;
pub use rundata::TunnelEntry;
pub use rundata::update_status_from_rundata;
pub use status::PlayitStatus;
pub use status::PlayitStatusCode;
pub use status::StatusSnapshot;
pub use status::StatusView;
pub use text::sanitize_bytes;
pub use text::strip_nulls;
pub use text::lemma_strip_nulls_no_null;
