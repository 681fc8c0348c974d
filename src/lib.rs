//! Live log relay and remote command bridge for a managed game server.
//!
//! The library holds the decisions of the bridge: where the control input and
//! the log live, how an operator command is normalised, which journal entries
//! are relayed, and when a client session ends. The broadcast bus that carries
//! log lines to the sessions is tokio's broadcast channel.
mod command;
mod config;
mod control;
mod error;
mod journal;
mod session;

pub use command::{lemma_normalized_once, normalize_command, normalized};
pub use config::{
    or_default, MinecraftConfig, DEFAULT_LOG_PATH, DEFAULT_SOCKET_PATH, DEFAULT_SYSTEMD_UNIT,
};
pub use control::{
    bus_event, effective_config, init, CommandRequest, MinecraftControl, BUS_CAPACITY,
};
pub use error::{command_status, MinecraftError, STATUS_NOT_FOUND, STATUS_OK, STATUS_SERVER_ERROR};
pub use journal::{
    answers, field_text, reader_step, startup_action, JournalEvent, ReaderAction, MESSAGE_FIELD,
    POLL_INTERVAL_SECS, STARTUP_LINE, UNIT_FIELD,
};
pub use session::{
    ends_session, lemma_ended_session_stays, lemma_lag_keeps_session,
    lemma_session_ends_on_trigger, next_action, next_state, run, saturating_sum, FanoutSession,
    SessionAction, SessionEvent,
};
