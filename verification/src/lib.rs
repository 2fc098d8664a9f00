//! Lifecycle controller for an embedded Tor SOCKS proxy.
//!
//! The controller decides, and the embedding program acts: every operation here
//! is a function from the contents of the guarded cells and one request or event
//! to their new contents, the next thing to do and the lines to log.

pub mod controller;
pub mod laws;
pub mod listen;
pub mod log;
pub mod reconfigure;
pub mod session;
pub mod state;
pub mod text;

pub use controller::{
    arti_get_socks_port, arti_get_state, arti_is_running, arti_start, arti_stop,
    configure_and_run_arti_proxy, init_log_subscriber, start_arti_proxy, stop_arti_proxy, Launch,
    LogBinding, StartReport,
};
pub use log::{c_record, CallbackWriter, LogLevel, LogLine};
pub use reconfigure::{Application, ConfigSnapshot};
pub use session::{
    Directive, Session, SessionAction, SessionEvent, SessionPhase, POLL_INTERVAL_MS,
};
pub use state::ArtiState;
