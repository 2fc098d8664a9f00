//! The entry points: start, stop and the three queries.
//!
//! The lifecycle state and the bound port live in two cells of the embedding
//! program, each behind its own guard. An entry point is handed what the caller
//! finds in a cell: `Some` with the value, or `None` when the guard is
//! unavailable. It never makes an unavailable cell available, and it writes to
//! no cell that it was not handed.

use crate::log::{collect_lines, in_order, shown, shown_all, CallbackWriter, LogLevel, LogLine};
use crate::session::{Session, SessionView};
use crate::state::ArtiState;
use crate::text::{decimal, joined, with_decimal};
use std::sync::Arc;
use vstd::prelude::*;

verus! {

/// What the first start leaves in the lifecycle cell: `Uninitialized` becomes
/// `Initialized`, anything else stays.
pub open spec fn initialized(state: Option<ArtiState>) -> Option<ArtiState> {
    if state == Some(ArtiState::Uninitialized) {
        Some(ArtiState::Initialized)
    } else {
        state
    }
}

/// A launch is taken up when the guard is available and the state is
/// `Initialized` or `Stopped`.
pub open spec fn launch_accepted(state: Option<ArtiState>) -> bool {
    state matches Some(s) && s.accepts_start()
}

/// The lifecycle cell after a launch attempt.
pub open spec fn state_after_launch(state: Option<ArtiState>) -> Option<ArtiState> {
    if launch_accepted(state) {
        Some(ArtiState::Starting)
    } else {
        state
    }
}

/// The port cell after a launch attempt: an accepted launch records its port,
/// unless the port cell's guard is unavailable.
pub open spec fn port_after_launch(state: Option<ArtiState>, port: Option<u16>, socks_port: u16)
    -> Option<u16> {
    if launch_accepted(state) && port is Some {
        Some(socks_port)
    } else {
        port
    }
}

/// The line that a launch attempt logs.
pub open spec fn launch_line(state: Option<ArtiState>) -> Option<(LogLevel, Seq<char>)> {
    match state {
        None => None,
        Some(s) => if s.accepts_start() {
            Some((LogLevel::Info, "[ARTI] Starting..."@))
        } else {
            Some((LogLevel::Warn, "[ARTI] Cannot start from state: "@ + s.label()))
        },
    }
}

/// The line that the first start logs.
pub open spec fn init_line(state: Option<ArtiState>) -> Option<(LogLevel, Seq<char>)> {
    if state == Some(ArtiState::Uninitialized) {
        Some((LogLevel::Info, "[ARTI] Initialized"@))
    } else {
        None
    }
}

/// The lifecycle cell after a stop request.
pub open spec fn state_after_stop(state: Option<ArtiState>) -> Option<ArtiState> {
    if state == Some(ArtiState::Running) {
        Some(ArtiState::Stopping)
    } else {
        state
    }
}

/// What a start reports, whether or not it was taken up.
pub open spec fn start_message(socks_port: u16) -> Seq<char> {
    "Arti starting on port "@ + decimal(socks_port as nat)
}

/// A reply that reports success.
pub open spec fn ok_reply(message: Seq<char>) -> Seq<char> {
    "OK: "@ + message
}

/// A reply that is marked as a success.
pub open spec fn success_shaped(reply: Seq<char>) -> bool {
    "OK:"@.is_prefix_of(reply)
}

/// A reply that is marked as an error.
pub open spec fn error_shaped(reply: Seq<char>) -> bool {
    "Error:"@.is_prefix_of(reply)
}

/// Every reply bears one mark: a success reply is shaped as a success and not
/// as an error, whatever it says after the mark, and the two refusals are
/// shaped as errors and not as successes.
pub proof fn lemma_reply_shapes(message: Seq<char>)
    ensures
        success_shaped(ok_reply(message)),
        !error_shaped(ok_reply(message)),
        error_shaped("Error: null state_dir"@),
        !success_shaped("Error: null state_dir"@),
        error_shaped("Error: null cache_dir"@),
        !success_shaped("Error: null cache_dir"@),
{
    reveal_strlit("OK:");
    reveal_strlit("OK: ");
    reveal_strlit("Error:");
    reveal_strlit("Error: null state_dir");
    reveal_strlit("Error: null cache_dir");
    let reply = ok_reply(message);
    assert(reply.subrange(0, 3) =~= "OK:"@);
    assert(reply[0] == 'O');
    assert("Error:"@[0] == 'E');
    assert("OK:"@[0] == 'O');
    assert("Error: null state_dir"@.subrange(0, 6) =~= "Error:"@);
    assert("Error: null cache_dir"@.subrange(0, 6) =~= "Error:"@);
    assert("Error: null state_dir"@[0] == 'E');
    assert("Error: null cache_dir"@[0] == 'E');
}

/// The name under which the lifecycle cell is reported: the state's name, or
/// `Unknown` when the guard is unavailable.
pub open spec fn reported_state(state: Option<ArtiState>) -> Seq<char> {
    match state {
        Some(s) => s.label(),
        None => "Unknown"@,
    }
}

/// The names that a state query can report.
pub open spec fn is_state_name(name: Seq<char>) -> bool {
    name == "Uninitialized"@ || name == "Initialized"@ || name == "Starting"@ || name
        == "Running"@ || name == "Stopping"@ || name == "Stopped"@ || name == "Unknown"@
}

/// What binding the log sink yields.
pub struct LogBinding<F> {
    /// The writer to install as the process's log sink, if this call is the one
    /// that binds it.
    pub writer: Option<CallbackWriter<F>>,
    pub line: Option<LogLine>,
}

/// What a launch attempt yields.
pub struct Launch {
    /// The session to run on a new background thread, if the launch was taken
    /// up.
    pub session: Option<Session>,
    pub line: Option<LogLine>,
}

/// What a start yields.
pub struct StartReport<F> {
    /// The message for the caller.
    pub message: String,
    /// The writer to install as the process's log sink, if this call is the one
    /// that binds it.
    pub writer: Option<CallbackWriter<F>>,
    /// The session to run on a new background thread, if the start was taken
    /// up.
    pub session: Option<Session>,
    /// The lines to log, in order.
    pub lines: Vec<LogLine>,
}

/// Binds the log sink on the first start.
///
/// When the lifecycle cell holds `Uninitialized`, the callback is wrapped in a
/// writer for the caller to install, and the cell becomes `Initialized`. In
/// every other case the callback is dropped and nothing changes: the sink binds
/// once.
pub fn init_log_subscriber<F>(state: &mut Option<ArtiState>, log_fn: F) -> (binding: LogBinding<
    F,
>) where F: Fn(&[u8]) + Send + Sync + 'static
    ensures
        *final(state) == initialized(*old(state)),
        binding.writer is Some <==> *old(state) == Some(ArtiState::Uninitialized),
        binding.writer matches Some(writer) ==> writer.callback() == log_fn,
        shown(binding.line) == init_line(*old(state)),
{
    if is_state(state, ArtiState::Uninitialized) {
        *state = Some(ArtiState::Initialized);
        let writer = CallbackWriter::new(Arc::new(log_fn));
        LogBinding {
            writer: Some(writer),
            line: Some(LogLine::info(String::from_str("[ARTI] Initialized"))),
        }
    } else {
        LogBinding { writer: None, line: None }
    }
}

/// Takes up a launch, or ignores it.
///
/// From `Initialized` or `Stopped` the lifecycle cell becomes `Starting`, the
/// port is recorded, and a fresh session is handed out for the caller to run on
/// a new thread. From any other state the attempt is logged as a warning and
/// nothing changes; with the lifecycle guard unavailable nothing happens at
/// all.
pub fn configure_and_run_arti_proxy(
    state: &mut Option<ArtiState>,
    port: &mut Option<u16>,
    state_dir: &str,
    cache_dir: &str,
    socks_port: u16,
) -> (launch: Launch)
    ensures
        *final(state) == state_after_launch(*old(state)),
        *final(port) == port_after_launch(*old(state), *old(port), socks_port),
        launch.session is Some <==> launch_accepted(*old(state)),
        launch.session matches Some(session) ==> session@ == SessionView::fresh(
            state_dir@,
            cache_dir@,
            socks_port,
        ),
        shown(launch.line) == launch_line(*old(state)),
{
    let current: ArtiState = match state {
        Some(s) => *s,
        None => {
            return Launch { session: None, line: None };
        },
    };
    match current {
        ArtiState::Initialized | ArtiState::Stopped => {},
        _ => {
            let text = joined("[ARTI] Cannot start from state: ", current.name());
            return Launch { session: None, line: Some(LogLine::warn(text)) };
        },
    }
    *state = Some(ArtiState::Starting);
    if port.is_some() {
        *port = Some(socks_port);
    }
    Launch {
        session: Some(Session::new(state_dir, cache_dir, socks_port)),
        line: Some(LogLine::info(String::from_str("[ARTI] Starting..."))),
    }
}

/// Starts the proxy: binds the log sink if this is the first start, then
/// attempts a launch. The message is the same whether or not the launch was
/// taken up; the caller learns the truth from the lifecycle state.
pub fn start_arti_proxy<F>(
    state: &mut Option<ArtiState>,
    port: &mut Option<u16>,
    state_dir: &str,
    cache_dir: &str,
    socks_port: u16,
    log_fn: F,
) -> (report: StartReport<F>) where F: Fn(&[u8]) + Send + Sync + 'static
    ensures
        *final(state) == state_after_launch(initialized(*old(state))),
        *final(port) == port_after_launch(initialized(*old(state)), *old(port), socks_port),
        report.message@ == start_message(socks_port),
        report.writer is Some <==> *old(state) == Some(ArtiState::Uninitialized),
        report.writer matches Some(writer) ==> writer.callback() == log_fn,
        report.session is Some <==> launch_accepted(initialized(*old(state))),
        report.session matches Some(session) ==> session@ == SessionView::fresh(
            state_dir@,
            cache_dir@,
            socks_port,
        ),
        shown_all(report.lines@) == in_order(
            init_line(*old(state)),
            launch_line(initialized(*old(state))),
        ),
{
    let binding = init_log_subscriber(state, log_fn);
    let launch = configure_and_run_arti_proxy(state, port, state_dir, cache_dir, socks_port);
    StartReport {
        message: with_decimal("Arti starting on port ", socks_port),
        writer: binding.writer,
        session: launch.session,
        lines: collect_lines(binding.line, launch.line),
    }
}

/// Asks a running proxy to stop: `Running` becomes `Stopping`, and nothing else
/// changes anything. The session notices at its next poll.
pub fn stop_arti_proxy(state: &mut Option<ArtiState>) -> (line: Option<LogLine>)
    ensures
        *final(state) == state_after_stop(*old(state)),
        shown(line) == (if *old(state) == Some(ArtiState::Running) {
            Some((LogLevel::Info, "[ARTI] Stopping..."@))
        } else {
            None
        }),
{
    if is_state(state, ArtiState::Running) {
        *state = Some(ArtiState::Stopping);
        Some(LogLine::info(String::from_str("[ARTI] Stopping...")))
    } else {
        None
    }
}

/// The start entry point.
///
/// A missing directory is answered with an error message, and then nothing is
/// touched: no cell, no sink, no session. Otherwise the start is attempted and
/// the message reports success, also when the attempt was ignored.
pub fn arti_start<F>(
    state: &mut Option<ArtiState>,
    port: &mut Option<u16>,
    state_dir: Option<&str>,
    cache_dir: Option<&str>,
    socks_port: u16,
    log_fn: F,
) -> (report: StartReport<F>) where F: Fn(&[u8]) + Send + Sync + 'static
    ensures
        state_dir is None || cache_dir is None <==> error_shaped(report.message@),
        state_dir is Some && cache_dir is Some <==> success_shaped(report.message@),
        state_dir is None ==> report.message@ == "Error: null state_dir"@,
        state_dir is Some && cache_dir is None ==> report.message@ == "Error: null cache_dir"@,
        state_dir is None || cache_dir is None ==> ({
            &&& *final(state) == *old(state)
            &&& *final(port) == *old(port)
            &&& report.writer is None
            &&& report.session is None
            &&& report.lines@.len() == 0
        }),
        state_dir is Some && cache_dir is Some ==> ({
            &&& *final(state) == state_after_launch(initialized(*old(state)))
            &&& *final(port) == port_after_launch(initialized(*old(state)), *old(port), socks_port)
            &&& report.message@ == ok_reply(start_message(socks_port))
            &&& (report.writer is Some <==> *old(state) == Some(ArtiState::Uninitialized))
            &&& (report.writer matches Some(writer) ==> writer.callback() == log_fn)
            &&& (report.session is Some <==> launch_accepted(initialized(*old(state))))
            &&& (report.session matches Some(session) ==> session@ == SessionView::fresh(
                state_dir->0@,
                cache_dir->0@,
                socks_port,
            ))
            &&& shown_all(report.lines@) == in_order(
                init_line(*old(state)),
                launch_line(initialized(*old(state))),
            )
        }),
{
    proof {
        lemma_reply_shapes(start_message(socks_port));
    }
    let state_dir: &str = match state_dir {
        Some(dir) => dir,
        None => {
            return refusal("Error: null state_dir");
        },
    };
    let cache_dir: &str = match cache_dir {
        Some(dir) => dir,
        None => {
            return refusal("Error: null cache_dir");
        },
    };
    let report = start_arti_proxy(state, port, state_dir, cache_dir, socks_port, log_fn);
    StartReport {
        message: joined("OK: ", report.message.as_str()),
        writer: report.writer,
        session: report.session,
        lines: report.lines,
    }
}

/// The stop entry point.
pub fn arti_stop(state: &mut Option<ArtiState>) -> (line: Option<LogLine>)
    ensures
        *final(state) == state_after_stop(*old(state)),
        shown(line) == (if *old(state) == Some(ArtiState::Running) {
            Some((LogLevel::Info, "[ARTI] Stopping..."@))
        } else {
            None
        }),
{
    stop_arti_proxy(state)
}

/// The port that the last accepted start recorded, or zero when the port
/// cell's guard is unavailable. The port is kept when the proxy stops.
pub fn arti_get_socks_port(port: Option<u16>) -> (reported: i32)
    ensures
        reported == (match port {
            Some(p) => p as int,
            None => 0,
        }),
{
    match port {
        Some(p) => p as i32,
        None => 0,
    }
}

/// One when the lifecycle cell holds `Running`, zero otherwise, also when the
/// guard is unavailable.
pub fn arti_is_running(state: Option<ArtiState>) -> (running: i32)
    ensures
        running == (if state == Some(ArtiState::Running) {
            1int
        } else {
            0int
        }),
{
    if is_state(&state, ArtiState::Running) {
        1
    } else {
        0
    }
}

/// The name of the current state, or `Unknown` when the guard is unavailable.
pub fn arti_get_state(state: Option<ArtiState>) -> (name: String)
    ensures
        name@ == reported_state(state),
        is_state_name(name@),
{
    match state {
        Some(s) => s.to_string(),
        None => String::from_str("Unknown"),
    }
}

/// Whether the cell's guard is available and the cell holds the given state.
fn is_state(state: &Option<ArtiState>, wanted: ArtiState) -> (holds: bool)
    ensures
        holds == (*state == Some(wanted)),
{
    match state {
        Some(s) => *s == wanted,
        None => false,
    }
}

/// The report of a start that was refused for its arguments.
fn refusal<F>(message: &str) -> (report: StartReport<F>)
    ensures
        report.message@ == message@,
        report.writer is None,
        report.session is None,
        report.lines@.len() == 0,
{
    StartReport {
        message: String::from_str(message),
        writer: None,
        session: None,
        lines: Vec::new(),
    }
}

} // verus!
