//! One proxy session: the steps from an accepted start to the moment the
//! background thread leaves.
//!
//! The thread that runs a session does the outside work (it creates the
//! runtime and the client, awaits bootstrap, sleeps) and reports each outcome
//! as a [`SessionEvent`]. [`Session::step`] decides what the outcome means for
//! the lifecycle state, which line is logged, and what the thread does next.

use crate::listen::listen_ports;
use crate::log::{shown, LogLevel, LogLine};
use crate::state::ArtiState;
use crate::text::{decimal, joined, with_decimal};
use tor_config::Listen;
use vstd::prelude::*;

verus! {

/// Milliseconds between two looks at the lifecycle state while the proxy runs.
pub const POLL_INTERVAL_MS: u64 = 200;

/// How far a session has come.
///
/// The first three phases construct the service, `Bootstrapping` and `Polling`
/// are the race between the protocol task and the bootstrap-then-poll task,
/// `Draining` releases the reconfiguration observers, and `Finalized` is the
/// end.
#[derive(Clone, Copy, PartialEq, Eq, Debug, Structural)]
pub enum SessionPhase {
    CreatingRuntime,
    BuildingConfig,
    ConstructingClient,
    RegisteringObservers,
    Bootstrapping,
    Polling,
    Draining,
    Finalized,
}

/// What the session's thread is to do next.
#[derive(Clone, Copy, PartialEq, Eq, Debug, Structural)]
pub enum SessionAction {
    /// Create the asynchronous runtime.
    CreateRuntime,
    /// Build the client configuration from the two directories.
    BuildClientConfig,
    /// Construct the client, to bootstrap on first use.
    ConstructClient,
    /// Register the client and the reconfiguration guard as observers of
    /// configuration changes.
    RegisterObservers,
    /// Run the bootstrap task, and beside it the protocol task if there is a
    /// listener, and report whichever ends first.
    Race { with_protocol: bool },
    /// Sleep, then report `PollElapsed`; a protocol task that ends first is
    /// reported instead.
    Sleep { millis: u64 },
    /// Release the observers.
    ReleaseObservers,
    /// Leave the thread.
    Exit,
}

/// What the session's thread reports back.
#[derive(Clone, Debug, PartialEq, Eq)]
pub enum SessionEvent {
    RuntimeCreated,
    RuntimeFailed(String),
    ConfigBuilt,
    ConfigFailed(String),
    ClientConstructed,
    ClientFailed(String),
    ObserversRegistered,
    RegistrationFailed(String),
    Bootstrapped,
    BootstrapFailed(String),
    ProtocolExited,
    ProtocolFailed(String),
    PollElapsed,
    ObserversReleased,
}

impl SessionEvent {
    /// Whether the event ends the protocol task.
    pub open spec fn ends_protocol(self) -> bool {
        self is ProtocolExited || self is ProtocolFailed
    }

    /// The failure that an event brings, as the session records it: the
    /// error's own text while the service is set up, and the name of the
    /// branch that failed once the race is on.
    pub open spec fn failure(self) -> Option<Seq<char>> {
        match self {
            SessionEvent::RuntimeFailed(cause) => Some(cause@),
            SessionEvent::ConfigFailed(cause) => Some(cause@),
            SessionEvent::ClientFailed(cause) => Some(cause@),
            SessionEvent::RegistrationFailed(cause) => Some(cause@),
            SessionEvent::BootstrapFailed(_) => Some("shutdown"@),
            SessionEvent::ProtocolFailed(_) => Some("SOCKS proxy failure"@),
            _ => None,
        }
    }
}

/// The line that reports a runtime that could not be created.
pub open spec fn runtime_failure_text(cause: Seq<char>) -> Seq<char> {
    "[ARTI] Failed to create runtime: "@ + cause
}

/// The line that reports a client configuration that could not be built.
pub open spec fn config_failure_text(cause: Seq<char>) -> Seq<char> {
    "[ARTI] Failed to build client config: "@ + cause
}

/// The line that reports any later failure of the session.
pub open spec fn proxy_failure_text(cause: Seq<char>) -> Seq<char> {
    "[ARTI] Proxy failed: "@ + cause
}

/// The line that reports the end of bootstrap. A port cell whose guard is
/// unavailable reads as port zero.
pub open spec fn bootstrap_text(port: Option<u16>) -> Seq<char> {
    "[ARTI] Bootstrap complete, proxy ready on port "@ + decimal(
        match port {
            Some(p) => p as nat,
            None => 0,
        },
    )
}

/// A session as the contracts see it.
pub struct SessionView {
    pub phase: SessionPhase,
    pub state_dir: Seq<char>,
    pub cache_dir: Seq<char>,
    pub socks_port: u16,
    /// Whether the session's listen specification holds any address.
    pub listens: bool,
    /// The failure that ends or ended the session, if it failed.
    pub failure: Option<Seq<char>>,
}

impl SessionView {
    /// The session that an accepted start creates. Port zero listens nowhere.
    pub open spec fn fresh(state_dir: Seq<char>, cache_dir: Seq<char>, socks_port: u16) -> Self {
        SessionView {
            phase: SessionPhase::CreatingRuntime,
            state_dir,
            cache_dir,
            socks_port,
            listens: socks_port != 0,
            failure: None,
        }
    }

    /// The events that can follow the action that the session waits on.
    pub open spec fn awaits(self, event: SessionEvent) -> bool {
        match self.phase {
            SessionPhase::CreatingRuntime => event is RuntimeCreated || event is RuntimeFailed,
            SessionPhase::BuildingConfig => event is ConfigBuilt || event is ConfigFailed,
            SessionPhase::ConstructingClient => event is ClientConstructed
                || event is ClientFailed,
            SessionPhase::RegisteringObservers => event is ObserversRegistered
                || event is RegistrationFailed,
            SessionPhase::Bootstrapping => event is Bootstrapped || event is BootstrapFailed
                || (self.listens && event.ends_protocol()),
            SessionPhase::Polling => event is PollElapsed
                || (self.listens && event.ends_protocol()),
            SessionPhase::Draining => event is ObserversReleased,
            SessionPhase::Finalized => false,
        }
    }

    /// The action that the session waits on.
    pub open spec fn pending_action(self) -> SessionAction {
        match self.phase {
            SessionPhase::CreatingRuntime => SessionAction::CreateRuntime,
            SessionPhase::BuildingConfig => SessionAction::BuildClientConfig,
            SessionPhase::ConstructingClient => SessionAction::ConstructClient,
            SessionPhase::RegisteringObservers => SessionAction::RegisterObservers,
            SessionPhase::Bootstrapping => SessionAction::Race { with_protocol: self.listens },
            SessionPhase::Polling => SessionAction::Sleep { millis: POLL_INTERVAL_MS },
            SessionPhase::Draining => SessionAction::ReleaseObservers,
            SessionPhase::Finalized => SessionAction::Exit,
        }
    }

    /// The phase that an awaited event leads to. `state` is what the lifecycle
    /// cell holds when the event is handled, `None` when its guard is
    /// unavailable: a poll ends the race only when it reads `Stopping`.
    pub open spec fn phase_after(self, event: SessionEvent, state: Option<ArtiState>)
        -> SessionPhase {
        match event {
            SessionEvent::RuntimeCreated => SessionPhase::BuildingConfig,
            SessionEvent::ConfigBuilt => SessionPhase::ConstructingClient,
            SessionEvent::ClientConstructed => SessionPhase::RegisteringObservers,
            SessionEvent::ObserversRegistered => SessionPhase::Bootstrapping,
            SessionEvent::Bootstrapped => SessionPhase::Polling,
            SessionEvent::PollElapsed => if state == Some(ArtiState::Stopping) {
                SessionPhase::Draining
            } else {
                SessionPhase::Polling
            },
            SessionEvent::RuntimeFailed(_) => SessionPhase::Finalized,
            SessionEvent::ConfigFailed(_) => SessionPhase::Finalized,
            SessionEvent::ClientFailed(_) => SessionPhase::Finalized,
            SessionEvent::RegistrationFailed(_) => SessionPhase::Draining,
            SessionEvent::BootstrapFailed(_) => SessionPhase::Draining,
            SessionEvent::ProtocolExited => SessionPhase::Draining,
            SessionEvent::ProtocolFailed(_) => SessionPhase::Draining,
            SessionEvent::ObserversReleased => SessionPhase::Finalized,
        }
    }

    /// The session after an event. An event that the session does not await
    /// changes nothing.
    pub open spec fn after(self, event: SessionEvent, state: Option<ArtiState>) -> SessionView {
        if self.awaits(event) {
            SessionView {
                phase: self.phase_after(event, state),
                failure: if event.failure() is Some {
                    event.failure()
                } else {
                    self.failure
                },
                ..self
            }
        } else {
            self
        }
    }

    /// What the lifecycle cell holds after an event. A cell whose guard is
    /// unavailable is left alone. The end of bootstrap writes `Running`, the
    /// end of the session writes `Stopped`, whatever was there.
    pub open spec fn state_after(self, event: SessionEvent, state: Option<ArtiState>) -> Option<
        ArtiState,
    > {
        if state is Some && self.awaits(event) {
            if self.phase_after(event, state) == SessionPhase::Finalized {
                Some(ArtiState::Stopped)
            } else if event is Bootstrapped {
                Some(ArtiState::Running)
            } else {
                state
            }
        } else {
            state
        }
    }

    /// The line that is logged when an event is handled. `port` is what the
    /// port cell holds, `None` when its guard is unavailable.
    pub open spec fn line_after(
        self,
        event: SessionEvent,
        state: Option<ArtiState>,
        port: Option<u16>,
    ) -> Option<(LogLevel, Seq<char>)> {
        if !self.awaits(event) {
            None
        } else {
            match event {
                SessionEvent::RuntimeFailed(cause) => Some(
                    (LogLevel::Warn, runtime_failure_text(cause@)),
                ),
                SessionEvent::ConfigFailed(cause) => Some(
                    (LogLevel::Warn, config_failure_text(cause@)),
                ),
                SessionEvent::ClientFailed(cause) => Some(
                    (LogLevel::Warn, proxy_failure_text(cause@)),
                ),
                SessionEvent::Bootstrapped => Some((LogLevel::Info, bootstrap_text(port))),
                SessionEvent::PollElapsed => if state == Some(ArtiState::Stopping) {
                    Some((LogLevel::Info, "[ARTI] Stop requested"@))
                } else {
                    None
                },
                SessionEvent::ObserversReleased => match self.failure {
                    Some(cause) => Some((LogLevel::Warn, proxy_failure_text(cause))),
                    None => if state is Some {
                        Some((LogLevel::Info, "[ARTI] Stopped"@))
                    } else {
                        None
                    },
                },
                _ => None,
            }
        }
    }
}

/// The answer to one event: what to do next, and what to log.
#[derive(Clone, Debug, PartialEq, Eq)]
pub struct Directive {
    pub action: SessionAction,
    pub line: Option<LogLine>,
}

/// One proxy session. It is created by an accepted start, owned by the thread
/// that runs it, and never reused.
#[derive(Debug)]
pub struct Session {
    phase: SessionPhase,
    state_dir: String,
    cache_dir: String,
    socks_port: u16,
    listen: Listen,
    failure: Option<String>,
}

impl View for Session {
    type V = SessionView;

    closed spec fn view(&self) -> SessionView {
        SessionView {
            phase: self.phase,
            state_dir: self.state_dir@,
            cache_dir: self.cache_dir@,
            socks_port: self.socks_port,
            listens: listen_ports(self.listen).len() > 0,
            failure: match self.failure {
                Some(cause) => Some(cause@),
                None => None,
            },
        }
    }
}

impl Session {
    /// A session for the given directories that listens on the given localhost
    /// port; port zero means that nothing listens.
    pub fn new(state_dir: &str, cache_dir: &str, socks_port: u16) -> (session: Session)
        ensures
            session@ == SessionView::fresh(state_dir@, cache_dir@, socks_port),
    {
        Session {
            phase: SessionPhase::CreatingRuntime,
            state_dir: String::from_str(state_dir),
            cache_dir: String::from_str(cache_dir),
            socks_port,
            listen: Listen::new_localhost(socks_port),
            failure: None,
        }
    }

    pub fn phase(&self) -> (phase: SessionPhase)
        ensures
            phase == self@.phase,
    {
        self.phase
    }

    /// The directory for the client's state.
    pub fn state_dir(&self) -> (dir: &str)
        ensures
            dir@ == self@.state_dir,
    {
        self.state_dir.as_str()
    }

    /// The directory for the client's cache.
    pub fn cache_dir(&self) -> (dir: &str)
        ensures
            dir@ == self@.cache_dir,
    {
        self.cache_dir.as_str()
    }

    /// The port that the session was started with.
    pub fn socks_port(&self) -> (port: u16)
        ensures
            port == self@.socks_port,
    {
        self.socks_port
    }

    /// Where the protocol task listens.
    pub fn socks_listen(&self) -> (listen: &Listen)
        ensures
            (listen_ports(*listen).len() > 0) == self@.listens,
    {
        &self.listen
    }

    /// The failure that ends or ended the session, if it failed.
    pub fn failure(&self) -> (cause: Option<&str>)
        ensures
            (match cause {
                Some(text) => self@.failure == Some(text@),
                None => self@.failure is None,
            }),
    {
        match &self.failure {
            Some(text) => Some(text.as_str()),
            None => None,
        }
    }

    /// Whether the session has ended.
    pub fn is_finished(&self) -> (finished: bool)
        ensures
            finished == (self@.phase == SessionPhase::Finalized),
    {
        self.phase == SessionPhase::Finalized
    }

    /// The action that the session waits on. The race has a protocol task only
    /// when the listen specification is not empty.
    pub fn pending_action(&self) -> (action: SessionAction)
        ensures
            action == self@.pending_action(),
    {
        match self.phase {
            SessionPhase::CreatingRuntime => SessionAction::CreateRuntime,
            SessionPhase::BuildingConfig => SessionAction::BuildClientConfig,
            SessionPhase::ConstructingClient => SessionAction::ConstructClient,
            SessionPhase::RegisteringObservers => SessionAction::RegisterObservers,
            SessionPhase::Bootstrapping => SessionAction::Race {
                with_protocol: !self.listen.is_empty(),
            },
            SessionPhase::Polling => SessionAction::Sleep { millis: POLL_INTERVAL_MS },
            SessionPhase::Draining => SessionAction::ReleaseObservers,
            SessionPhase::Finalized => SessionAction::Exit,
        }
    }

    /// Whether the event can follow the action that the session waits on.
    pub fn awaits(&self, event: &SessionEvent) -> (awaited: bool)
        ensures
            awaited == self@.awaits(*event),
    {
        match self.phase {
            SessionPhase::CreatingRuntime => matches!(
                event,
                SessionEvent::RuntimeCreated | SessionEvent::RuntimeFailed(_)
            ),
            SessionPhase::BuildingConfig => matches!(
                event,
                SessionEvent::ConfigBuilt | SessionEvent::ConfigFailed(_)
            ),
            SessionPhase::ConstructingClient => matches!(
                event,
                SessionEvent::ClientConstructed | SessionEvent::ClientFailed(_)
            ),
            SessionPhase::RegisteringObservers => matches!(
                event,
                SessionEvent::ObserversRegistered | SessionEvent::RegistrationFailed(_)
            ),
            SessionPhase::Bootstrapping => match event {
                SessionEvent::Bootstrapped | SessionEvent::BootstrapFailed(_) => true,
                SessionEvent::ProtocolExited | SessionEvent::ProtocolFailed(_) => {
                    !self.listen.is_empty()
                },
                _ => false,
            },
            SessionPhase::Polling => match event {
                SessionEvent::PollElapsed => true,
                SessionEvent::ProtocolExited | SessionEvent::ProtocolFailed(_) => {
                    !self.listen.is_empty()
                },
                _ => false,
            },
            SessionPhase::Draining => matches!(event, SessionEvent::ObserversReleased),
            SessionPhase::Finalized => false,
        }
    }

    /// Handles one event.
    ///
    /// `state` is the lifecycle cell and `port` the port cell as the caller
    /// finds them, each `None` when its guard is unavailable. An event that the
    /// session does not await is refused with `None` and changes nothing.
    /// Otherwise the session moves on, the lifecycle cell is written where the
    /// event calls for it, and the answer names the next action and the line to
    /// log.
    pub fn step(&mut self, state: &mut Option<ArtiState>, port: Option<u16>, event: SessionEvent)
        -> (answer: Option<Directive>)
        ensures
            final(self)@ == old(self)@.after(event, *old(state)),
            *final(state) == old(self)@.state_after(event, *old(state)),
            answer is Some <==> old(self)@.awaits(event),
            answer matches Some(directive) ==> ({
                &&& directive.action == final(self)@.pending_action()
                &&& shown(directive.line) == old(self)@.line_after(event, *old(state), port)
            }),
    {
        if !self.awaits(&event) {
            return None;
        }
        let line: Option<LogLine> = match event {
            SessionEvent::RuntimeCreated => {
                self.phase = SessionPhase::BuildingConfig;
                None
            },
            SessionEvent::ConfigBuilt => {
                self.phase = SessionPhase::ConstructingClient;
                None
            },
            SessionEvent::ClientConstructed => {
                self.phase = SessionPhase::RegisteringObservers;
                None
            },
            SessionEvent::ObserversRegistered => {
                self.phase = SessionPhase::Bootstrapping;
                None
            },
            SessionEvent::Bootstrapped => {
                self.phase = SessionPhase::Polling;
                if state.is_some() {
                    *state = Some(ArtiState::Running);
                }
                let bound: u16 = match port {
                    Some(p) => p,
                    None => 0,
                };
                Some(
                    LogLine::info(
                        with_decimal("[ARTI] Bootstrap complete, proxy ready on port ", bound),
                    ),
                )
            },
            SessionEvent::PollElapsed => {
                if stop_requested(state) {
                    self.phase = SessionPhase::Draining;
                    Some(LogLine::info(String::from_str("[ARTI] Stop requested")))
                } else {
                    None
                }
            },
            SessionEvent::RuntimeFailed(cause) => {
                let text = joined("[ARTI] Failed to create runtime: ", cause.as_str());
                self.finalize(state, Some(cause));
                Some(LogLine::warn(text))
            },
            SessionEvent::ConfigFailed(cause) => {
                let text = joined("[ARTI] Failed to build client config: ", cause.as_str());
                self.finalize(state, Some(cause));
                Some(LogLine::warn(text))
            },
            SessionEvent::ClientFailed(cause) => {
                let text = joined("[ARTI] Proxy failed: ", cause.as_str());
                self.finalize(state, Some(cause));
                Some(LogLine::warn(text))
            },
            SessionEvent::RegistrationFailed(cause) => {
                self.phase = SessionPhase::Draining;
                self.failure = Some(cause);
                None
            },
            SessionEvent::BootstrapFailed(_) => {
                self.phase = SessionPhase::Draining;
                self.failure = Some(String::from_str("shutdown"));
                None
            },
            SessionEvent::ProtocolExited => {
                self.phase = SessionPhase::Draining;
                None
            },
            SessionEvent::ProtocolFailed(_) => {
                self.phase = SessionPhase::Draining;
                self.failure = Some(String::from_str("SOCKS proxy failure"));
                None
            },
            SessionEvent::ObserversReleased => {
                let line = match &self.failure {
                    Some(cause) => Some(
                        LogLine::warn(joined("[ARTI] Proxy failed: ", cause.as_str())),
                    ),
                    None => if state.is_some() {
                        Some(LogLine::info(String::from_str("[ARTI] Stopped")))
                    } else {
                        None
                    },
                };
                self.finalize(state, None);
                line
            },
        };
        Some(Directive { action: self.pending_action(), line })
    }

    /// Ends the session: the lifecycle cell is set to `Stopped` if its guard is
    /// available, and a failure, if one is given, is recorded.
    fn finalize(&mut self, state: &mut Option<ArtiState>, failure: Option<String>)
        ensures
            final(self)@ == (SessionView {
                phase: SessionPhase::Finalized,
                failure: match failure {
                    Some(cause) => Some(cause@),
                    None => old(self)@.failure,
                },
                ..old(self)@
            }),
            *final(state) == (if *old(state) is Some {
                Some(ArtiState::Stopped)
            } else {
                None
            }),
    {
        self.phase = SessionPhase::Finalized;
        if let Some(cause) = failure {
            self.failure = Some(cause);
        }
        if state.is_some() {
            *state = Some(ArtiState::Stopped);
        }
    }
}

/// Whether a poll finds that a stop was requested. A cell whose guard is
/// unavailable never shows a request.
pub fn stop_requested(state: &Option<ArtiState>) -> (requested: bool)
    ensures
        requested == (*state == Some(ArtiState::Stopping)),
{
    match state {
        Some(s) => *s == ArtiState::Stopping,
        None => false,
    }
}

} // verus!
