//! What holds of the controller as a whole, proved from the definitions that
//! the entry points and the session are specified with.

use crate::controller::{
    initialized, is_state_name, launch_accepted, port_after_launch, reported_state,
    state_after_launch, state_after_stop,
};
use crate::session::{SessionAction, SessionEvent, SessionPhase, SessionView};
use crate::state::ArtiState;
use vstd::prelude::*;

verus! {

/// The port that a query reports for a port cell.
pub open spec fn reported_port(port: Option<u16>) -> int {
    match port {
        Some(p) => p as int,
        None => 0,
    }
}

/// A state query reports one of the six state names or `Unknown`, and nothing
/// else.
pub proof fn law_reported_state_is_known(state: Option<ArtiState>)
    ensures
        is_state_name(reported_state(state)),
{
}

/// No two states are reported under one name, and no state under the name
/// `Unknown`: the reported name tells what the cell held.
pub proof fn law_reported_state_is_faithful(a: Option<ArtiState>, b: Option<ArtiState>)
    requires
        reported_state(a) == reported_state(b),
    ensures
        a == b,
{
    reveal_strlit("Uninitialized");
    reveal_strlit("Initialized");
    reveal_strlit("Starting");
    reveal_strlit("Running");
    reveal_strlit("Stopping");
    reveal_strlit("Stopped");
    reveal_strlit("Unknown");
    let x = reported_state(a);
    let y = reported_state(b);
    assert(x.len() == y.len());
    assert(x[0] == y[0]);
    assert(x[2] == y[2]);
}

/// A start that finds the state `Initialized` or `Stopped` leaves it
/// `Starting`; so does the first start, which finds `Uninitialized`.
pub proof fn law_accepted_start_is_starting(state: ArtiState)
    requires
        state == ArtiState::Uninitialized || state == ArtiState::Initialized || state
            == ArtiState::Stopped,
    ensures
        launch_accepted(initialized(Some(state))),
        state_after_launch(initialized(Some(state))) == Some(ArtiState::Starting),
{
}

/// A session whose every step succeeds takes the state from `Starting` to
/// `Running`: runtime, configuration, client, observers, bootstrap. Each of
/// the five events is awaited when it comes, and after the last the session
/// polls.
pub proof fn law_successful_session_reaches_running(
    state_dir: Seq<char>,
    cache_dir: Seq<char>,
    socks_port: u16,
)
    ensures
        ({
            let s0 = SessionView::fresh(state_dir, cache_dir, socks_port);
            let st = Some(ArtiState::Starting);
            let s1 = s0.after(SessionEvent::RuntimeCreated, st);
            let s2 = s1.after(SessionEvent::ConfigBuilt, st);
            let s3 = s2.after(SessionEvent::ClientConstructed, st);
            let s4 = s3.after(SessionEvent::ObserversRegistered, st);
            let s5 = s4.after(SessionEvent::Bootstrapped, st);
            &&& s0.awaits(SessionEvent::RuntimeCreated)
            &&& s0.state_after(SessionEvent::RuntimeCreated, st) == st
            &&& s1.awaits(SessionEvent::ConfigBuilt)
            &&& s1.state_after(SessionEvent::ConfigBuilt, st) == st
            &&& s2.awaits(SessionEvent::ClientConstructed)
            &&& s2.state_after(SessionEvent::ClientConstructed, st) == st
            &&& s3.awaits(SessionEvent::ObserversRegistered)
            &&& s3.state_after(SessionEvent::ObserversRegistered, st) == st
            &&& s4.pending_action() == SessionAction::Race { with_protocol: socks_port != 0 }
            &&& s4.awaits(SessionEvent::Bootstrapped)
            &&& s4.state_after(SessionEvent::Bootstrapped, st) == Some(ArtiState::Running)
            &&& s5.phase == SessionPhase::Polling
        }),
{
}

/// A start that finds the state `Starting`, `Running` or `Stopping` changes
/// neither the state nor the port, and is not taken up.
pub proof fn law_start_in_flight_is_ignored(state: ArtiState, port: Option<u16>, socks_port: u16)
    requires
        state == ArtiState::Starting || state == ArtiState::Running || state
            == ArtiState::Stopping,
    ensures
        !launch_accepted(initialized(Some(state))),
        state_after_launch(initialized(Some(state))) == Some(state),
        port_after_launch(initialized(Some(state)), port, socks_port) == port,
{
}

/// A stop that finds the state `Running` leaves it `Stopping`. The session
/// that polls then ends the race at its next poll, or earlier if the protocol
/// task ends first; once the observers are released the state is `Stopped`.
/// Between the stop and the end nothing but the session changes the state.
pub proof fn law_stop_reaches_stopped(session: SessionView, event: SessionEvent)
    requires
        session.phase == SessionPhase::Polling,
        session.awaits(event),
    ensures
        state_after_stop(Some(ArtiState::Running)) == Some(ArtiState::Stopping),
        ({
            let stopping = Some(ArtiState::Stopping);
            let draining = session.after(event, stopping);
            let held = session.state_after(event, stopping);
            &&& session.awaits(SessionEvent::PollElapsed)
            &&& held == stopping
            &&& state_after_stop(held) == held
            &&& state_after_launch(initialized(held)) == held
            &&& draining.phase == SessionPhase::Draining
            &&& draining.pending_action() == SessionAction::ReleaseObservers
            &&& draining.awaits(SessionEvent::ObserversReleased)
            &&& draining.after(SessionEvent::ObserversReleased, held).phase
                == SessionPhase::Finalized
            &&& draining.state_after(SessionEvent::ObserversReleased, held) == Some(
                ArtiState::Stopped,
            )
        }),
{
}

/// A stop that finds any state but `Running`, or no state at all, changes
/// nothing.
pub proof fn law_stop_elsewhere_is_ignored(state: Option<ArtiState>)
    requires
        state != Some(ArtiState::Running),
    ensures
        state_after_stop(state) == state,
{
}

/// However a session ends, it leaves the state `Stopped`: the step that takes
/// it to its last phase writes `Stopped` whatever the state was, as long as the
/// guard is available.
pub proof fn law_session_end_is_stopped(
    session: SessionView,
    event: SessionEvent,
    state: ArtiState,
)
    requires
        session.awaits(event),
        session.after(event, Some(state)).phase == SessionPhase::Finalized,
    ensures
        session.state_after(event, Some(state)) == Some(ArtiState::Stopped),
        session.after(event, Some(state)).pending_action() == SessionAction::Exit,
{
}

/// Every failure ends the session. A failure while the service is constructed
/// ends it at once; a failure of the registration or of either branch of the
/// race ends it as soon as the observers are released. Either way the state is
/// then `Stopped`.
pub proof fn law_failure_ends_session(
    session: SessionView,
    event: SessionEvent,
    state: ArtiState,
    later: ArtiState,
)
    requires
        session.awaits(event),
        event.failure() is Some,
    ensures
        ({
            let next = session.after(event, Some(state));
            &&& next.failure == event.failure()
            &&& next.phase == SessionPhase::Finalized || next.phase == SessionPhase::Draining
            &&& next.phase == SessionPhase::Finalized ==> session.state_after(event, Some(state))
                == Some(ArtiState::Stopped)
            &&& next.phase == SessionPhase::Draining ==> {
                &&& next.awaits(SessionEvent::ObserversReleased)
                &&& next.after(SessionEvent::ObserversReleased, Some(later)).phase
                    == SessionPhase::Finalized
                &&& next.state_after(SessionEvent::ObserversReleased, Some(later)) == Some(
                    ArtiState::Stopped,
                )
            }
        }),
{
}

/// No session phase is a dead end: until the session has ended, some event is
/// awaited, and a session that has ended awaits none.
pub proof fn law_session_is_never_stuck(session: SessionView)
    ensures
        session.phase != SessionPhase::Finalized ==> exists|event: SessionEvent|
            session.awaits(event),
        session.phase == SessionPhase::Finalized ==> forall|event: SessionEvent|
            !session.awaits(event),
{
    match session.phase {
        SessionPhase::CreatingRuntime => {
            assert(session.awaits(SessionEvent::RuntimeCreated));
        },
        SessionPhase::BuildingConfig => {
            assert(session.awaits(SessionEvent::ConfigBuilt));
        },
        SessionPhase::ConstructingClient => {
            assert(session.awaits(SessionEvent::ClientConstructed));
        },
        SessionPhase::RegisteringObservers => {
            assert(session.awaits(SessionEvent::ObserversRegistered));
        },
        SessionPhase::Bootstrapping => {
            assert(session.awaits(SessionEvent::Bootstrapped));
        },
        SessionPhase::Polling => {
            assert(session.awaits(SessionEvent::PollElapsed));
        },
        SessionPhase::Draining => {
            assert(session.awaits(SessionEvent::ObserversReleased));
        },
        SessionPhase::Finalized => {},
    }
}

/// Once the state is `Stopped`, the next start is taken up and leaves the state
/// `Starting`: no end of a session leaves the controller stuck.
pub proof fn law_stopped_restarts(port: Option<u16>, socks_port: u16)
    ensures
        launch_accepted(initialized(Some(ArtiState::Stopped))),
        state_after_launch(initialized(Some(ArtiState::Stopped))) == Some(ArtiState::Starting),
        port is Some ==> port_after_launch(
            initialized(Some(ArtiState::Stopped)),
            port,
            socks_port,
        ) == Some(socks_port),
{
}

/// The port query reports exactly the port of the last start that was taken
/// up, for every port: an accepted start records its port, a start that is not
/// taken up leaves the recorded port, and neither a stop nor a session ever
/// writes to the port cell.
pub proof fn law_port_is_last_accepted(state: Option<ArtiState>, recorded: u16, socks_port: u16)
    ensures
        launch_accepted(initialized(state)) ==> reported_port(
            port_after_launch(initialized(state), Some(recorded), socks_port),
        ) == socks_port,
        !launch_accepted(initialized(state)) ==> reported_port(
            port_after_launch(initialized(state), Some(recorded), socks_port),
        ) == recorded,
{
}

/// How far a phase is from the start of a session.
pub open spec fn progress(phase: SessionPhase) -> nat {
    match phase {
        SessionPhase::CreatingRuntime => 0,
        SessionPhase::BuildingConfig => 1,
        SessionPhase::ConstructingClient => 2,
        SessionPhase::RegisteringObservers => 3,
        SessionPhase::Bootstrapping => 4,
        SessionPhase::Polling => 5,
        SessionPhase::Draining => 6,
        SessionPhase::Finalized => 7,
    }
}

/// A session never goes back. Every awaited event takes it to a later phase,
/// except a poll that finds no stop request, which leaves it polling. So no
/// session bootstraps twice, and a session that stops polling ends after at
/// most two more events.
pub proof fn law_session_only_advances(
    session: SessionView,
    event: SessionEvent,
    state: Option<ArtiState>,
)
    requires
        session.awaits(event),
    ensures
        progress(session.after(event, state).phase) >= progress(session.phase),
        progress(session.after(event, state).phase) == progress(session.phase) ==> event
            is PollElapsed && state != Some(ArtiState::Stopping),
        event is Bootstrapped ==> !session.after(event, state).awaits(SessionEvent::Bootstrapped),
{
}

/// The lifecycle states that go with a session in a given phase, as long as
/// the session is the only one and the guard is available: `Starting` until
/// bootstrap is done, `Running` or `Stopping` while the session polls, any of
/// the three while it drains, and `Stopped` when it has ended.
pub open spec fn goes_with(phase: SessionPhase, state: ArtiState) -> bool {
    match phase {
        SessionPhase::Polling => state == ArtiState::Running || state == ArtiState::Stopping,
        SessionPhase::Draining => state == ArtiState::Starting || state == ArtiState::Running
            || state == ArtiState::Stopping,
        SessionPhase::Finalized => state == ArtiState::Stopped,
        _ => state == ArtiState::Starting,
    }
}

/// There is never more than one live session. An accepted start creates a
/// session that goes with the state it leaves; every step of that session, every
/// stop and every further start keeps the two together; and while they are
/// together and the session has not ended, no start is taken up, so no second
/// session is created.
pub proof fn law_single_session(
    session: SessionView,
    state: ArtiState,
    event: SessionEvent,
    port: Option<u16>,
    socks_port: u16,
)
    requires
        goes_with(session.phase, state),
    ensures
        goes_with(
            SessionView::fresh(session.state_dir, session.cache_dir, socks_port).phase,
            ArtiState::Starting,
        ),
        session.state_after(event, Some(state)) matches Some(next) && goes_with(
            session.after(event, Some(state)).phase,
            next,
        ),
        state_after_stop(Some(state)) matches Some(next) && (session.phase
            != SessionPhase::Finalized ==> goes_with(session.phase, next)),
        session.phase != SessionPhase::Finalized ==> ({
            &&& !launch_accepted(initialized(Some(state)))
            &&& state_after_launch(initialized(Some(state))) == Some(state)
            &&& port_after_launch(initialized(Some(state)), port, socks_port) == port
        }),
{
}

/// A session leaves a cell alone whose guard is unavailable, and never makes
/// an available cell unavailable. What it writes is `Running` or `Stopped`.
pub proof fn law_session_writes(session: SessionView, event: SessionEvent, state: Option<ArtiState>)
    ensures
        session.state_after(event, state) is Some <==> state is Some,
        session.state_after(event, state) == state || session.state_after(event, state) == Some(
            ArtiState::Running,
        ) || session.state_after(event, state) == Some(ArtiState::Stopped),
{
}

} // verus!
