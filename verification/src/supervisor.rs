//! The supervisor that owns the worker process's lifecycle.
//!
//! The supervisor is a state machine over the states Unstarted, Starting,
//! Ready, Degraded and Stopped. The host application performs the actual
//! process launch, liveness probes and termination; it reports each
//! observed outcome back through the transition methods below, which are
//! verified against the spec-level transition functions.
//!
//! At most one worker process is launched per session: only the
//! Unstarted -> Starting transition launches, and it can fire once.

use vstd::prelude::*;

verus! {

/// The lifecycle state of the supervised worker.
#[derive(Clone, Copy, Debug, PartialEq, Eq, Structural)]
pub enum SupervisorState {
    /// No launch attempt has been made this session.
    Unstarted,
    /// The worker was launched (or assumed externally managed) and has not
    /// yet answered a liveness probe; probes retry until the startup
    /// deadline.
    Starting,
    /// The worker answered the most recent liveness probe.
    Ready,
    /// The worker is expected to exist but is currently unreachable;
    /// recovery probes continue in the background.
    Degraded,
    /// The session shut down; terminal.
    Stopped,
}

/// What the host should do next to bring the worker toward Ready.
#[derive(Clone, Copy, Debug, PartialEq, Eq, Structural)]
pub enum EnsureAction {
    /// Locate the worker and launch it (or note that it is managed
    /// externally), then report `note_launched`.
    Launch,
    /// Send a liveness probe, then report `note_probe`.
    Probe,
    /// Nothing to do: the state is already Ready, Degraded or Stopped.
    Settled(SupervisorState),
}

/// The supervisor of the single worker process of a session.
#[derive(Clone, Copy, Debug, PartialEq, Eq, Structural)]
pub struct Supervisor {
    /// The current lifecycle state.
    pub state: SupervisorState,
    /// How many worker processes this session has launched.
    pub launches: u64,
    /// While Starting: the instant (in the host's milliseconds) at which
    /// startup gives up and the state falls to Degraded.
    pub startup_deadline: u64,
}

/// `a + b`, capped at the largest representable instant.
pub open spec fn spec_saturating_add(a: u64, b: u64) -> u64 {
    if a + b > u64::MAX {
        u64::MAX
    } else {
        (a + b) as u64
    }
}

/// The supervisor after the host reports that the launch step ran.
pub open spec fn spec_note_launched(s: Supervisor, now: u64, startup_timeout: u64) -> Supervisor {
    if s.state == SupervisorState::Unstarted {
        Supervisor {
            state: SupervisorState::Starting,
            launches: spec_saturating_add(s.launches, 1),
            startup_deadline: spec_saturating_add(now, startup_timeout),
        }
    } else {
        s
    }
}

/// The supervisor after the host reports a liveness probe's outcome.
pub open spec fn spec_note_probe(s: Supervisor, ok: bool, now: u64) -> Supervisor {
    match s.state {
        SupervisorState::Starting => if ok {
            Supervisor { state: SupervisorState::Ready, ..s }
        } else if now >= s.startup_deadline {
            Supervisor { state: SupervisorState::Degraded, ..s }
        } else {
            s
        },
        SupervisorState::Ready => if ok {
            s
        } else {
            Supervisor { state: SupervisorState::Degraded, ..s }
        },
        SupervisorState::Degraded => if ok {
            Supervisor { state: SupervisorState::Ready, ..s }
        } else {
            s
        },
        _ => s,
    }
}

/// The supervisor after an outstanding request failed at the transport
/// level (connection refused or reset).
pub open spec fn spec_note_transport_error(s: Supervisor) -> Supervisor {
    if s.state == SupervisorState::Ready {
        Supervisor { state: SupervisorState::Degraded, ..s }
    } else {
        s
    }
}

/// The supervisor after a shutdown request.
pub open spec fn spec_shutdown(s: Supervisor) -> Supervisor {
    Supervisor { state: SupervisorState::Stopped, ..s }
}

/// The next step `ensure_ready` asks of the host in a given state.
pub open spec fn spec_ensure_action(s: Supervisor) -> EnsureAction {
    match s.state {
        SupervisorState::Unstarted => EnsureAction::Launch,
        SupervisorState::Starting => EnsureAction::Probe,
        _ => EnsureAction::Settled(s.state),
    }
}

impl Supervisor {
    /// A session has launched a worker only after leaving Unstarted.
    pub open spec fn wf(&self) -> bool {
        &&& self.state == SupervisorState::Unstarted ==> self.launches == 0
        &&& self.launches <= 1
    }

    /// A fresh supervisor: nothing launched yet.
    pub fn new() -> (s: Supervisor)
        ensures
            s.wf(),
            s.state == SupervisorState::Unstarted,
            s.launches == 0,
    {
        Supervisor {
            state: SupervisorState::Unstarted,
            launches: 0,
            startup_deadline: 0,
        }
    }

    /// The next step of `ensure_ready`: the host repeats this, performing
    /// the returned action and reporting its outcome, until the action is
    /// `Settled`. Takes no action itself and changes nothing.
    pub fn ensure_ready_action(&self) -> (a: EnsureAction)
        ensures
            a == spec_ensure_action(*self),
    {
        match self.state {
            SupervisorState::Unstarted => EnsureAction::Launch,
            SupervisorState::Starting => EnsureAction::Probe,
            st => EnsureAction::Settled(st),
        }
    }

    /// The host launched the worker (or found it externally managed) at
    /// instant `now`: Unstarted moves to Starting with a startup deadline
    /// of `now + startup_timeout`; any other state is unchanged, so a
    /// second launch attempt within a session is suppressed.
    pub fn note_launched(&mut self, now: u64, startup_timeout: u64)
        requires
            old(self).wf(),
        ensures
            final(self).wf(),
            *final(self) == spec_note_launched(*old(self), now, startup_timeout),
    {
        if matches!(self.state, SupervisorState::Unstarted) {
            self.state = SupervisorState::Starting;
            self.launches = saturating_add(self.launches, 1);
            self.startup_deadline = saturating_add(now, startup_timeout);
        }
    }

    /// The host sent a liveness probe and observed `ok` at instant `now`.
    /// A success makes Starting or Degraded Ready; a failure makes Ready
    /// Degraded, and makes Starting Degraded once the startup deadline
    /// has passed. Never launches.
    pub fn note_probe(&mut self, ok: bool, now: u64)
        requires
            old(self).wf(),
        ensures
            final(self).wf(),
            *final(self) == spec_note_probe(*old(self), ok, now),
            final(self).launches == old(self).launches,
    {
        match self.state {
            SupervisorState::Starting => {
                if ok {
                    self.state = SupervisorState::Ready;
                } else if now >= self.startup_deadline {
                    self.state = SupervisorState::Degraded;
                }
            },
            SupervisorState::Ready => {
                if !ok {
                    self.state = SupervisorState::Degraded;
                }
            },
            SupervisorState::Degraded => {
                if ok {
                    self.state = SupervisorState::Ready;
                }
            },
            _ => {},
        }
    }

    /// An outstanding request failed at the transport level: Ready falls
    /// to Degraded; other states are unchanged. Never launches.
    pub fn note_transport_error(&mut self)
        requires
            old(self).wf(),
        ensures
            final(self).wf(),
            *final(self) == spec_note_transport_error(*old(self)),
            final(self).launches == old(self).launches,
    {
        if matches!(self.state, SupervisorState::Ready) {
            self.state = SupervisorState::Degraded;
        }
    }

    /// The session is shutting down: the state becomes Stopped, whatever
    /// it was, so the call is idempotent. Never launches.
    pub fn shutdown(&mut self)
        requires
            old(self).wf(),
        ensures
            final(self).wf(),
            *final(self) == spec_shutdown(*old(self)),
            final(self).state == SupervisorState::Stopped,
            final(self).launches == old(self).launches,
    {
        self.state = SupervisorState::Stopped;
    }
}

/// `a + b`, capped at `u64::MAX`.
pub fn saturating_add(a: u64, b: u64) -> (r: u64)
    ensures
        r == spec_saturating_add(a, b),
{
    if a > u64::MAX - b {
        u64::MAX
    } else {
        a + b
    }
}

/// While the worker is already Ready, `ensure_ready` settles at once: it
/// asks for no launch and no probe, and no transition it could still make
/// (a background probe, a transport report) changes how many processes
/// the session has launched. Repeated `ensure_ready` calls in Ready
/// therefore never launch a second process.
pub proof fn lemma_ensure_ready_idempotent(s: Supervisor, ok: bool, now: u64, startup_timeout: u64)
    requires
        s.wf(),
        s.state == SupervisorState::Ready,
    ensures
        spec_ensure_action(s) == EnsureAction::Settled(SupervisorState::Ready),
        spec_note_probe(s, ok, now).launches == s.launches,
        spec_note_probe(s, true, now) == s,
        spec_note_transport_error(s).launches == s.launches,
        spec_note_launched(s, now, startup_timeout) == s,
{
}

/// Shutdown is idempotent: a second shutdown changes nothing.
pub proof fn lemma_shutdown_idempotent(s: Supervisor)
    ensures
        spec_shutdown(spec_shutdown(s)) == spec_shutdown(s),
{
}

/// Startup cannot wait past its deadline: the first probe reported at or
/// after the startup deadline leaves Starting — toward Ready on success,
/// toward Degraded on failure — so `ensure_ready` settles rather than
/// probing on.
pub proof fn lemma_startup_settles_at_deadline(s: Supervisor, ok: bool, now: u64)
    requires
        s.state == SupervisorState::Starting,
        now >= s.startup_deadline,
    ensures
        spec_note_probe(s, ok, now).state != SupervisorState::Starting,
        spec_ensure_action(spec_note_probe(s, ok, now)) == EnsureAction::Settled(
            spec_note_probe(s, ok, now).state,
        ),
{
}

/// Stopped is terminal for the session: no launch report, probe outcome,
/// transport error or repeated shutdown leaves it.
pub proof fn lemma_stopped_terminal(s: Supervisor, ok: bool, now: u64, startup_timeout: u64)
    requires
        s.state == SupervisorState::Stopped,
    ensures
        spec_note_launched(s, now, startup_timeout) == s,
        spec_note_probe(s, ok, now) == s,
        spec_note_transport_error(s) == s,
        spec_shutdown(s) == s,
{
}

} // verus!
