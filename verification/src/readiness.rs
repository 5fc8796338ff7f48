//! Plugin-readiness state machine.
//!
//! The embedded engine's surface-dependent subsystems can only be installed
//! once the host has created its window. This machine sequences that
//! initialization: it starts `Uninitialized`, moves to `PluginsAdded` when the
//! host signals readiness (installing the deferred subsystems exactly once),
//! moves to `Ready` when polling reports that every subsystem finished its
//! asynchronous construction (running the finalize and cleanup hooks), and
//! moves to `Cleaned` when the host reports zero open windows (running the
//! shutdown hooks).

use vstd::prelude::*;

verus! {

/// Lifecycle of the engine's deferred, surface-dependent initialization.
#[derive(Clone, Copy, PartialEq, Eq, Structural, Debug)]
pub enum ReadinessState {
    /// No surface-dependent subsystem has been installed yet.
    Uninitialized,
    /// Deferred subsystems are installed and polling for their completion.
    PluginsAdded,
    /// All subsystems finished construction; steady-state framing runs.
    Ready,
    /// The host reported zero open windows; shutdown hooks have run.
    Cleaned,
}

/// The inputs the machine reacts to, one per row of its transition table.
#[derive(Clone, Copy, PartialEq, Eq, Structural, Debug)]
pub enum ReadinessEvent {
    /// The host signalled that its primary window exists and can render.
    HostReady,
    /// Polling reported that every installed subsystem finished construction.
    PollComplete,
    /// The host reported zero open windows.
    WindowsClosed,
}

/// One transition: the successor state and the actions the caller must
/// perform alongside it.
#[derive(Clone, Copy, PartialEq, Eq, Structural, Debug)]
pub struct Transition {
    pub next: ReadinessState,
    /// Install the surface-dependent subsystems now.
    pub install: bool,
    /// Run the engine's finalize and cleanup lifecycle hooks now.
    pub finalize: bool,
    /// Run the host's shutdown hooks now.
    pub shutdown: bool,
}

/// Position of a state in the lifecycle order, used to state monotonicity.
pub open spec fn rank(s: ReadinessState) -> int {
    match s {
        ReadinessState::Uninitialized => 0,
        ReadinessState::PluginsAdded => 1,
        ReadinessState::Ready => 2,
        ReadinessState::Cleaned => 3,
    }
}

/// A transition that changes nothing and asks for no action.
pub open spec fn no_change(s: ReadinessState) -> Transition {
    Transition { next: s, install: false, finalize: false, shutdown: false }
}

/// The machine's transition table.
///
/// Installation happens only from `Uninitialized`, so repeated host-ready
/// signals cannot install the subsystems twice. `WindowsClosed` is accepted
/// in every state and is terminal.
pub open spec fn step(s: ReadinessState, e: ReadinessEvent) -> Transition {
    match e {
        ReadinessEvent::HostReady => {
            if s == ReadinessState::Uninitialized {
                Transition {
                    next: ReadinessState::PluginsAdded,
                    install: true,
                    finalize: false,
                    shutdown: false,
                }
            } else {
                no_change(s)
            }
        },
        ReadinessEvent::PollComplete => {
            if s == ReadinessState::PluginsAdded {
                Transition {
                    next: ReadinessState::Ready,
                    install: false,
                    finalize: true,
                    shutdown: false,
                }
            } else {
                no_change(s)
            }
        },
        ReadinessEvent::WindowsClosed => {
            Transition {
                next: ReadinessState::Cleaned,
                install: false,
                finalize: false,
                shutdown: s != ReadinessState::Cleaned,
            }
        },
    }
}

/// Handles the host's "ready" signal. Returns true exactly when the caller
/// must install the surface-dependent subsystems, which happens only on the
/// first such signal.
pub fn on_ready_signal(state: &mut ReadinessState) -> (install: bool)
    ensures
        *final(state) == step(*old(state), ReadinessEvent::HostReady).next,
        install == step(*old(state), ReadinessEvent::HostReady).install,
{
    if *state == ReadinessState::Uninitialized {
        *state = ReadinessState::PluginsAdded;
        true
    } else {
        false
    }
}

/// Records that polling found every subsystem ready. Returns true exactly
/// when the caller must run the engine's finalize and cleanup hooks.
pub fn on_poll_complete(state: &mut ReadinessState) -> (finalize: bool)
    ensures
        *final(state) == step(*old(state), ReadinessEvent::PollComplete).next,
        finalize == step(*old(state), ReadinessEvent::PollComplete).finalize,
{
    if *state == ReadinessState::PluginsAdded {
        *state = ReadinessState::Ready;
        true
    } else {
        false
    }
}

/// Records that the host reported zero open windows. Returns true exactly
/// when the caller must run the host's shutdown hooks.
pub fn on_windows_closed(state: &mut ReadinessState) -> (shutdown: bool)
    ensures
        *final(state) == step(*old(state), ReadinessEvent::WindowsClosed).next,
        shutdown == step(*old(state), ReadinessEvent::WindowsClosed).shutdown,
{
    let shutdown = *state != ReadinessState::Cleaned;
    *state = ReadinessState::Cleaned;
    shutdown
}

/// Whether the driver must tick the engine's background task pools this
/// iteration: required while asynchronous subsystem construction may still
/// be pending, i.e. before the machine reaches `Ready`.
pub fn needs_task_pool_tick(state: &ReadinessState) -> (tick: bool)
    ensures
        tick == (*state != ReadinessState::Ready && *state != ReadinessState::Cleaned),
{
    *state != ReadinessState::Ready && *state != ReadinessState::Cleaned
}

/// The state after a whole sequence of events has been processed.
pub open spec fn run_state(s: ReadinessState, es: Seq<ReadinessEvent>) -> ReadinessState
    decreases es.len(),
{
    if es.len() == 0 {
        s
    } else {
        run_state(step(s, es[0]).next, es.drop_first())
    }
}

/// How many events of a sequence ask for subsystem installation.
pub open spec fn install_count(s: ReadinessState, es: Seq<ReadinessEvent>) -> nat
    decreases es.len(),
{
    if es.len() == 0 {
        0
    } else {
        (if step(s, es[0]).install {
            1nat
        } else {
            0nat
        }) + install_count(step(s, es[0]).next, es.drop_first())
    }
}

/// The deferred subsystems are installed at most once: over every sequence
/// of events — repeated host-ready signals included — at most one transition
/// asks for installation, and none at all once the machine has left
/// `Uninitialized`.
pub proof fn lemma_install_at_most_once(s: ReadinessState, es: Seq<ReadinessEvent>)
    ensures
        install_count(s, es) <= 1,
        s != ReadinessState::Uninitialized ==> install_count(s, es) == 0,
    decreases es.len(),
{
    if es.len() > 0 {
        lemma_install_at_most_once(step(s, es[0]).next, es.drop_first());
    }
}

/// Transitions are monotonic along the lifecycle order: no step moves the
/// machine backward, `Ready` is entered only from `PluginsAdded`, and
/// `Cleaned` is entered only by the host closing its windows — the
/// initialization events never skip `Ready` on the way there.
pub proof fn lemma_transitions_monotonic(s: ReadinessState, e: ReadinessEvent)
    ensures
        rank(step(s, e).next) >= rank(s),
        step(s, e).next == ReadinessState::Ready ==> s == ReadinessState::PluginsAdded
            || s == ReadinessState::Ready,
        step(s, e).next == ReadinessState::Cleaned ==> s == ReadinessState::Cleaned
            || e == ReadinessEvent::WindowsClosed,
{
}

} // verus!
