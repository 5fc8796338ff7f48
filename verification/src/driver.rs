//! The runtime bridge driver.
//!
//! The driver owns the bridge state for the life of the process. On every
//! host loop iteration it delivers the host's events to the readiness
//! machine and the event translator, exits with host cleanup as soon as the
//! host reports zero open windows, otherwise advances the engine by exactly
//! one discrete step and paces the iteration to the frame budget.
//!
//! The host pump, the engine step and the sleep are outside work performed
//! by the shell; the decisions between them live here. `run` executes the
//! whole cadence over a described sequence of host iterations, and its
//! contract ties it to `run_model`, a functional model of the loop, so every
//! property of the cadence is stated against that model.

use vstd::prelude::*;

use crate::pacer::FramePacer;
use crate::readiness;
use crate::readiness::{ReadinessEvent, ReadinessState};
use crate::translator;
use crate::translator::{HostWindowEvent, ResizeEvent, WindowState};

verus! {

/// A host-level run event, reduced to the kinds the bridge distinguishes.
#[derive(Clone, Copy, PartialEq, Eq, Structural, Debug)]
pub enum HostEvent {
    /// The host finished its startup and its primary window can render.
    Ready,
    /// The host was asked to exit. Deliberately a documented no-op: the
    /// bridge accepts it and translates it to nothing.
    ExitRequested,
    /// A window event, handed to the event translator.
    WindowEvent(HostWindowEvent),
    /// The host drained its native event queue for this iteration; ignored.
    MainEventsCleared,
    /// Any other run event kind; ignored.
    Other,
}

/// The bridge state the driver owns: the readiness machine, the frame pacer
/// and the model of the engine's window entities.
pub struct Bridge {
    pub readiness: ReadinessState,
    pub pacer: FramePacer,
    pub windows: Vec<WindowState>,
}

/// Mathematical value of a `Bridge`.
#[verifier::ext_equal]
pub ghost struct BridgeView {
    pub readiness: ReadinessState,
    pub pacer: FramePacer,
    pub windows: Seq<WindowState>,
}

impl View for Bridge {
    type V = BridgeView;

    open spec fn view(&self) -> BridgeView {
        BridgeView { readiness: self.readiness, pacer: self.pacer, windows: self.windows@ }
    }
}

/// What one delivered host event obliges the shell to do.
pub struct HostEventEffect {
    /// Drive the engine's background task pools forward before anything
    /// else; required while subsystem construction may still be pending.
    pub tick_task_pools: bool,
    /// Perform the surface handoff and install the deferred subsystems,
    /// then poll the engine until they finish construction.
    pub install_subsystems: bool,
    /// Engine-level resize events to emit into the engine's event queue.
    pub resize_events: Vec<ResizeEvent>,
}

/// The bridge after one host event is dispatched: a ready signal advances
/// the readiness machine, a window event runs through the translator, every
/// other kind changes nothing.
pub open spec fn event_step(b: BridgeView, e: HostEvent) -> BridgeView {
    match e {
        HostEvent::Ready => BridgeView {
            readiness: readiness::step(b.readiness, ReadinessEvent::HostReady).next,
            pacer: b.pacer,
            windows: b.windows,
        },
        HostEvent::WindowEvent(we) => BridgeView {
            readiness: b.readiness,
            pacer: b.pacer,
            windows: translator::translated_windows(b.windows, we),
        },
        _ => b,
    }
}

/// Whether dispatching the event installs the deferred subsystems: only a
/// ready signal received in `Uninitialized` does.
pub open spec fn event_installs(b: BridgeView, e: HostEvent) -> bool {
    e is Ready && b.readiness == ReadinessState::Uninitialized
}

/// The engine events the dispatch emits: only a window event translates to
/// any.
pub open spec fn event_resizes(b: BridgeView, e: HostEvent) -> Seq<ResizeEvent> {
    match e {
        HostEvent::WindowEvent(we) => translator::translated_events(b.windows, we),
        _ => Seq::empty(),
    }
}

/// Builds the bridge in its initial state: deferred initialization not yet
/// started, frame pacer zeroed, no window entities registered.
pub fn setup() -> (bridge: Bridge)
    ensures
        bridge.readiness == ReadinessState::Uninitialized,
        bridge.pacer == (FramePacer { frame_count: 0, nanos_into_second: 0, published_rate: 0 }),
        bridge.pacer.wf(),
        bridge@.windows == Seq::<WindowState>::empty(),
{
    Bridge {
        readiness: ReadinessState::Uninitialized,
        pacer: FramePacer::new(),
        windows: Vec::new(),
    }
}

/// Dispatches one host event against the bridge, before the engine is
/// stepped. The effect tells the shell what outside work the event demands;
/// the pacer is untouched.
pub fn handle_host_event(bridge: &mut Bridge, event: HostEvent) -> (effect: HostEventEffect)
    ensures
        final(bridge)@ == event_step(old(bridge)@, event),
        effect.install_subsystems == event_installs(old(bridge)@, event),
        effect.resize_events@ == event_resizes(old(bridge)@, event),
        effect.tick_task_pools == (old(bridge).readiness != ReadinessState::Ready
            && old(bridge).readiness != ReadinessState::Cleaned),
{
    let tick = readiness::needs_task_pool_tick(&bridge.readiness);
    match event {
        HostEvent::Ready => {
            let install = readiness::on_ready_signal(&mut bridge.readiness);
            HostEventEffect {
                tick_task_pools: tick,
                install_subsystems: install,
                resize_events: Vec::new(),
            }
        },
        HostEvent::WindowEvent(we) => {
            let resize_events = translator::handle_window_event(&mut bridge.windows, we);
            HostEventEffect { tick_task_pools: tick, install_subsystems: false, resize_events }
        },
        _ => HostEventEffect {
            tick_task_pools: tick,
            install_subsystems: false,
            resize_events: Vec::new(),
        },
    }
}

/// The bridge after one host event as the driver processes it: dispatch,
/// and — when the event installed the deferred subsystems — the completed
/// readiness poll that follows within the same delivery.
pub open spec fn run_event_step(b: BridgeView, e: HostEvent) -> BridgeView {
    let stepped = event_step(b, e);
    if event_installs(b, e) {
        BridgeView {
            readiness: readiness::step(stepped.readiness, ReadinessEvent::PollComplete).next,
            pacer: stepped.pacer,
            windows: stepped.windows,
        }
    } else {
        stepped
    }
}

/// The bridge after a whole batch of host events is delivered, in order.
pub open spec fn events_fold(b: BridgeView, es: Seq<HostEvent>) -> BridgeView
    decreases es.len(),
{
    if es.len() == 0 {
        b
    } else {
        events_fold(run_event_step(b, es[0]), es.drop_first())
    }
}

/// One host loop iteration as the shell reports it: the events its pump
/// delivered, how many windows remain open afterwards, and how long the
/// iteration's work took.
pub struct IterationInput {
    pub events: Vec<HostEvent>,
    pub open_windows: usize,
    pub work_nanos: u64,
}

/// What a finished (or exited) run of the driver produced.
pub struct RunOutcome {
    /// How often the engine was advanced by one discrete step.
    pub engine_updates: usize,
    /// Whether the host's cleanup hooks ran because no window stayed open.
    pub host_cleanup_ran: bool,
    /// How many host iterations the driver entered.
    pub iterations_run: usize,
}

/// Accumulated state of the functional model of the driver loop.
#[verifier::ext_equal]
pub ghost struct RunModel {
    pub bridge: BridgeView,
    pub engine_updates: nat,
    pub host_cleanup_ran: bool,
    pub iterations_run: nat,
    pub exited: bool,
}

/// The model at the start of a run.
pub open spec fn init_model(b: BridgeView) -> RunModel {
    RunModel {
        bridge: b,
        engine_updates: 0,
        host_cleanup_ran: false,
        iterations_run: 0,
        exited: false,
    }
}

/// One iteration of the driver loop: deliver the pumped events; if the host
/// now reports zero open windows, run host cleanup and exit without stepping
/// the engine; otherwise step the engine once and pace the frame.
pub open spec fn iter_step(m: RunModel, it: IterationInput) -> RunModel {
    let b = events_fold(m.bridge, it.events@);
    if it.open_windows == 0 {
        RunModel {
            bridge: BridgeView {
                readiness: readiness::step(b.readiness, ReadinessEvent::WindowsClosed).next,
                pacer: b.pacer,
                windows: b.windows,
            },
            engine_updates: m.engine_updates,
            host_cleanup_ran: true,
            iterations_run: m.iterations_run + 1,
            exited: true,
        }
    } else {
        RunModel {
            bridge: BridgeView {
                readiness: b.readiness,
                pacer: b.pacer.spec_end_frame(it.work_nanos),
                windows: b.windows,
            },
            engine_updates: m.engine_updates + 1,
            host_cleanup_ran: m.host_cleanup_ran,
            iterations_run: m.iterations_run + 1,
            exited: false,
        }
    }
}

/// The model after the driver consumes a sequence of host iterations,
/// stopping early when an iteration exits the loop.
pub open spec fn run_model(m: RunModel, iters: Seq<IterationInput>) -> RunModel
    decreases iters.len(),
{
    if m.exited || iters.len() == 0 {
        m
    } else {
        run_model(iter_step(m, iters[0]), iters.drop_first())
    }
}

/// Runs the driver loop over a described sequence of host iterations. The
/// result and the final bridge are exactly what `run_model` says of them.
pub fn run(bridge: &mut Bridge, iterations: &Vec<IterationInput>) -> (outcome: RunOutcome)
    requires
        old(bridge).pacer.wf(),
    ensures
        ({
            let m = run_model(init_model(old(bridge)@), iterations@);
            &&& final(bridge)@ == m.bridge
            &&& outcome.engine_updates == m.engine_updates
            &&& outcome.host_cleanup_ran == m.host_cleanup_ran
            &&& outcome.iterations_run == m.iterations_run
            &&& outcome.host_cleanup_ran == m.exited
        }),
        final(bridge).pacer.wf(),
{
    let ghost b0 = bridge@;
    let mut engine_updates: usize = 0;
    let mut i: usize = 0;
    proof {
        assert(iterations@.skip(0) =~= iterations@);
    }
    while i < iterations.len()
        invariant
            b0 == old(bridge)@,
            i <= iterations.len(),
            engine_updates <= i,
            bridge.pacer.wf(),
            run_model(init_model(b0), iterations@) == run_model(
                RunModel {
                    bridge: bridge@,
                    engine_updates: engine_updates as nat,
                    host_cleanup_ran: false,
                    iterations_run: i as nat,
                    exited: false,
                },
                iterations@.skip(i as int),
            ),
        decreases iterations.len() - i,
    {
        let ghost m_i = RunModel {
            bridge: bridge@,
            engine_updates: engine_updates as nat,
            host_cleanup_ran: false,
            iterations_run: i as nat,
            exited: false,
        };
        let ghost b_pre = bridge@;
        let events: &Vec<HostEvent> = &iterations[i].events;
        let mut j: usize = 0;
        proof {
            assert(events@.skip(0) =~= events@);
        }
        while j < events.len()
            invariant
                j <= events.len(),
                bridge.pacer.wf(),
                events_fold(b_pre, events@) == events_fold(bridge@, events@.skip(j as int)),
            decreases events.len() - j,
        {
            let e = events[j];
            let ghost b_cur = bridge@;
            let effect = handle_host_event(bridge, e);
            if effect.install_subsystems {
                let _ = readiness::on_poll_complete(&mut bridge.readiness);
            }
            proof {
                assert(bridge@ =~= run_event_step(b_cur, e));
                assert(events@.skip(j as int)[0] == events@[j as int]);
                assert(events@.skip(j as int).drop_first() =~= events@.skip(j as int + 1));
            }
            j = j + 1;
        }
        proof {
            assert(events@.skip(events@.len() as int) =~= Seq::<HostEvent>::empty());
            assert(bridge@ == events_fold(b_pre, events@));
            assert(iterations@.skip(i as int)[0] == iterations@[i as int]);
            assert(iterations@.skip(i as int).drop_first() =~= iterations@.skip(i as int + 1));
        }
        if iterations[i].open_windows == 0 {
            let _ = readiness::on_windows_closed(&mut bridge.readiness);
            proof {
                let m_exit = iter_step(m_i, iterations@[i as int]);
                assert(iterations@.skip(i as int).len() > 0);
                assert(run_model(m_i, iterations@.skip(i as int)) == run_model(
                    m_exit,
                    iterations@.skip(i as int + 1),
                ));
                assert(m_exit.exited);
                assert(run_model(m_exit, iterations@.skip(i as int + 1)) == m_exit);
                assert(bridge@ =~= m_exit.bridge);
            }
            return RunOutcome {
                engine_updates,
                host_cleanup_ran: true,
                iterations_run: i + 1,
            };
        }
        engine_updates = engine_updates + 1;
        let _sleep_nanos = bridge.pacer.end_frame(iterations[i].work_nanos);
        proof {
            let m_next = iter_step(m_i, iterations@[i as int]);
            assert(iterations@.skip(i as int).len() > 0);
            assert(run_model(m_i, iterations@.skip(i as int)) == run_model(
                m_next,
                iterations@.skip(i as int + 1),
            ));
            assert(bridge@ =~= m_next.bridge);
            assert(m_next =~= RunModel {
                bridge: bridge@,
                engine_updates: (engine_updates as nat),
                host_cleanup_ran: false,
                iterations_run: (i + 1) as nat,
                exited: false,
            });
        }
        i = i + 1;
    }
    proof {
        assert(iterations@.skip(i as int) =~= Seq::<IterationInput>::empty());
    }
    RunOutcome { engine_updates, host_cleanup_ran: false, iterations_run: i }
}

/// If the host reports zero open windows at the very first iteration, the
/// driver runs host cleanup and exits at once, without ever stepping the
/// engine — whatever events that iteration delivered and whatever follows.
pub proof fn lemma_exit_before_first_update(b: BridgeView, iters: Seq<IterationInput>)
    requires
        iters.len() > 0,
        iters[0].open_windows == 0,
    ensures
        ({
            let m = run_model(init_model(b), iters);
            &&& m.engine_updates == 0
            &&& m.host_cleanup_ran
            &&& m.exited
            &&& m.iterations_run == 1
            &&& m.bridge.readiness == ReadinessState::Cleaned
        }),
{
    let m1 = iter_step(init_model(b), iters[0]);
    assert(m1.exited);
    assert(run_model(init_model(b), iters) == run_model(m1, iters.drop_first()));
    assert(run_model(m1, iters.drop_first()) == m1);
}

} // verus!
