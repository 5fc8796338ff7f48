use runtime_bridge::driver::{handle_host_event, run, setup, HostEvent, IterationInput};
use runtime_bridge::pacer::TARGET_FRAME_NANOS;
use runtime_bridge::readiness::ReadinessState;
use runtime_bridge::translator::{HostWindowEvent, WindowState};

#[test]
fn setup_builds_an_uninitialized_bridge() {
    let bridge = setup();
    assert_eq!(bridge.readiness, ReadinessState::Uninitialized);
    assert_eq!(bridge.pacer.frame_count, 0);
    assert_eq!(bridge.pacer.average_frame_rate(), 0);
    assert!(bridge.windows.is_empty());
}

#[test]
fn driver_exits_without_update_when_no_window_is_open() {
    // Zero open windows at the very first iteration: host cleanup runs and
    // the loop ends before the engine is ever stepped.
    let mut bridge = setup();
    let iterations = vec![
        IterationInput { events: Vec::new(), open_windows: 0, work_nanos: 0 },
        IterationInput { events: Vec::new(), open_windows: 1, work_nanos: 0 },
    ];
    let outcome = run(&mut bridge, &iterations);
    assert_eq!(outcome.engine_updates, 0);
    assert!(outcome.host_cleanup_ran);
    assert_eq!(outcome.iterations_run, 1);
    assert_eq!(bridge.readiness, ReadinessState::Cleaned);
}

#[test]
fn driver_exits_when_the_last_window_closes_later() {
    let mut bridge = setup();
    let iterations = vec![
        IterationInput { events: vec![HostEvent::Ready], open_windows: 1, work_nanos: 0 },
        IterationInput { events: Vec::new(), open_windows: 1, work_nanos: 0 },
        IterationInput { events: Vec::new(), open_windows: 0, work_nanos: 0 },
    ];
    let outcome = run(&mut bridge, &iterations);
    assert_eq!(outcome.engine_updates, 2);
    assert!(outcome.host_cleanup_ran);
    assert_eq!(outcome.iterations_run, 3);
    assert_eq!(bridge.readiness, ReadinessState::Cleaned);
}

#[test]
fn driver_runs_out_of_iterations_without_cleanup() {
    let mut bridge = setup();
    let iterations = vec![IterationInput { events: Vec::new(), open_windows: 1, work_nanos: 0 }];
    let outcome = run(&mut bridge, &iterations);
    assert_eq!(outcome.engine_updates, 1);
    assert!(!outcome.host_cleanup_ran);
    assert_eq!(outcome.iterations_run, 1);
}

#[test]
fn ready_event_completes_initialization_within_its_iteration() {
    let mut bridge = setup();
    let iterations =
        vec![IterationInput { events: vec![HostEvent::Ready], open_windows: 1, work_nanos: 0 }];
    run(&mut bridge, &iterations);
    assert_eq!(bridge.readiness, ReadinessState::Ready);
}

#[test]
fn repeated_ready_events_install_subsystems_once() {
    let mut bridge = setup();
    let effect = handle_host_event(&mut bridge, HostEvent::Ready);
    assert!(effect.install_subsystems);
    assert_eq!(bridge.readiness, ReadinessState::PluginsAdded);
    let again = handle_host_event(&mut bridge, HostEvent::Ready);
    assert!(!again.install_subsystems);
    assert_eq!(bridge.readiness, ReadinessState::PluginsAdded);
}

#[test]
fn task_pools_are_ticked_until_the_bridge_is_ready() {
    let mut bridge = setup();
    let effect = handle_host_event(&mut bridge, HostEvent::MainEventsCleared);
    assert!(effect.tick_task_pools);

    let mut ready_bridge = setup();
    let iterations =
        vec![IterationInput { events: vec![HostEvent::Ready], open_windows: 1, work_nanos: 0 }];
    run(&mut ready_bridge, &iterations);
    let effect = handle_host_event(&mut ready_bridge, HostEvent::MainEventsCleared);
    assert!(!effect.tick_task_pools);
}

#[test]
fn window_events_are_translated_by_the_driver() {
    let mut bridge = setup();
    bridge.windows.push(WindowState { id: 2, width: 320, height: 200 });
    let effect = handle_host_event(
        &mut bridge,
        HostEvent::WindowEvent(HostWindowEvent::Resized { width: 800, height: 600 }),
    );
    assert_eq!(effect.resize_events.len(), 1);
    assert_eq!(effect.resize_events[0].window, 2);
    assert_eq!((bridge.windows[0].width, bridge.windows[0].height), (800, 600));
}

#[test]
fn exit_requested_is_a_documented_noop() {
    let mut bridge = setup();
    bridge.windows.push(WindowState { id: 2, width: 320, height: 200 });
    let effect = handle_host_event(&mut bridge, HostEvent::ExitRequested);
    assert!(!effect.install_subsystems);
    assert!(effect.resize_events.is_empty());
    assert_eq!(bridge.readiness, ReadinessState::Uninitialized);
    assert_eq!((bridge.windows[0].width, bridge.windows[0].height), (320, 200));
}

#[test]
fn sixty_idle_iterations_publish_a_rate_of_sixty() {
    let mut bridge = setup();
    let mut iterations = Vec::new();
    for _ in 0..60 {
        iterations.push(IterationInput { events: Vec::new(), open_windows: 1, work_nanos: 0 });
    }
    let outcome = run(&mut bridge, &iterations);
    assert_eq!(outcome.engine_updates, 60);
    assert_eq!(bridge.pacer.average_frame_rate(), 60);
}

#[test]
fn overrunning_iterations_lower_the_published_rate() {
    let mut bridge = setup();
    let mut iterations = Vec::new();
    for _ in 0..30 {
        iterations.push(IterationInput {
            events: Vec::new(),
            open_windows: 1,
            work_nanos: 2 * TARGET_FRAME_NANOS,
        });
    }
    run(&mut bridge, &iterations);
    assert_eq!(bridge.pacer.average_frame_rate(), 30);
}
