use runtime_bridge::readiness::{
    needs_task_pool_tick, on_poll_complete, on_ready_signal, on_windows_closed, ReadinessState,
};

#[test]
fn ready_signal_installs_exactly_once() {
    let mut state = ReadinessState::Uninitialized;
    assert!(on_ready_signal(&mut state));
    assert_eq!(state, ReadinessState::PluginsAdded);
    // Repeated host-ready signals never reinstall the subsystems.
    assert!(!on_ready_signal(&mut state));
    assert_eq!(state, ReadinessState::PluginsAdded);
    assert!(on_poll_complete(&mut state));
    assert!(!on_ready_signal(&mut state));
    assert_eq!(state, ReadinessState::Ready);
}

#[test]
fn lifecycle_advances_in_order() {
    let mut state = ReadinessState::Uninitialized;
    assert!(on_ready_signal(&mut state));
    assert_eq!(state, ReadinessState::PluginsAdded);
    assert!(on_poll_complete(&mut state));
    assert_eq!(state, ReadinessState::Ready);
    assert!(on_windows_closed(&mut state));
    assert_eq!(state, ReadinessState::Cleaned);
}

#[test]
fn poll_complete_waits_for_installation() {
    let mut state = ReadinessState::Uninitialized;
    assert!(!on_poll_complete(&mut state));
    assert_eq!(state, ReadinessState::Uninitialized);
}

#[test]
fn windows_closed_is_terminal_from_any_state() {
    let mut from_start = ReadinessState::Uninitialized;
    assert!(on_windows_closed(&mut from_start));
    assert_eq!(from_start, ReadinessState::Cleaned);
    // Shutdown hooks run only once.
    assert!(!on_windows_closed(&mut from_start));
    assert_eq!(from_start, ReadinessState::Cleaned);

    let mut mid_init = ReadinessState::PluginsAdded;
    assert!(on_windows_closed(&mut mid_init));
    assert_eq!(mid_init, ReadinessState::Cleaned);
}

#[test]
fn cleaned_state_accepts_no_initialization() {
    let mut state = ReadinessState::Cleaned;
    assert!(!on_ready_signal(&mut state));
    assert_eq!(state, ReadinessState::Cleaned);
    assert!(!on_poll_complete(&mut state));
    assert_eq!(state, ReadinessState::Cleaned);
}

#[test]
fn task_pools_tick_until_ready() {
    assert!(needs_task_pool_tick(&ReadinessState::Uninitialized));
    assert!(needs_task_pool_tick(&ReadinessState::PluginsAdded));
    assert!(!needs_task_pool_tick(&ReadinessState::Ready));
    assert!(!needs_task_pool_tick(&ReadinessState::Cleaned));
}
