//! Host-event-to-engine-event translation.
//!
//! The host delivers window events in its own vocabulary; the engine expects
//! resolution updates on its window entities plus a resize event per entity
//! in its normal event queue. The translator works on a plain model of those
//! entities — identity and pixel resolution — so that its effect is stated
//! exactly; the shell converts between this model and the engine's own store.

use vstd::prelude::*;

verus! {

/// A window entity of the engine, reduced to what the translator reads and
/// writes: its identity and its resolution in physical pixels.
#[derive(Clone, Copy, PartialEq, Eq, Structural, Debug)]
pub struct WindowState {
    pub id: u64,
    pub width: u32,
    pub height: u32,
}

/// A host window event, reduced to the kinds the bridge distinguishes.
#[derive(Clone, Copy, PartialEq, Eq, Structural, Debug)]
pub enum HostWindowEvent {
    /// The window was resized to the given physical pixel size.
    Resized { width: u32, height: u32 },
    /// The display scale factor changed. Deliberately a documented no-op:
    /// the bridge accepts it and translates it to nothing.
    ScaleFactorChanged,
    /// Any other window event kind; ignored.
    Other,
}

/// An engine-level resize event: the entity it concerns and the new size.
#[derive(Clone, Copy, PartialEq, Eq, Structural, Debug)]
pub struct ResizeEvent {
    pub window: u64,
    pub width: u32,
    pub height: u32,
}

/// Every window entity with its resolution overwritten to the new size.
pub open spec fn resized_windows(ws: Seq<WindowState>, width: u32, height: u32) -> Seq<
    WindowState,
> {
    Seq::new(ws.len(), |i: int| WindowState { id: ws[i].id, width, height })
}

/// One resize event per window entity, each carrying the new size.
pub open spec fn resize_events(ws: Seq<WindowState>, width: u32, height: u32) -> Seq<
    ResizeEvent,
> {
    Seq::new(ws.len(), |i: int| ResizeEvent { window: ws[i].id, width, height })
}

/// The window entities after a host window event: only a resize changes them.
pub open spec fn translated_windows(ws: Seq<WindowState>, e: HostWindowEvent) -> Seq<
    WindowState,
> {
    match e {
        HostWindowEvent::Resized { width, height } => resized_windows(ws, width, height),
        _ => ws,
    }
}

/// The engine events a host window event translates to: only a resize emits
/// any, one per window entity.
pub open spec fn translated_events(ws: Seq<WindowState>, e: HostWindowEvent) -> Seq<
    ResizeEvent,
> {
    match e {
        HostWindowEvent::Resized { width, height } => resize_events(ws, width, height),
        _ => Seq::empty(),
    }
}

/// Applies a resize to every window entity and returns the resize events to
/// emit: each entity's resolution becomes the new size, and exactly one
/// event per entity carries its identity with the matching size.
pub fn handle_window_resize(windows: &mut Vec<WindowState>, width: u32, height: u32) -> (events:
    Vec<ResizeEvent>)
    ensures
        final(windows)@ == resized_windows(old(windows)@, width, height),
        events@ == resize_events(old(windows)@, width, height),
{
    let mut updated: Vec<WindowState> = Vec::new();
    let mut events: Vec<ResizeEvent> = Vec::new();
    let mut i: usize = 0;
    while i < windows.len()
        invariant
            i <= windows.len(),
            updated@ =~= resized_windows(windows@, width, height).take(i as int),
            events@ =~= resize_events(windows@, width, height).take(i as int),
        decreases windows.len() - i,
    {
        let id = windows[i].id;
        updated.push(WindowState { id, width, height });
        events.push(ResizeEvent { window: id, width, height });
        i = i + 1;
    }
    proof {
        assert(updated@ =~= resized_windows(windows@, width, height));
        assert(events@ =~= resize_events(windows@, width, height));
    }
    *windows = updated;
    events
}

/// Dispatches one host window event: a resize is translated through
/// `handle_window_resize`; a scale-factor change and every other kind leave
/// the window entities untouched and emit nothing.
pub fn handle_window_event(windows: &mut Vec<WindowState>, event: HostWindowEvent) -> (events:
    Vec<ResizeEvent>)
    ensures
        final(windows)@ == translated_windows(old(windows)@, event),
        events@ == translated_events(old(windows)@, event),
{
    match event {
        HostWindowEvent::Resized { width, height } => {
            handle_window_resize(windows, width, height)
        },
        HostWindowEvent::ScaleFactorChanged => Vec::new(),
        HostWindowEvent::Other => Vec::new(),
    }
}

} // verus!
