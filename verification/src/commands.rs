//! The command surface the bridge exposes to the host's UI layer: a fixed
//! greeting and the published frame-rate metric. The host's remote-invocation
//! transport is the shell's business; these are the values it serves.

use vstd::prelude::*;
use vstd::string::StringExecFns;

use crate::pacer::FramePacer;

verus! {

/// Returns the greeting served to the UI for the given name.
pub fn greet(name: &str) -> (greeting: String)
    ensures
        greeting@ == "Hello, "@ + name@ + "! You've been greeted from Rust-Bevy App!"@,
{
    let mut greeting = String::new();
    greeting.append("Hello, ");
    greeting.append(name);
    greeting.append("! You've been greeted from Rust-Bevy App!");
    greeting
}

/// Reads the frame-rate metric the pacer last published: zero before the
/// first full second of iterations has elapsed, the most recent count after.
pub fn get_average_frame_rate(pacer: &FramePacer) -> (rate: usize)
    ensures
        rate == pacer.published_rate,
{
    pacer.average_frame_rate()
}

} // verus!
