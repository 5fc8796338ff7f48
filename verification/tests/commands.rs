use runtime_bridge::commands::{get_average_frame_rate, greet};
use runtime_bridge::pacer::FramePacer;

#[test]
fn greet_builds_the_fixed_greeting() {
    assert_eq!(greet("World"), "Hello, World! You've been greeted from Rust-Bevy App!");
    assert_eq!(greet(""), "Hello, ! You've been greeted from Rust-Bevy App!");
}

#[test]
fn frame_rate_command_reads_the_published_metric() {
    let mut pacer = FramePacer::new();
    assert_eq!(get_average_frame_rate(&pacer), 0);
    for _ in 0..60 {
        pacer.end_frame(0);
    }
    assert_eq!(get_average_frame_rate(&pacer), 60);
}
