//! Scheduling core of an event sonifier: timestamped software events are
//! turned into sound that plays at the wall-clock instant the event names.
//!
//! Everything here works on plain values. Time is counted in nanoseconds
//! (wall-clock time since the UNIX epoch, or the audio device's own clock),
//! audio positions in samples of the interleaved output stream.
pub mod clock;
pub mod mixer;
pub mod callback;
pub mod events;
pub mod api;
pub mod jukebox;
pub mod log_probe;
pub mod dtrace;
pub mod test_probe;
pub mod ptrace_probe;
