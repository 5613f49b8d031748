use vstd::prelude::*;

verus! {

/// The two flavors of native lifecycle loop this core can sit on.  They
/// share the dispatcher and differ in their command table and in how input
/// reaches the application.
#[derive(PartialEq, Eq, Structural, Clone, Copy, Debug)]
pub enum Flavor {
    /// The game-oriented loop: full command set, including inset changes,
    /// with input delivered in per-frame buffers.
    GameActivity,
    /// The classic loop: no inset changes, an internal input-queue command
    /// that is never surfaced, and a dedicated input channel.
    NativeActivity,
}

/// A lifecycle command, as surfaced to the application.
#[derive(PartialEq, Eq, Structural, Clone, Copy, Debug)]
pub enum MainEvent {
    InitWindow,
    TerminateWindow,
    WindowResized,
    RedrawNeeded,
    ContentRectChanged,
    GainedFocus,
    LostFocus,
    ConfigChanged,
    LowMemory,
    Start,
    Resume,
    SaveState,
    Pause,
    Stop,
    Destroy,
    InsetsChanged,
}

/// The readiness flags reported for a custom file-descriptor source.
#[derive(PartialEq, Eq, Structural, Clone, Copy, Debug)]
pub struct FdEvent {
    /// The descriptor has data to read.
    pub readable: bool,
    /// The descriptor can be written to.
    pub writable: bool,
    /// An error occurred on the descriptor.
    pub error: bool,
    /// The peer hung up.
    pub hangup: bool,
    /// The descriptor is not open.
    pub invalid: bool,
}

/// One classified result of a poll.
#[derive(PartialEq, Eq, Structural, Clone, Copy, Debug)]
pub enum PollEvent {
    /// A wake request interrupted the wait.
    Wake,
    /// The wait ran out before anything happened.
    Timeout,
    /// The multiplexer reported an error (not fatal).
    Error,
    /// A lifecycle command.
    Main(MainEvent),
    /// A user-registered file-descriptor source became ready.
    FdEvent { ident: i32, fd: i32, events: FdEvent },
}

} // verus!
