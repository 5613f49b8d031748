use vstd::prelude::*;
use crate::event::{FdEvent, Flavor, PollEvent};

verus! {

/// Largest wait the native multiplexer can be asked for, in milliseconds.
pub const MAX_WAIT_MILLIS: i32 = 0x7fff_ffff;

/// The wait argument handed to the native multiplexer for a timeout given
/// in whole milliseconds: `-1` (wait forever) for no timeout, otherwise the
/// millisecond count, saturated at the largest representable wait.
pub open spec fn wait_arg(timeout_ms: Option<u128>) -> int {
    match timeout_ms {
        None => -1,
        Some(ms) => if ms > MAX_WAIT_MILLIS as u128 { MAX_WAIT_MILLIS as int } else { ms as int },
    }
}

/// Turns an optional timeout (whole milliseconds) into the wait
/// argument of the native multiplexer.
pub fn wait_millis(timeout_ms: Option<u128>) -> (r: i32)
    ensures
        r as int == wait_arg(timeout_ms),
{
    match timeout_ms {
        None => -1,
        Some(ms) => {
            if ms > MAX_WAIT_MILLIS as u128 {
                MAX_WAIT_MILLIS
            } else {
                ms as i32
            }
        },
    }
}

/// Result codes of the native multiplexer below zero.
pub const ALOOPER_POLL_WAKE: i32 = -1;
pub const ALOOPER_POLL_CALLBACK: i32 = -2;
pub const ALOOPER_POLL_TIMEOUT: i32 = -3;
pub const ALOOPER_POLL_ERROR: i32 = -4;

/// Identifier of the glue's command channel.
pub const LOOPER_ID_MAIN: i32 = 1;
/// Identifier of the classic flavor's input-available channel.
pub const LOOPER_ID_INPUT: i32 = 2;

/// Event-mask bits reported for a file-descriptor source.
pub const FD_EVENT_INPUT: u32 = 1;
pub const FD_EVENT_OUTPUT: u32 = 2;
pub const FD_EVENT_ERROR: u32 = 4;
pub const FD_EVENT_HANGUP: u32 = 8;
pub const FD_EVENT_INVALID: u32 = 16;
/// All the event-mask bits that have a meaning.
pub const FD_EVENT_ALL: u32 = 31;

/// A poll result that the native side's contract rules out.  Seeing one
/// means the glue is corrupted, and the dispatcher must stop.
#[derive(PartialEq, Eq, Structural, Clone, Copy, Debug)]
pub enum GlueViolation {
    /// The command channel fired without its poll-source payload.
    MissingPollSource,
    /// A command code outside the flavor's table.
    UnknownCommand(i32),
    /// An event mask with bits that have no meaning.
    BadEventFlags(u32),
}

/// A poll result that is deliberately dropped.
#[derive(PartialEq, Eq, Structural, Clone, Copy, Debug)]
pub enum IgnoredPoll {
    /// The multiplexer reported a callback source, which it handles itself.
    SpuriousCallback,
    /// A negative result code outside the documented ones.
    UnknownResult(i32),
    /// Input became available; that alone is no reason to wake the
    /// application.
    InputAvailable,
}

/// What the dispatcher does with the result of one multiplexer call.
#[derive(PartialEq, Eq, Structural, Clone, Copy, Debug)]
pub enum PollAction {
    /// Hand this event to the application callback.
    Emit(PollEvent),
    /// Read the pending command from the glue and run its protocol.
    ReadCommand,
    /// Drop the result.
    Ignore(IgnoredPoll),
    /// Stop: the native side broke its contract.
    Abort(GlueViolation),
}

/// The event-mask bits a flag set stands for.
pub open spec fn fd_event_spec(bits: u32) -> FdEvent {
    FdEvent {
        readable: bits & FD_EVENT_INPUT != 0,
        writable: bits & FD_EVENT_OUTPUT != 0,
        error: bits & FD_EVENT_ERROR != 0,
        hangup: bits & FD_EVENT_HANGUP != 0,
        invalid: bits & FD_EVENT_INVALID != 0,
    }
}

/// Whether an event mask holds only bits that have a meaning.
pub open spec fn fd_bits_valid(bits: u32) -> bool {
    bits & !FD_EVENT_ALL == 0
}

/// The classification of a multiplexer result `id`, with the descriptor and
/// event mask it reported and whether it carried a poll-source payload.
pub open spec fn classify_spec(flavor: Flavor, id: i32, fd: i32, events: i32, has_source: bool) -> PollAction {
    if id == ALOOPER_POLL_WAKE {
        PollAction::Emit(PollEvent::Wake)
    } else if id == ALOOPER_POLL_CALLBACK {
        PollAction::Ignore(IgnoredPoll::SpuriousCallback)
    } else if id == ALOOPER_POLL_TIMEOUT {
        PollAction::Emit(PollEvent::Timeout)
    } else if id == ALOOPER_POLL_ERROR {
        PollAction::Emit(PollEvent::Error)
    } else if id < 0 {
        PollAction::Ignore(IgnoredPoll::UnknownResult(id))
    } else if id == LOOPER_ID_MAIN {
        if has_source {
            PollAction::ReadCommand
        } else {
            PollAction::Abort(GlueViolation::MissingPollSource)
        }
    } else if id == LOOPER_ID_INPUT && flavor == Flavor::NativeActivity {
        PollAction::Ignore(IgnoredPoll::InputAvailable)
    } else if fd_bits_valid(events as u32) {
        PollAction::Emit(PollEvent::FdEvent { ident: id, fd, events: fd_event_spec(events as u32) })
    } else {
        PollAction::Abort(GlueViolation::BadEventFlags(events as u32))
    }
}

/// Relies on `ndk::looper::FdEvent::from_bits` (bitflags): the mask is
/// accepted, and kept as it is, exactly when it sets no bit outside the
/// five defined flags.
#[verifier::external_body]
fn checked_fd_bits(bits: u32) -> (r: Option<u32>)
    ensures
        r == (if fd_bits_valid(bits) { Some(bits) } else { None::<u32> }),
{
    ndk::looper::FdEvent::from_bits(bits).map(|e| e.bits())
}

/// Decodes a raw event mask into flags, or `None` when it sets a bit that
/// has no meaning.
pub fn decode_fd_events(bits: u32) -> (r: Option<FdEvent>)
    ensures
        r == (if fd_bits_valid(bits) { Some(fd_event_spec(bits)) } else { None::<FdEvent> }),
{
    match checked_fd_bits(bits) {
        Some(b) => Some(
            FdEvent {
                readable: b & FD_EVENT_INPUT != 0,
                writable: b & FD_EVENT_OUTPUT != 0,
                error: b & FD_EVENT_ERROR != 0,
                hangup: b & FD_EVENT_HANGUP != 0,
                invalid: b & FD_EVENT_INVALID != 0,
            },
        ),
        None => None,
    }
}

/// Classifies the result of one multiplexer call.
pub fn classify_poll(flavor: Flavor, id: i32, fd: i32, events: i32, has_source: bool) -> (r: PollAction)
    ensures
        r == classify_spec(flavor, id, fd, events, has_source),
{
    if id == ALOOPER_POLL_WAKE {
        PollAction::Emit(PollEvent::Wake)
    } else if id == ALOOPER_POLL_CALLBACK {
        PollAction::Ignore(IgnoredPoll::SpuriousCallback)
    } else if id == ALOOPER_POLL_TIMEOUT {
        PollAction::Emit(PollEvent::Timeout)
    } else if id == ALOOPER_POLL_ERROR {
        PollAction::Emit(PollEvent::Error)
    } else if id < 0 {
        PollAction::Ignore(IgnoredPoll::UnknownResult(id))
    } else if id == LOOPER_ID_MAIN {
        if has_source {
            PollAction::ReadCommand
        } else {
            PollAction::Abort(GlueViolation::MissingPollSource)
        }
    } else if id == LOOPER_ID_INPUT && flavor == Flavor::NativeActivity {
        PollAction::Ignore(IgnoredPoll::InputAvailable)
    } else {
        match decode_fd_events(events as u32) {
            Some(flags) => PollAction::Emit(PollEvent::FdEvent { ident: id, fd, events: flags }),
            None => PollAction::Abort(GlueViolation::BadEventFlags(events as u32)),
        }
    }
}

/// The event mask that a flag set stands for.
pub open spec fn fd_event_bits(e: FdEvent) -> u32 {
    (if e.readable { FD_EVENT_INPUT } else { 0u32 }) | (if e.writable { FD_EVENT_OUTPUT } else { 0u32 })
        | (if e.error { FD_EVENT_ERROR } else { 0u32 }) | (if e.hangup { FD_EVENT_HANGUP } else { 0u32 })
        | (if e.invalid { FD_EVENT_INVALID } else { 0u32 })
}

/// Any non-negative result other than the reserved channels is a custom
/// source: it is emitted with its identifier and descriptor, and a mask that
/// sets only defined bits is decoded so that the flags give back exactly
/// that mask, whatever combination of readable, writable, error and hangup
/// it holds.
pub proof fn lemma_custom_source_flags(flavor: Flavor, id: i32, fd: i32, events: i32, has_source: bool)
    requires
        id >= 0,
        id != LOOPER_ID_MAIN,
        !(id == LOOPER_ID_INPUT && flavor == Flavor::NativeActivity),
        fd_bits_valid(events as u32),
    ensures
        classify_spec(flavor, id, fd, events, has_source) == PollAction::Emit(
            PollEvent::FdEvent { ident: id, fd, events: fd_event_spec(events as u32) },
        ),
        fd_event_bits(fd_event_spec(events as u32)) == events as u32,
{
    let b = events as u32;
    assert(b & !31u32 == 0u32 ==> ((if b & 1u32 != 0u32 { 1u32 } else { 0u32 }) | (if b & 2u32 != 0u32 { 2u32 } else { 0u32 })
        | (if b & 4u32 != 0u32 { 4u32 } else { 0u32 }) | (if b & 8u32 != 0u32 { 8u32 } else { 0u32 })
        | (if b & 16u32 != 0u32 { 16u32 } else { 0u32 })) == b) by (bit_vector);
}

} // verus!
