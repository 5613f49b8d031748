use vstd::prelude::*;
use crate::event::{Flavor, MainEvent};
use crate::poll::GlueViolation;

verus! {

/// Command codes written by the native glue into its command pipe.
pub const APP_CMD_INPUT_CHANGED: i32 = 0;
pub const APP_CMD_INIT_WINDOW: i32 = 1;
pub const APP_CMD_TERM_WINDOW: i32 = 2;
pub const APP_CMD_WINDOW_RESIZED: i32 = 3;
pub const APP_CMD_WINDOW_REDRAW_NEEDED: i32 = 4;
pub const APP_CMD_CONTENT_RECT_CHANGED: i32 = 5;
pub const APP_CMD_GAINED_FOCUS: i32 = 6;
pub const APP_CMD_LOST_FOCUS: i32 = 7;
pub const APP_CMD_CONFIG_CHANGED: i32 = 8;
pub const APP_CMD_LOW_MEMORY: i32 = 9;
pub const APP_CMD_START: i32 = 10;
pub const APP_CMD_RESUME: i32 = 11;
pub const APP_CMD_SAVE_STATE: i32 = 12;
pub const APP_CMD_PAUSE: i32 = 13;
pub const APP_CMD_STOP: i32 = 14;
pub const APP_CMD_DESTROY: i32 = 15;
pub const APP_CMD_WINDOW_INSETS_CHANGED: i32 = 16;

/// What a command code read from the native glue stands for.
#[derive(PartialEq, Eq, Structural, Clone, Copy, Debug)]
pub enum DecodedCommand {
    /// A command that is surfaced to the application.
    Surfaced(MainEvent),
    /// An internal command of the glue: it runs the pre-/post-exec hooks
    /// but never reaches the application.
    Internal,
    /// A code outside the flavor's table: the glue broke its contract.
    Unknown,
}

/// One step of the two-phase protocol that handles a command.
#[derive(PartialEq, Eq, Structural, Clone, Copy, Debug)]
pub enum CommandStep {
    /// Run the glue's pre-exec hook for the command.
    PreExec,
    /// Re-read the configuration and replace the cached snapshot.
    SyncConfig,
    /// Capture the new display surface into the cache.
    CaptureWindow,
    /// Clear the cached display surface.
    ClearWindow,
    /// Invoke the application callback with the command.
    Deliver(MainEvent),
    /// Run the glue's post-exec hook for the command.
    PostExec,
}

/// The commands both flavors know, by code.
pub open spec fn common_event(code: i32) -> Option<MainEvent> {
    if code == APP_CMD_INIT_WINDOW {
        Some(MainEvent::InitWindow)
    } else if code == APP_CMD_TERM_WINDOW {
        Some(MainEvent::TerminateWindow)
    } else if code == APP_CMD_WINDOW_RESIZED {
        Some(MainEvent::WindowResized)
    } else if code == APP_CMD_WINDOW_REDRAW_NEEDED {
        Some(MainEvent::RedrawNeeded)
    } else if code == APP_CMD_CONTENT_RECT_CHANGED {
        Some(MainEvent::ContentRectChanged)
    } else if code == APP_CMD_GAINED_FOCUS {
        Some(MainEvent::GainedFocus)
    } else if code == APP_CMD_LOST_FOCUS {
        Some(MainEvent::LostFocus)
    } else if code == APP_CMD_CONFIG_CHANGED {
        Some(MainEvent::ConfigChanged)
    } else if code == APP_CMD_LOW_MEMORY {
        Some(MainEvent::LowMemory)
    } else if code == APP_CMD_START {
        Some(MainEvent::Start)
    } else if code == APP_CMD_RESUME {
        Some(MainEvent::Resume)
    } else if code == APP_CMD_SAVE_STATE {
        Some(MainEvent::SaveState)
    } else if code == APP_CMD_PAUSE {
        Some(MainEvent::Pause)
    } else if code == APP_CMD_STOP {
        Some(MainEvent::Stop)
    } else if code == APP_CMD_DESTROY {
        Some(MainEvent::Destroy)
    } else {
        None
    }
}

/// The meaning of a command code in a flavor's table.  The game flavor adds
/// inset changes and has no internal command; the classic flavor has the
/// internal input-queue command and no inset changes.
pub open spec fn decode_spec(flavor: Flavor, code: i32) -> DecodedCommand {
    match flavor {
        Flavor::GameActivity => if code == APP_CMD_WINDOW_INSETS_CHANGED {
            DecodedCommand::Surfaced(MainEvent::InsetsChanged)
        } else {
            match common_event(code) {
                Some(e) => DecodedCommand::Surfaced(e),
                None => DecodedCommand::Unknown,
            }
        },
        Flavor::NativeActivity => if code == APP_CMD_INPUT_CHANGED {
            DecodedCommand::Internal
        } else {
            match common_event(code) {
                Some(e) => DecodedCommand::Surfaced(e),
                None => DecodedCommand::Unknown,
            }
        },
    }
}

/// The cache update a surfaced command calls for, if any.
pub open spec fn cache_steps(e: MainEvent) -> Seq<CommandStep> {
    match e {
        MainEvent::ConfigChanged => seq![CommandStep::SyncConfig],
        MainEvent::InitWindow => seq![CommandStep::CaptureWindow],
        MainEvent::TerminateWindow => seq![CommandStep::ClearWindow],
        _ => seq![],
    }
}

/// The protocol run for a decoded command: pre-exec, cache update,
/// callback, post-exec for a surfaced one; the two hooks alone for an
/// internal one; nothing for an unknown one.
pub open spec fn protocol_spec(d: DecodedCommand) -> Option<Seq<CommandStep>> {
    match d {
        DecodedCommand::Surfaced(e) => Some(
            seq![CommandStep::PreExec] + cache_steps(e) + seq![
                CommandStep::Deliver(e),
                CommandStep::PostExec,
            ],
        ),
        DecodedCommand::Internal => Some(seq![CommandStep::PreExec, CommandStep::PostExec]),
        DecodedCommand::Unknown => None,
    }
}

fn common_command(code: i32) -> (r: Option<MainEvent>)
    ensures
        r == common_event(code),
{
    match code {
        APP_CMD_INIT_WINDOW => Some(MainEvent::InitWindow),
        APP_CMD_TERM_WINDOW => Some(MainEvent::TerminateWindow),
        APP_CMD_WINDOW_RESIZED => Some(MainEvent::WindowResized),
        APP_CMD_WINDOW_REDRAW_NEEDED => Some(MainEvent::RedrawNeeded),
        APP_CMD_CONTENT_RECT_CHANGED => Some(MainEvent::ContentRectChanged),
        APP_CMD_GAINED_FOCUS => Some(MainEvent::GainedFocus),
        APP_CMD_LOST_FOCUS => Some(MainEvent::LostFocus),
        APP_CMD_CONFIG_CHANGED => Some(MainEvent::ConfigChanged),
        APP_CMD_LOW_MEMORY => Some(MainEvent::LowMemory),
        APP_CMD_START => Some(MainEvent::Start),
        APP_CMD_RESUME => Some(MainEvent::Resume),
        APP_CMD_SAVE_STATE => Some(MainEvent::SaveState),
        APP_CMD_PAUSE => Some(MainEvent::Pause),
        APP_CMD_STOP => Some(MainEvent::Stop),
        APP_CMD_DESTROY => Some(MainEvent::Destroy),
        _ => None,
    }
}

/// Looks a command code read from the glue up in the flavor's table.
pub fn decode_command(flavor: Flavor, code: i32) -> (r: DecodedCommand)
    ensures
        r == decode_spec(flavor, code),
{
    match flavor {
        Flavor::GameActivity => {
            if code == APP_CMD_WINDOW_INSETS_CHANGED {
                return DecodedCommand::Surfaced(MainEvent::InsetsChanged);
            }
        },
        Flavor::NativeActivity => {
            if code == APP_CMD_INPUT_CHANGED {
                return DecodedCommand::Internal;
            }
        },
    }
    match common_command(code) {
        Some(e) => DecodedCommand::Surfaced(e),
        None => DecodedCommand::Unknown,
    }
}

/// The steps that handle a command code, in the order they must run; a code
/// outside the flavor's table is a violation of the glue's contract.
pub fn command_steps(flavor: Flavor, code: i32) -> (r: Result<Vec<CommandStep>, GlueViolation>)
    ensures
        match protocol_spec(decode_spec(flavor, code)) {
            Some(s) => r is Ok && r->Ok_0@ == s,
            None => r == Err::<Vec<CommandStep>, GlueViolation>(GlueViolation::UnknownCommand(code)),
        },
{
    match decode_command(flavor, code) {
        DecodedCommand::Surfaced(e) => {
            let mut steps: Vec<CommandStep> = Vec::new();
            steps.push(CommandStep::PreExec);
            match e {
                MainEvent::ConfigChanged => steps.push(CommandStep::SyncConfig),
                MainEvent::InitWindow => steps.push(CommandStep::CaptureWindow),
                MainEvent::TerminateWindow => steps.push(CommandStep::ClearWindow),
                _ => {},
            }
            steps.push(CommandStep::Deliver(e));
            steps.push(CommandStep::PostExec);
            proof {
                assert(steps@ =~= seq![CommandStep::PreExec] + cache_steps(e) + seq![
                    CommandStep::Deliver(e),
                    CommandStep::PostExec,
                ]);
            }
            Ok(steps)
        },
        DecodedCommand::Internal => {
            let mut steps: Vec<CommandStep> = Vec::new();
            steps.push(CommandStep::PreExec);
            steps.push(CommandStep::PostExec);
            proof {
                assert(steps@ =~= seq![CommandStep::PreExec, CommandStep::PostExec]);
            }
            Ok(steps)
        },
        DecodedCommand::Unknown => Err(GlueViolation::UnknownCommand(code)),
    }
}

/// Every command that a flavor surfaces is handled by running the pre-exec
/// hook first and the post-exec hook last, with exactly one delivery to the
/// application, right before the post-exec hook, and with the cache update
/// that the command calls for (configuration, surface capture, surface
/// clear) done between the pre-exec hook and that delivery.
pub proof fn lemma_surfaced_command_delivered_once(flavor: Flavor, code: i32)
    requires
        decode_spec(flavor, code) is Surfaced,
    ensures
        ({
            let e = decode_spec(flavor, code)->Surfaced_0;
            let s = protocol_spec(decode_spec(flavor, code))->Some_0;
            &&& protocol_spec(decode_spec(flavor, code)) is Some
            &&& 3 <= s.len() <= 4
            &&& s[0] == CommandStep::PreExec
            &&& s[s.len() - 1] == CommandStep::PostExec
            &&& s[s.len() - 2] == CommandStep::Deliver(e)
            &&& forall|i: int| 0 <= i < s.len() ==> (s[i] is Deliver <==> i == s.len() - 2)
            &&& forall|i: int|
                0 < i < s.len() - 1 ==> s[i] != CommandStep::PreExec && s[i] != CommandStep::PostExec
            &&& (e == MainEvent::ConfigChanged ==> s[1] == CommandStep::SyncConfig)
            &&& (e == MainEvent::InitWindow ==> s[1] == CommandStep::CaptureWindow)
            &&& (e == MainEvent::TerminateWindow ==> s[1] == CommandStep::ClearWindow)
            &&& (e != MainEvent::ConfigChanged && e != MainEvent::InitWindow && e
                != MainEvent::TerminateWindow ==> s.len() == 3)
        }),
{
    let e = decode_spec(flavor, code)->Surfaced_0;
    let s = protocol_spec(decode_spec(flavor, code))->Some_0;
    assert(s =~= seq![CommandStep::PreExec] + cache_steps(e) + seq![
        CommandStep::Deliver(e),
        CommandStep::PostExec,
    ]);
    assert forall|i: int| 0 <= i < s.len() implies (s[i] is Deliver <==> i == s.len() - 2) by {
        if 0 < i < s.len() - 2 {
            assert(s[i] == cache_steps(e)[i - 1]);
        }
    }
    assert forall|i: int| 0 < i < s.len() - 1 implies s[i] != CommandStep::PreExec && s[i]
        != CommandStep::PostExec by {
        if i < s.len() - 2 {
            assert(s[i] == cache_steps(e)[i - 1]);
        }
    }
}

/// An internal command of the glue runs the pre-exec and post-exec hooks and
/// nothing else: it never reaches the application.
pub proof fn lemma_internal_command_not_delivered(flavor: Flavor, code: i32)
    requires
        decode_spec(flavor, code) is Internal,
    ensures
        protocol_spec(decode_spec(flavor, code)) == Some(
            seq![CommandStep::PreExec, CommandStep::PostExec],
        ),
        forall|i: int|
            0 <= i < 2 ==> !(protocol_spec(decode_spec(flavor, code))->Some_0[i] is Deliver),
{
}

/// Only the classic flavor has an internal command, and it is the
/// input-queue change.
pub proof fn lemma_internal_command_is_input_changed(flavor: Flavor, code: i32)
    ensures
        decode_spec(flavor, code) is Internal <==> (flavor == Flavor::NativeActivity && code
            == APP_CMD_INPUT_CHANGED),
{
}

/// Only window creation captures a surface, only window termination clears
/// it, and only a configuration change replaces the snapshot: every other
/// command leaves the cache alone, so the cache holds a surface exactly when
/// a creation was handled after the last termination.
pub proof fn lemma_cache_steps_by_command(e: MainEvent)
    ensures
        cache_steps(e).contains(CommandStep::CaptureWindow) <==> e == MainEvent::InitWindow,
        cache_steps(e).contains(CommandStep::ClearWindow) <==> e == MainEvent::TerminateWindow,
        cache_steps(e).contains(CommandStep::SyncConfig) <==> e == MainEvent::ConfigChanged,
        cache_steps(e).len() <= 1,
{
    let s = cache_steps(e);
    if s.len() == 1 {
        assert(s.contains(s[0]));
        assert forall|x: CommandStep| s.contains(x) implies x == s[0] by {
            let i = choose|i: int| 0 <= i < s.len() && s[i] == x;
            assert(i == 0);
        }
    }
}

} // verus!
