use android_activity::command::{
    command_steps, decode_command, CommandStep, DecodedCommand, APP_CMD_CONFIG_CHANGED,
    APP_CMD_DESTROY, APP_CMD_INIT_WINDOW, APP_CMD_INPUT_CHANGED, APP_CMD_RESUME,
    APP_CMD_SAVE_STATE, APP_CMD_TERM_WINDOW, APP_CMD_WINDOW_INSETS_CHANGED,
};
use android_activity::event::{FdEvent, Flavor, MainEvent, PollEvent};
use android_activity::poll::{
    classify_poll, decode_fd_events, wait_millis, GlueViolation, IgnoredPoll, PollAction,
    ALOOPER_POLL_CALLBACK, ALOOPER_POLL_ERROR, ALOOPER_POLL_TIMEOUT, ALOOPER_POLL_WAKE,
    LOOPER_ID_INPUT, LOOPER_ID_MAIN,
};

fn flags(readable: bool, writable: bool, error: bool, hangup: bool) -> FdEvent {
    FdEvent { readable, writable, error, hangup, invalid: false }
}

#[test]
fn wait_forever_without_timeout() {
    assert_eq!(wait_millis(None), -1);
}

#[test]
fn wait_in_milliseconds() {
    assert_eq!(wait_millis(Some(0)), 0);
    assert_eq!(wait_millis(Some(1500)), 1500);
    assert_eq!(wait_millis(Some(2_147_483_647)), i32::MAX);
}

#[test]
fn wait_saturates_for_huge_timeouts() {
    assert_eq!(wait_millis(Some(2_147_483_648)), i32::MAX);
    assert_eq!(wait_millis(Some(u128::MAX)), i32::MAX);
}

#[test]
fn sentinels_are_classified() {
    for flavor in [Flavor::GameActivity, Flavor::NativeActivity] {
        assert_eq!(classify_poll(flavor, ALOOPER_POLL_WAKE, 0, 0, false), PollAction::Emit(PollEvent::Wake));
        assert_eq!(classify_poll(flavor, ALOOPER_POLL_TIMEOUT, 0, 0, false), PollAction::Emit(PollEvent::Timeout));
        assert_eq!(classify_poll(flavor, ALOOPER_POLL_ERROR, 0, 0, false), PollAction::Emit(PollEvent::Error));
        assert_eq!(
            classify_poll(flavor, ALOOPER_POLL_CALLBACK, 0, 0, false),
            PollAction::Ignore(IgnoredPoll::SpuriousCallback)
        );
    }
}

#[test]
fn unknown_negative_result_is_ignored() {
    assert_eq!(
        classify_poll(Flavor::GameActivity, -5, 0, 0, true),
        PollAction::Ignore(IgnoredPoll::UnknownResult(-5))
    );
    assert_eq!(
        classify_poll(Flavor::NativeActivity, i32::MIN, 0, 0, false),
        PollAction::Ignore(IgnoredPoll::UnknownResult(i32::MIN))
    );
}

#[test]
fn main_channel_reads_a_command() {
    assert_eq!(classify_poll(Flavor::GameActivity, LOOPER_ID_MAIN, 7, 1, true), PollAction::ReadCommand);
    assert_eq!(classify_poll(Flavor::NativeActivity, LOOPER_ID_MAIN, 7, 1, true), PollAction::ReadCommand);
}

#[test]
fn main_channel_without_source_aborts() {
    assert_eq!(
        classify_poll(Flavor::NativeActivity, LOOPER_ID_MAIN, 7, 1, false),
        PollAction::Abort(GlueViolation::MissingPollSource)
    );
}

#[test]
fn input_channel_is_suppressed_in_classic_flavor() {
    assert_eq!(
        classify_poll(Flavor::NativeActivity, LOOPER_ID_INPUT, 9, 1, true),
        PollAction::Ignore(IgnoredPoll::InputAvailable)
    );
    assert_eq!(
        classify_poll(Flavor::GameActivity, LOOPER_ID_INPUT, 9, 1, true),
        PollAction::Emit(PollEvent::FdEvent { ident: LOOPER_ID_INPUT, fd: 9, events: flags(true, false, false, false) })
    );
}

#[test]
fn custom_source_flags_are_decoded() {
    let cases = [
        (1, flags(true, false, false, false)),
        (2, flags(false, true, false, false)),
        (4, flags(false, false, true, false)),
        (8, flags(false, false, false, true)),
        (3, flags(true, true, false, false)),
        (12, flags(false, false, true, true)),
        (15, flags(true, true, true, true)),
        (0, flags(false, false, false, false)),
    ];
    for (bits, expected) in cases {
        assert_eq!(
            classify_poll(Flavor::NativeActivity, 5, 42, bits, false),
            PollAction::Emit(PollEvent::FdEvent { ident: 5, fd: 42, events: expected })
        );
    }
    assert_eq!(
        decode_fd_events(16),
        Some(FdEvent { readable: false, writable: false, error: false, hangup: false, invalid: true })
    );
}

#[test]
fn bad_event_flags_abort() {
    assert_eq!(
        classify_poll(Flavor::GameActivity, 3, 42, 32, true),
        PollAction::Abort(GlueViolation::BadEventFlags(32))
    );
    assert_eq!(
        classify_poll(Flavor::GameActivity, 3, 42, -1, true),
        PollAction::Abort(GlueViolation::BadEventFlags(u32::MAX))
    );
    assert_eq!(decode_fd_events(33), None);
}

#[test]
fn command_tables_differ_by_flavor() {
    assert_eq!(decode_command(Flavor::GameActivity, APP_CMD_INIT_WINDOW), DecodedCommand::Surfaced(MainEvent::InitWindow));
    assert_eq!(decode_command(Flavor::NativeActivity, APP_CMD_DESTROY), DecodedCommand::Surfaced(MainEvent::Destroy));
    assert_eq!(decode_command(Flavor::GameActivity, APP_CMD_RESUME), DecodedCommand::Surfaced(MainEvent::Resume));
    assert_eq!(decode_command(Flavor::NativeActivity, APP_CMD_SAVE_STATE), DecodedCommand::Surfaced(MainEvent::SaveState));
    assert_eq!(
        decode_command(Flavor::GameActivity, APP_CMD_WINDOW_INSETS_CHANGED),
        DecodedCommand::Surfaced(MainEvent::InsetsChanged)
    );
    assert_eq!(decode_command(Flavor::NativeActivity, APP_CMD_WINDOW_INSETS_CHANGED), DecodedCommand::Unknown);
    assert_eq!(decode_command(Flavor::NativeActivity, APP_CMD_INPUT_CHANGED), DecodedCommand::Internal);
    assert_eq!(decode_command(Flavor::GameActivity, APP_CMD_INPUT_CHANGED), DecodedCommand::Unknown);
    assert_eq!(decode_command(Flavor::GameActivity, 17), DecodedCommand::Unknown);
    assert_eq!(decode_command(Flavor::GameActivity, -1), DecodedCommand::Unknown);
}

#[test]
fn every_known_code_is_delivered_once_between_hooks() {
    for flavor in [Flavor::GameActivity, Flavor::NativeActivity] {
        for code in 1..=16 {
            if let DecodedCommand::Surfaced(e) = decode_command(flavor, code) {
                let steps = command_steps(flavor, code).ok().unwrap();
                assert_eq!(steps[0], CommandStep::PreExec);
                assert_eq!(steps[steps.len() - 1], CommandStep::PostExec);
                let delivered: Vec<usize> = (0..steps.len())
                    .filter(|i| matches!(steps[*i], CommandStep::Deliver(_)))
                    .collect();
                assert_eq!(delivered, vec![steps.len() - 2]);
                assert_eq!(steps[steps.len() - 2], CommandStep::Deliver(e));
            }
        }
    }
}

#[test]
fn cache_updates_precede_delivery() {
    assert_eq!(
        command_steps(Flavor::GameActivity, APP_CMD_CONFIG_CHANGED).ok().unwrap(),
        vec![
            CommandStep::PreExec,
            CommandStep::SyncConfig,
            CommandStep::Deliver(MainEvent::ConfigChanged),
            CommandStep::PostExec
        ]
    );
    assert_eq!(
        command_steps(Flavor::NativeActivity, APP_CMD_INIT_WINDOW).ok().unwrap(),
        vec![
            CommandStep::PreExec,
            CommandStep::CaptureWindow,
            CommandStep::Deliver(MainEvent::InitWindow),
            CommandStep::PostExec
        ]
    );
    assert_eq!(
        command_steps(Flavor::GameActivity, APP_CMD_TERM_WINDOW).ok().unwrap(),
        vec![
            CommandStep::PreExec,
            CommandStep::ClearWindow,
            CommandStep::Deliver(MainEvent::TerminateWindow),
            CommandStep::PostExec
        ]
    );
    assert_eq!(
        command_steps(Flavor::GameActivity, APP_CMD_RESUME).ok().unwrap(),
        vec![CommandStep::PreExec, CommandStep::Deliver(MainEvent::Resume), CommandStep::PostExec]
    );
}

#[test]
fn internal_command_runs_hooks_only() {
    assert_eq!(
        command_steps(Flavor::NativeActivity, APP_CMD_INPUT_CHANGED).ok().unwrap(),
        vec![CommandStep::PreExec, CommandStep::PostExec]
    );
}

#[test]
fn unknown_command_has_no_protocol() {
    assert_eq!(command_steps(Flavor::NativeActivity, 16).err(), Some(GlueViolation::UnknownCommand(16)));
    assert_eq!(command_steps(Flavor::GameActivity, 0).err(), Some(GlueViolation::UnknownCommand(0)));
    assert_eq!(command_steps(Flavor::GameActivity, 99).err(), Some(GlueViolation::UnknownCommand(99)));
}
