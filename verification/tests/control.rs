use cc_plugin_aorus::control::{
    check_write_permitted, ensure_control_active, interpret_reply, Action, Command, ControlError,
    Event, FanControl, FanModeReadError, Plan, Stage, Step, WriteError,
};
use cc_plugin_aorus::fan::FanMode;
use tokio_util::sync::CancellationToken;

fn write(command: Command) -> Action {
    Action::Write(command)
}

#[test]
fn unmanaged_monitor_never_opens_a_bus_connection() {
    let mut device = FanControl::new();
    let step = device.recover_requested_control(false);
    // No outside work is asked for, so no bus connection is ever made.
    assert_eq!(step, Step::Finish(Ok(())));
    assert!(!device.has_control_warning());
}

#[test]
fn shutdown_prevents_replaying_a_remembered_duty() {
    let mut device = FanControl::new();
    device.requested_duty = Some(90);
    let token = CancellationToken::new();
    token.cancel();
    let shutting_down = ensure_control_active(&token).is_err();
    let step = device.recover_requested_control(shutting_down);
    assert_eq!(step, Step::Finish(Ok(())));
    assert_eq!(device.requested_duty, Some(90));
}

#[test]
fn missing_mode_reports_warning_without_sending_a_write() {
    let mut device = FanControl::new();
    device.requested_duty = Some(80);
    device.ready = true;
    let step = device.recover_requested_control(false);
    assert_eq!(step, Step::Perform(Action::ReadFanMode, Stage::AwaitFanModeRead(80)));
    let step = device.resume(
        Stage::AwaitFanModeRead(80),
        Event::FanModeRead(Err(FanModeReadError::Unreadable)),
        false,
    );
    assert!(matches!(step, Step::Finish(Err(_))));
    assert!(device.has_control_warning());
    assert!(!device.ready);
}

#[test]
fn token_reports_shutdown() {
    let token = CancellationToken::new();
    assert_eq!(ensure_control_active(&token), Ok(()));
    token.cancel();
    assert_eq!(ensure_control_active(&token), Err(ControlError::ShuttingDown));
}

#[test]
fn enable_runs_full_preparation() {
    let mut device = FanControl::new();
    device.ready = true;
    device.requested_duty = Some(40);
    let step = device.enable_fixed_fan_mode(false);
    assert_eq!(
        step,
        Step::Perform(write(Command::SetFanMode(FanMode::Normal)), Stage::AwaitNormalMode(Plan::Hold))
    );
    assert_eq!(device.requested_duty, None);
    assert!(!device.ready);
    let step = device.resume(Stage::AwaitNormalMode(Plan::Hold), Event::Written(Ok(())), false);
    assert_eq!(step, Step::Perform(Action::WaitModeSwitch, Stage::AwaitModeSwitch(Plan::Hold)));
    let step = device.resume(Stage::AwaitModeSwitch(Plan::Hold), Event::WaitEnded { cancelled: false }, false);
    assert_eq!(
        step,
        Step::Perform(write(Command::SetFanMode(FanMode::Fixed)), Stage::AwaitFixedMode(Plan::Hold))
    );
    let step = device.resume(Stage::AwaitFixedMode(Plan::Hold), Event::Written(Ok(())), false);
    assert_eq!(step, Step::Finish(Ok(())));
    assert!(device.ready);
    assert!(!device.has_control_warning());
}

#[test]
fn enable_refused_during_shutdown() {
    let mut device = FanControl::new();
    device.ready = true;
    let before = device;
    assert_eq!(device.enable_fixed_fan_mode(true), Step::Finish(Err(ControlError::ShuttingDown)));
    assert_eq!(device, before);
}

#[test]
fn enable_failure_raises_warning() {
    let mut device = FanControl::new();
    device.enable_fixed_fan_mode(false);
    let step = device.resume(
        Stage::AwaitNormalMode(Plan::Hold),
        Event::Written(Err(WriteError::Rejected(3))),
        false,
    );
    assert_eq!(step, Step::Finish(Err(ControlError::Write(WriteError::Rejected(3)))));
    assert!(device.has_control_warning());
    assert!(!device.ready);
}

#[test]
fn shutdown_during_preparation_aborts() {
    let mut device = FanControl::new();
    device.set_fan_duty_percent(50, false);
    device.resume(Stage::AwaitNormalMode(Plan::ApplyDuty(50)), Event::Written(Ok(())), false);
    let step = device.resume(
        Stage::AwaitModeSwitch(Plan::ApplyDuty(50)),
        Event::WaitEnded { cancelled: true },
        true,
    );
    assert_eq!(step, Step::Finish(Err(ControlError::ShutdownDuringPreparation)));
    assert!(!device.ready);
    assert!(device.has_control_warning());
    assert_eq!(device.requested_duty, Some(50));
}

#[test]
fn set_duty_full_sequence() {
    let mut device = FanControl::new();
    let step = device.set_fan_duty_percent(50, false);
    let plan = Plan::ApplyDuty(50);
    assert_eq!(step, Step::Perform(write(Command::SetFanMode(FanMode::Normal)), Stage::AwaitNormalMode(plan)));
    assert_eq!(device.requested_duty, Some(50));
    device.resume(Stage::AwaitNormalMode(plan), Event::Written(Ok(())), false);
    device.resume(Stage::AwaitModeSwitch(plan), Event::WaitEnded { cancelled: false }, false);
    let step = device.resume(Stage::AwaitFixedMode(plan), Event::Written(Ok(())), false);
    // 50 % of 227 is 113.5, rounded up.
    assert_eq!(step, Step::Perform(write(Command::SetFanSpeed(114)), Stage::AwaitFanSpeed));
    let step = device.resume(Stage::AwaitFanSpeed, Event::Written(Ok(())), false);
    assert_eq!(step, Step::Finish(Ok(())));
    assert!(device.ready);
    assert!(!device.has_control_warning());
}

#[test]
fn set_duty_with_manual_mode_writes_at_once() {
    let mut device = FanControl::new();
    device.ready = true;
    let step = device.set_fan_duty_percent(100, false);
    assert_eq!(step, Step::Perform(write(Command::SetFanSpeed(227)), Stage::AwaitFanSpeed));
    let step = device.resume(Stage::AwaitFanSpeed, Event::Written(Err(WriteError::TimedOut)), false);
    assert_eq!(step, Step::Finish(Err(ControlError::Write(WriteError::TimedOut))));
    assert!(!device.ready);
    assert!(device.has_control_warning());
    assert_eq!(device.requested_duty, Some(100));
}

#[test]
fn set_duty_out_of_range_is_refused() {
    for duty in [9, 101, 0, -5, i32::MAX, i32::MIN] {
        let mut device = FanControl::new();
        device.ready = true;
        device.requested_duty = Some(30);
        let before = device;
        assert_eq!(
            device.set_fan_duty_percent(duty, false),
            Step::Finish(Err(ControlError::DutyOutOfRange))
        );
        assert_eq!(device, before);
    }
}

#[test]
fn set_duty_refused_during_shutdown() {
    let mut device = FanControl::new();
    assert_eq!(device.set_fan_duty_percent(60, true), Step::Finish(Err(ControlError::ShuttingDown)));
    assert_eq!(device, FanControl::new());
}

#[test]
fn reset_clears_intent_even_when_write_fails() {
    let mut device = FanControl::new();
    device.ready = true;
    device.requested_duty = Some(70);
    let step = device.reset_fan_mode();
    assert_eq!(step, Step::Perform(write(Command::SetFanMode(FanMode::Normal)), Stage::AwaitReset));
    let step = device.resume(Stage::AwaitReset, Event::Written(Err(WriteError::Unreachable)), false);
    assert_eq!(step, Step::Finish(Err(ControlError::Write(WriteError::Unreachable))));
    assert!(device.has_control_warning());
    assert_eq!(device.requested_duty, None);
    assert!(!device.ready);
    assert_eq!(device.recover_requested_control(false), Step::Finish(Ok(())));
}

#[test]
fn reset_success_clears_warning() {
    let mut device = FanControl::new();
    device.control_warning = true;
    device.reset_fan_mode();
    assert_eq!(device.resume(Stage::AwaitReset, Event::Written(Ok(())), false), Step::Finish(Ok(())));
    assert!(!device.has_control_warning());
}

#[test]
fn monitor_leaves_working_control_alone() {
    let mut device = FanControl::new();
    device.ready = true;
    device.requested_duty = Some(60);
    device.control_warning = true;
    let step = device.resume(Stage::AwaitFanModeRead(60), Event::FanModeRead(Ok(5)), false);
    assert_eq!(step, Step::Finish(Ok(())));
    assert!(!device.has_control_warning());
    assert!(device.ready);
}

#[test]
fn monitor_restores_after_hardware_reset() {
    let mut device = FanControl::new();
    device.ready = true;
    device.requested_duty = Some(60);
    let plan = Plan::ApplyDuty(60);
    let step = device.resume(Stage::AwaitFanModeRead(60), Event::FanModeRead(Ok(0)), false);
    assert_eq!(step, Step::Perform(write(Command::SetFanMode(FanMode::Normal)), Stage::AwaitNormalMode(plan)));
    assert!(device.has_control_warning());
    assert!(!device.ready);
    device.resume(Stage::AwaitNormalMode(plan), Event::Written(Ok(())), false);
    device.resume(Stage::AwaitModeSwitch(plan), Event::WaitEnded { cancelled: false }, false);
    let step = device.resume(Stage::AwaitFixedMode(plan), Event::Written(Ok(())), false);
    // 60 % of 227 is 136.2.
    assert_eq!(step, Step::Perform(write(Command::SetFanSpeed(136)), Stage::AwaitFanSpeed));
    assert_eq!(device.resume(Stage::AwaitFanSpeed, Event::Written(Ok(())), false), Step::Finish(Ok(())));
    assert!(!device.has_control_warning());
    assert!(device.ready);
    assert_eq!(device.requested_duty, Some(60));
}

#[test]
fn monitor_reestablishes_when_not_ready() {
    let mut device = FanControl::new();
    device.requested_duty = Some(20);
    let step = device.resume(Stage::AwaitFanModeRead(20), Event::FanModeRead(Ok(5)), false);
    assert_eq!(
        step,
        Step::Perform(write(Command::SetFanMode(FanMode::Normal)), Stage::AwaitNormalMode(Plan::ApplyDuty(20)))
    );
}

#[test]
fn monitor_recovery_refused_once_shutdown_begins() {
    let mut device = FanControl::new();
    device.requested_duty = Some(20);
    let step = device.resume(Stage::AwaitFanModeRead(20), Event::FanModeRead(Ok(0)), true);
    assert_eq!(step, Step::Finish(Err(ControlError::ShuttingDown)));
    assert!(device.has_control_warning());
}

#[test]
fn invalid_fan_mode_reports_warning() {
    let mut device = FanControl::new();
    device.requested_duty = Some(20);
    let step = device.resume(Stage::AwaitFanModeRead(20), Event::FanModeRead(Err(FanModeReadError::Invalid)), false);
    assert_eq!(step, Step::Finish(Err(ControlError::FanModeUnavailable(FanModeReadError::Invalid))));
    assert!(device.has_control_warning());
}

#[test]
fn restore_hands_fans_to_firmware() {
    let mut device = FanControl::new();
    device.ready = true;
    device.requested_duty = Some(90);
    device.control_warning = true;
    let step = device.restore_firmware_on_shutdown();
    assert_eq!(step, Step::Perform(write(Command::SetFanMode(FanMode::Normal)), Stage::AwaitHandover));
    assert_eq!(device.requested_duty, None);
    assert!(!device.ready);
    assert_eq!(device.resume(Stage::AwaitHandover, Event::Written(Ok(())), true), Step::Finish(Ok(())));
    assert!(device.has_control_warning());
    assert_eq!(device.recover_requested_control(true), Step::Finish(Ok(())));
}

#[test]
fn restore_reports_failed_handover() {
    let mut device = FanControl::new();
    device.restore_firmware_on_shutdown();
    assert_eq!(
        device.resume(Stage::AwaitHandover, Event::Written(Err(WriteError::Rejected(1))), true),
        Step::Finish(Err(ControlError::Write(WriteError::Rejected(1))))
    );
    assert!(!device.has_control_warning());
}

#[test]
fn invalidate_drops_manual_mode_only() {
    let mut device = FanControl::new();
    device.ready = true;
    device.requested_duty = Some(33);
    device.invalidate_manual_control();
    assert!(!device.ready);
    assert_eq!(device.requested_duty, Some(33));
}

#[test]
fn write_guard_allows_only_handover_during_shutdown() {
    assert_eq!(check_write_permitted(Command::SetFanMode(FanMode::Normal), true), Ok(()));
    assert_eq!(
        check_write_permitted(Command::SetFanMode(FanMode::Fixed), true),
        Err(WriteError::ShuttingDown)
    );
    assert_eq!(check_write_permitted(Command::SetFanSpeed(0), true), Err(WriteError::ShuttingDown));
    assert_eq!(check_write_permitted(Command::SetFanSpeed(100), false), Ok(()));
    assert_eq!(check_write_permitted(Command::SetFanMode(FanMode::Fixed), false), Ok(()));
}

#[test]
fn replies_are_interpreted() {
    assert_eq!(interpret_reply(0), Ok(()));
    assert_eq!(interpret_reply(-1), Err(WriteError::Rejected(-1)));
    assert_eq!(interpret_reply(2), Err(WriteError::Rejected(2)));
}

#[test]
fn commands_name_their_dbus_call() {
    assert_eq!(Command::SetFanMode(FanMode::Normal).method(), "SetFanMode");
    assert_eq!(Command::SetFanMode(FanMode::Normal).argument(), 0);
    assert_eq!(Command::SetFanMode(FanMode::Fixed).argument(), 5);
    assert_eq!(Command::SetFanSpeed(140).method(), "SetFanSpeed");
    assert_eq!(Command::SetFanSpeed(140).argument(), 140);
}

#[test]
fn stages_accept_their_events() {
    let written = Event::Written(Ok(()));
    let waited = Event::WaitEnded { cancelled: false };
    let read = Event::FanModeRead(Ok(5));
    assert!(Stage::AwaitReset.accepts(&written));
    assert!(!Stage::AwaitReset.accepts(&read));
    assert!(Stage::AwaitModeSwitch(Plan::Hold).accepts(&waited));
    assert!(!Stage::AwaitModeSwitch(Plan::Hold).accepts(&written));
    assert!(Stage::AwaitFanModeRead(10).accepts(&read));
    assert!(!Stage::AwaitFanModeRead(10).accepts(&waited));
}

use cc_plugin_aorus::control::{
    gigabyted_destination, gigabyted_interface, gigabyted_object_path, shutdown_refusal,
};

#[test]
fn shutdown_refuses_manual_control() {
    assert_eq!(shutdown_refusal(false), Ok(()));
    assert_eq!(shutdown_refusal(true), Err(ControlError::ShuttingDown));
}

#[test]
fn gigabyted_address() {
    assert_eq!(gigabyted_destination(), "com.gigabyte.daemon");
    assert_eq!(gigabyted_object_path(), "/com/gigabyte/Platform");
    assert_eq!(gigabyted_interface(), "com.gigabyte.Platform");
}

#[test]
fn no_replay_after_enable_whatever_the_outcome() {
    let mut device = FanControl::new();
    device.requested_duty = Some(75);
    device.ready = true;
    device.enable_fixed_fan_mode(false);
    let step = device.resume(Stage::AwaitNormalMode(Plan::Hold), Event::Written(Err(WriteError::Unreachable)), false);
    assert!(matches!(step, Step::Finish(Err(_))));
    let before = device;
    assert_eq!(device.recover_requested_control(false), Step::Finish(Ok(())));
    assert_eq!(device, before);

    let mut refused = FanControl::new();
    refused.requested_duty = Some(75);
    assert_eq!(refused.enable_fixed_fan_mode(true), Step::Finish(Err(ControlError::ShuttingDown)));
    assert_eq!(refused.recover_requested_control(true), Step::Finish(Ok(())));
}
