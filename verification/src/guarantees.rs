//! Properties of the library that hold across operations and inputs.

use crate::control::{
    write_guard, Action, Command, ControlError, Event, FanControl, FanModeReadError, Plan,
    Stage, Step, WriteError,
};
use crate::sysfs::{all_digits, decimal_value, is_digit, parsed_i32, parsed_u32};
use crate::text::{trim_end, trim_start, trimmed};
use crate::service::{
    control_request_outcome, monitor_outcome, status_readings, status_request_outcome, Channel,
    FanReading, RequestError,
};
use crate::fan::{
    driver_value, fan_mode_code, is_driver_value_of, valid_duty, FanMode, MAX_DUTY_PERCENT,
    MIN_DUTY_PERCENT,
};
use vstd::prelude::*;

verus! {

/// What the state must be while an operation waits at `stage`.
pub open spec fn consistent(s: FanControl, stage: Stage) -> bool {
    match stage {
        Stage::AwaitNormalMode(p) | Stage::AwaitModeSwitch(p) | Stage::AwaitFixedMode(p) => {
            &&& !s.ready
            &&& match p {
                Plan::Hold => s.requested_duty is None,
                Plan::ApplyDuty(d) => s.requested_duty == Some(d),
            }
        },
        Stage::AwaitFanSpeed => s.ready && s.requested_duty is Some,
        Stage::AwaitReset | Stage::AwaitHandover => !s.ready && s.requested_duty is None,
        Stage::AwaitFanModeRead(d) => s.requested_duty == Some(d),
    }
}

/// Where a step leaves the state: a stage that the state fits, or the end.
pub open spec fn lands_consistently(r: (FanControl, Step)) -> bool {
    r.1 matches Step::Perform(_, stage) ==> consistent(r.0, stage)
}

/// Every operation starts in a stage that its state fits.
pub proof fn lemma_operations_start_consistently(s: FanControl, duty: i32, shutting_down: bool)
    requires
        s.wf(),
    ensures
        lands_consistently(s.after_enable(shutting_down)),
        lands_consistently(s.after_reset()),
        lands_consistently(s.after_set_duty(duty, shutting_down)),
        lands_consistently(s.after_recover(shutting_down)),
        lands_consistently(s.after_restore()),
{
}

/// A waiting operation moves on to a stage that its state fits.
pub proof fn lemma_resume_stays_consistent(
    s: FanControl,
    stage: Stage,
    event: Event,
    shutting_down: bool,
)
    requires
        s.wf(),
        stage.wf(),
        stage.spec_accepts(event),
        consistent(s, stage),
    ensures
        lands_consistently(s.after_event(stage, event, shutting_down)),
{
}

/// An operation that fails after reaching the hardware never leaves the
/// controller believing that manual mode is established, so the next attempt
/// starts from normal mode again.
pub proof fn lemma_failure_drops_manual_mode(
    s: FanControl,
    stage: Stage,
    event: Event,
    shutting_down: bool,
)
    requires
        s.wf(),
        stage.wf(),
        stage.spec_accepts(event),
        consistent(s, stage),
        s.after_event(stage, event, shutting_down).1 matches Step::Finish(Err(_)),
    ensures
        !s.after_event(stage, event, shutting_down).0.ready,
{
}

/// Once an operation has reached the hardware, the warning it leaves behind
/// says exactly whether it failed. (The shutdown hand-over leaves the
/// warning alone.)
pub proof fn lemma_warning_reports_outcome(
    s: FanControl,
    stage: Stage,
    event: Event,
    shutting_down: bool,
    result: Result<(), ControlError>,
)
    requires
        s.wf(),
        stage.wf(),
        stage.spec_accepts(event),
        stage != Stage::AwaitHandover,
        s.after_event(stage, event, shutting_down).1 == Step::Finish(result),
    ensures
        s.after_event(stage, event, shutting_down).0.control_warning == result is Err,
{
}

/// A requested duty that ends well leaves manual mode established, the duty
/// remembered and no warning.
pub proof fn lemma_success_keeps_control(
    s: FanControl,
    stage: Stage,
    event: Event,
    shutting_down: bool,
)
    requires
        s.wf(),
        stage.wf(),
        stage.spec_accepts(event),
        consistent(s, stage),
        stage != Stage::AwaitReset,
        stage != Stage::AwaitHandover,
        s.after_event(stage, event, shutting_down).1 == Step::Finish(Ok(())),
    ensures
        ({
            let t = s.after_event(stage, event, shutting_down).0;
            &&& t.ready
            &&& !t.control_warning
            &&& t.requested_duty == s.requested_duty
        }),
{
}

/// Unmanaged never causes the monitor to replay an earlier manual duty:
/// once a reset has run, whatever its write returned, the monitor's next
/// check ends at once without any outside work.
pub proof fn lemma_reset_forgets_duty(
    s: FanControl,
    written: Result<(), WriteError>,
    shutting_down: bool,
    later_shutting_down: bool,
)
    requires
        s.wf(),
    ensures
        ({
            let (s1, step1) = s.after_reset();
            let (s2, step2) = s1.after_event(Stage::AwaitReset, Event::Written(written), shutting_down);
            &&& step1 == Step::Perform(
                Action::Write(Command::SetFanMode(FanMode::Normal)),
                Stage::AwaitReset,
            )
            &&& step2 == Step::Finish(
                match written {
                    Ok(()) => Ok(()),
                    Err(e) => Err(ControlError::Write(e)),
                },
            )
            &&& s2.requested_duty is None
            &&& !s2.ready
            &&& s2.control_warning == written is Err
            &&& s2.after_recover(later_shutting_down) == (s2, Step::Finish(Ok(())))
        }),
{
}

/// The same holds after the shutdown hand-over.
pub proof fn lemma_shutdown_forgets_duty(
    s: FanControl,
    written: Result<(), WriteError>,
    shutting_down: bool,
    later_shutting_down: bool,
)
    requires
        s.wf(),
    ensures
        ({
            let (s1, step1) = s.after_restore();
            let (s2, step2) = s1.after_event(Stage::AwaitHandover, Event::Written(written), shutting_down);
            &&& step1 == Step::Perform(
                Action::Write(Command::SetFanMode(FanMode::Normal)),
                Stage::AwaitHandover,
            )
            &&& step2 == Step::Finish(
                match written {
                    Ok(()) => Ok(()),
                    Err(e) => Err(ControlError::Write(e)),
                },
            )
            &&& s2.requested_duty is None
            &&& !s2.ready
            &&& s2.control_warning == s.control_warning
            &&& s2.after_recover(later_shutting_down) == (s2, Step::Finish(Ok(())))
        }),
{
}

/// Once shutdown has begun, the controller takes no new control: the
/// monitor does nothing, requests for manual control and for a duty are
/// refused without touching the state, and the only write that may still
/// reach gigabyted is the one that hands the fans to firmware.
pub proof fn lemma_shutdown_stops_control(s: FanControl, duty: i32, command: Command)
    requires
        s.wf(),
    ensures
        s.after_recover(true) == (s, Step::Finish(Ok(()))),
        s.after_enable(true) == (s, Step::Finish(Err(ControlError::ShuttingDown))),
        s.after_set_duty(duty, true).0 == s,
        s.after_set_duty(duty, true).1 matches Step::Finish(Err(_)),
        write_guard(command, true) is Ok ==> command == Command::SetFanMode(
            FanMode::Normal,
        ),
{
}

/// A request for manual control always re-establishes hardware mode from
/// normal mode, even when the controller believes manual mode is in force;
/// this restores control after suspend and resume.
pub proof fn lemma_enable_reestablishes(s: FanControl)
    requires
        s.wf(),
    ensures
        s.after_enable(false) == (
            FanControl { requested_duty: None, ready: false, ..s },
            Step::Perform(
                Action::Write(Command::SetFanMode(FanMode::Normal)),
                Stage::AwaitNormalMode(Plan::Hold),
            ),
        ),
{
}

/// Manual-mode preparation always writes normal mode, waits, then writes
/// fixed mode; only after that write succeeds is manual mode established.
pub proof fn lemma_preparation_sequence(s: FanControl, plan: Plan, shutting_down: bool)
    requires
        s.wf(),
        plan.wf(),
        !s.ready,
    ensures
        s.after_event(Stage::AwaitNormalMode(plan), Event::Written(Ok(())), shutting_down) == (
            s,
            Step::Perform(Action::WaitModeSwitch, Stage::AwaitModeSwitch(plan)),
        ),
        s.after_event(Stage::AwaitModeSwitch(plan), Event::WaitEnded { cancelled: false }, shutting_down) == (
            s,
            Step::Perform(
                Action::Write(Command::SetFanMode(FanMode::Fixed)),
                Stage::AwaitFixedMode(plan),
            ),
        ),
        s.after_event(Stage::AwaitFixedMode(plan), Event::Written(Ok(())), shutting_down).0.ready,
        s.after_event(Stage::AwaitModeSwitch(plan), Event::WaitEnded { cancelled: true }, shutting_down) == (
            FanControl { ready: false, control_warning: true, ..s },
            Step::Finish(Err(ControlError::ShutdownDuringPreparation)),
        ),
{
}

/// The monitor leaves working manual control alone: when the hardware
/// reports fixed mode and manual mode is established, it sends nothing and
/// clears the warning. When the hardware reports anything else, it raises
/// the warning and starts over from normal mode to restore the duty.
pub proof fn lemma_monitor_restores_control(s: FanControl, duty: i32, mode: i32)
    requires
        s.wf(),
        s.requested_duty == Some(duty),
    ensures
        s.after_recover(false) == (
            s,
            Step::Perform(Action::ReadFanMode, Stage::AwaitFanModeRead(duty)),
        ),
        mode == fan_mode_code(FanMode::Fixed) && s.ready ==> s.after_event(
            Stage::AwaitFanModeRead(duty),
            Event::FanModeRead(Ok(mode)),
            false,
        ) == (FanControl { control_warning: false, ..s }, Step::Finish(Ok(()))),
        !(mode == fan_mode_code(FanMode::Fixed) && s.ready) ==> s.after_event(
            Stage::AwaitFanModeRead(duty),
            Event::FanModeRead(Ok(mode)),
            false,
        ) == (
            FanControl { control_warning: true, ready: false, ..s },
            Step::Perform(
                Action::Write(Command::SetFanMode(FanMode::Normal)),
                Stage::AwaitNormalMode(Plan::ApplyDuty(duty)),
            ),
        ),
{
}

/// When `fan_mode` cannot be read, the monitor raises the warning, drops
/// manual mode and sends no write.
pub proof fn lemma_unreadable_mode_sends_nothing(
    s: FanControl,
    duty: i32,
    error: FanModeReadError,
    shutting_down: bool,
)
    requires
        s.wf(),
    ensures
        s.after_event(Stage::AwaitFanModeRead(duty), Event::FanModeRead(Err(error)), shutting_down)
            == (
            FanControl { ready: false, control_warning: true, ..s },
            Step::Finish(Err(ControlError::FanModeUnavailable(error))),
        ),
{
}

/// A duty outside 10 to 100 percent is refused before anything happens.
pub proof fn lemma_invalid_duty_refused(s: FanControl, duty: i32, shutting_down: bool)
    requires
        s.wf(),
        !valid_duty(duty as int),
    ensures
        s.after_set_duty(duty, shutting_down) == (
            s,
            Step::Finish(Err(ControlError::DutyOutOfRange)),
        ),
{
}

/// A valid duty is remembered before it is applied, and with manual mode
/// established it is written at once as its driver value.
pub proof fn lemma_duty_applied_directly(s: FanControl, duty: i32)
    requires
        s.wf(),
        valid_duty(duty as int),
        s.ready,
    ensures
        s.after_set_duty(duty, false) == (
            FanControl { requested_duty: Some(duty), ..s },
            Step::Perform(
                Action::Write(Command::SetFanSpeed(driver_value(duty as int) as i32)),
                Stage::AwaitFanSpeed,
            ),
        ),
{
}

/// The driver value of a duty is that duty's share of 227, rounded to the
/// nearest integer; it grows with the duty and never leaves 23 to 227.
pub proof fn lemma_driver_value_bounds(duty: int, other: int)
    requires
        valid_duty(duty),
        valid_duty(other),
    ensures
        is_driver_value_of(duty, driver_value(duty)),
        23 <= driver_value(duty) <= 227,
        duty <= other ==> driver_value(duty) <= driver_value(other),
        driver_value(100) == 227,
{
}

/// Whether a failure is logged after the monitor has seen these outcomes
/// of its recovery attempts, oldest first.
pub open spec fn monitor_logged_after(outcomes: Seq<bool>) -> bool
    decreases outcomes.len(),
{
    if outcomes.len() == 0 {
        false
    } else {
        monitor_outcome(monitor_logged_after(outcomes.drop_last()), outcomes.last()).0
    }
}

/// The monitor logs each outage once: an attempt is logged exactly when it
/// failed and the attempt before it, if any, succeeded.
pub proof fn lemma_monitor_logs_each_outage_once(outcomes: Seq<bool>, k: int)
    requires
        0 <= k < outcomes.len(),
    ensures
        monitor_outcome(monitor_logged_after(outcomes.take(k)), outcomes[k]).1 == (!outcomes[k]
            && (k == 0 || outcomes[k - 1])),
{
    if k > 0 {
        assert(outcomes.take(k).last() == outcomes[k - 1]);
    }
}

/// The shared channel reports the lower of the two measured fan levels, and
/// no level exceeds the top of the driver range.
pub proof fn lemma_shared_channel_reports_lower(cpu_rpm: u32, gpu_rpm: u32, cpu_pwm: u32, gpu_pwm: u32)
    ensures
        ({
            let r = status_readings(cpu_rpm, gpu_rpm, cpu_pwm, gpu_pwm);
            &&& r.len() == 3
            &&& r[0].channel == Channel::FanControl
            &&& r[0].level <= r[1].level && r[0].level <= r[2].level
            &&& (r[0].level == r[1].level || r[0].level == r[2].level)
            &&& r[0].level <= 227 && r[1].level <= 227 && r[2].level <= 227
        }),
{
}

/// The decimal digits of a number, as the kernel prints it.
pub open spec fn decimal_text(n: nat) -> Seq<char>
    decreases n,
{
    if n < 10 {
        seq![(n + 48) as char]
    } else {
        decimal_text(n / 10).push(((n % 10) + 48) as char)
    }
}

proof fn lemma_decimal_text(n: nat)
    ensures
        decimal_text(n).len() > 0,
        all_digits(decimal_text(n)),
        decimal_value(decimal_text(n)) == n,
    decreases n,
{
    if n < 10 {
        let t = decimal_text(n);
        assert(((n + 48) as char) as int == n + 48);
        assert(t.drop_last().len() == 0);
        assert(decimal_value(t) == decimal_value(t.drop_last()) * 10 + (t.last() as int - '0' as int) as nat);
    } else {
        lemma_decimal_text(n / 10);
        let t = decimal_text(n);
        assert(t.drop_last() == decimal_text(n / 10));
        assert(t.last() == ((n % 10) + 48) as char);
        assert((((n % 10) + 48) as char) as int == (n % 10) + 48);
        assert(decimal_value(t) == decimal_value(t.drop_last()) * 10 + (t.last() as int - '0' as int) as nat);
        assert forall|i: int| 0 <= i < t.len() implies is_digit(#[trigger] t[i]) by {
            if i < t.len() - 1 {
                assert(t[i] == decimal_text(n / 10)[i]);
            }
        }
    }
}

proof fn lemma_trim_line(t: Seq<char>)
    requires
        t.len() > 0,
        all_digits(t),
    ensures
        trimmed(t.push('\n')) == t,
{
    let s = t.push('\n');
    assert(is_digit(t[0]));
    assert(s[0] == t[0]);
    assert(trim_start(s) == s);
    assert(s.drop_last() == t);
    assert(is_digit(t.last()));
    assert(trim_end(t) == t);
}

/// A number that the driver prints as a line of decimal digits reads back as
/// that number, whether read as unsigned or as signed.
pub proof fn lemma_printed_value_reads_back(n: nat)
    ensures
        n <= u32::MAX ==> parsed_u32(trimmed(decimal_text(n).push('\n'))) == Some(n as u32),
        n <= i32::MAX ==> parsed_i32(trimmed(decimal_text(n).push('\n'))) == Some(n as i32),
{
    lemma_decimal_text(n);
    lemma_trim_line(decimal_text(n));
    assert(is_digit(decimal_text(n)[0]));
}

/// Where an operation stands after its outside work has been reported, one
/// event at a time, each with whether shutdown had begun by then; events
/// after the end are ignored.
pub open spec fn continue_with(r: (FanControl, Step), events: Seq<(Event, bool)>) -> (
    FanControl,
    Step,
)
    decreases events.len(),
{
    if events.len() == 0 {
        r
    } else {
        match r.1 {
            Step::Perform(_, stage) => continue_with(
                r.0.after_event(stage, events[0].0, events[0].1),
                events.drop_first(),
            ),
            Step::Finish(_) => r,
        }
    }
}

/// Outside work never changes which duty is requested.
pub proof fn lemma_events_keep_requested_duty(r: (FanControl, Step), events: Seq<(Event, bool)>)
    ensures
        continue_with(r, events).0.requested_duty == r.0.requested_duty,
    decreases events.len(),
{
    if events.len() > 0 {
        if let Step::Perform(_, stage) = r.1 {
            lemma_events_keep_requested_duty(
                r.0.after_event(stage, events[0].0, events[0].1),
                events.drop_first(),
            );
        }
    }
}

/// An earlier manual duty is never replayed after the channel is reset or
/// manual control is requested: whatever the outside work reported, the
/// monitor's next check ends at once, with no outside work and no change of
/// state. A request refused because shutdown had begun changes nothing, and
/// the later check sees the shutdown too, since shutdown is never undone.
pub proof fn lemma_no_replay_after_reset_or_enable(
    s: FanControl,
    shutting_down: bool,
    events: Seq<(Event, bool)>,
    later_shutting_down: bool,
)
    requires
        s.wf(),
        shutting_down ==> later_shutting_down,
    ensures
        ({
            let end = continue_with(s.after_reset(), events).0;
            end.after_recover(later_shutting_down) == (end, Step::Finish(Ok(())))
        }),
        ({
            let end = continue_with(s.after_enable(shutting_down), events).0;
            end.after_recover(later_shutting_down) == (end, Step::Finish(Ok(())))
        }),
{
    lemma_events_keep_requested_duty(s.after_reset(), events);
    lemma_events_keep_requested_duty(s.after_enable(shutting_down), events);
    if shutting_down {
        assert(s.after_enable(shutting_down).1 is Finish);
        if events.len() > 0 {
            assert(continue_with(s.after_enable(shutting_down), events) == s.after_enable(
                shutting_down,
            ));
        }
    }
}

/// Every failed write ends its operation at once, with that write's error
/// and no further outside work. A failed write during manual-mode preparation
/// or of a fan speed leaves manual mode not established, the warning raised
/// and the requested duty as it was; a failed reset raises the warning.
pub proof fn lemma_failed_write_ends_operation(
    s: FanControl,
    stage: Stage,
    e: WriteError,
    shutting_down: bool,
)
    requires
        s.wf(),
        stage.wf(),
        stage.spec_accepts(Event::Written(Err(e))),
    ensures
        ({
            let (t, step) = s.after_event(stage, Event::Written(Err(e)), shutting_down);
            &&& step == Step::Finish(Err(ControlError::Write(e)))
            &&& t.requested_duty == s.requested_duty
            &&& (stage matches Stage::AwaitNormalMode(_) || stage matches Stage::AwaitFixedMode(_)
                || stage == Stage::AwaitFanSpeed) ==> !t.ready && t.control_warning
            &&& stage == Stage::AwaitReset ==> t.control_warning
        }),
{
}

/// Manual mode becomes established only when the fixed-mode write that ends
/// manual-mode preparation succeeds; no other outcome establishes it.
pub proof fn lemma_manual_mode_needs_fixed_write(
    s: FanControl,
    stage: Stage,
    event: Event,
    shutting_down: bool,
)
    requires
        s.wf(),
        stage.wf(),
        stage.spec_accepts(event),
        !s.ready,
        s.after_event(stage, event, shutting_down).0.ready,
    ensures
        stage matches Stage::AwaitFixedMode(_),
        event matches Event::Written(Ok(_)),
{
}

/// A new valid duty replaces the remembered one and is the duty applied: with
/// manual mode established its driver value, the duty's share of 227 rounded
/// to the nearest integer, is written at once; otherwise preparation starts
/// from normal mode, and once normal mode, the pause and fixed mode have gone
/// through, that same value is written. Nothing else in the state changes.
pub proof fn lemma_new_duty_is_applied(s: FanControl, duty: i32)
    requires
        s.wf(),
        MIN_DUTY_PERCENT <= duty <= MAX_DUTY_PERCENT,
    ensures
        ({
            let (t, step) = s.after_set_duty(duty, false);
            &&& t.requested_duty == Some(duty)
            &&& t.ready == s.ready
            &&& t.control_warning == s.control_warning
            &&& s.ready ==> (step matches Step::Perform(
                Action::Write(Command::SetFanSpeed(v)),
                Stage::AwaitFanSpeed,
            ) && is_driver_value_of(duty as int, v as int) && 23 <= v <= 227)
            &&& !s.ready ==> step == Step::Perform(
                Action::Write(Command::SetFanMode(FanMode::Normal)),
                Stage::AwaitNormalMode(Plan::ApplyDuty(duty)),
            )
        }),
        ({
            let events = seq![
                (Event::Written(Ok(())), false),
                (Event::WaitEnded { cancelled: false }, false),
                (Event::Written(Ok(())), false),
            ];
            let (t, step) = continue_with(s.after_set_duty(duty, false), events);
            !s.ready ==> {
            &&& t.requested_duty == Some(duty)
            &&& t.ready
            &&& step matches Step::Perform(
                Action::Write(Command::SetFanSpeed(v)),
                Stage::AwaitFanSpeed,
            ) && is_driver_value_of(duty as int, v as int) && 23 <= v <= 227
            }
        }),
{
    let v = driver_value(duty as int) as i32;
    lemma_driver_value_bounds(duty as int, duty as int);
    let events = seq![
        (Event::Written(Ok(())), false),
        (Event::WaitEnded { cancelled: false }, false),
        (Event::Written(Ok(())), false),
    ];
    let r0 = s.after_set_duty(duty, false);
    if !s.ready {
        let p = Plan::ApplyDuty(duty);
        let s1 = r0.0;
        let r1 = s1.after_event(Stage::AwaitNormalMode(p), events[0].0, events[0].1);
        let r2 = r1.0.after_event(Stage::AwaitModeSwitch(p), events[1].0, events[1].1);
        let r3 = r2.0.after_event(Stage::AwaitFixedMode(p), events[2].0, events[2].1);
        assert(events.drop_first().drop_first().drop_first().len() == 0);
        assert(continue_with(r3, events.drop_first().drop_first().drop_first()) == r3);
        assert(continue_with(r2, events.drop_first().drop_first()) == r3);
        assert(continue_with(r1, events.drop_first()) == r3);
        assert(continue_with(r0, events) == r3);
    }
}

/// While the plugin runs every write may go out, and handing the fans to
/// firmware may always go out; once shutdown has begun every other write is
/// refused.
pub proof fn lemma_write_guard(command: Command, shutting_down: bool)
    ensures
        write_guard(command, false) == Ok::<(), WriteError>(()),
        write_guard(Command::SetFanMode(FanMode::Normal), shutting_down) == Ok::<(), WriteError>(()),
        command != Command::SetFanMode(FanMode::Normal) ==> write_guard(command, true) == Err::<
            (),
            WriteError,
        >(WriteError::ShuttingDown),
{
}

/// Each fan channel reports its own fan: its PWM capped at 227 and its own
/// RPM; the shared channel reports the lower of the two levels and no RPM.
pub proof fn lemma_each_fan_reports_itself(cpu_rpm: u32, gpu_rpm: u32, cpu_pwm: u32, gpu_pwm: u32)
    ensures
        ({
            let r = status_readings(cpu_rpm, gpu_rpm, cpu_pwm, gpu_pwm);
            let cpu: u32 = if cpu_pwm <= 227 { cpu_pwm } else { 227 };
            let gpu: u32 = if gpu_pwm <= 227 { gpu_pwm } else { 227 };
            &&& r.len() == 3
            &&& r[0] == FanReading {
                channel: Channel::FanControl,
                level: if cpu <= gpu { cpu } else { gpu },
                rpm: None,
            }
            &&& r[1] == FanReading { channel: Channel::CpuFan, level: cpu, rpm: Some(cpu_rpm) }
            &&& r[2] == FanReading { channel: Channel::GpuFan, level: gpu, rpm: Some(gpu_rpm) }
        }),
{
}

/// A control request is served exactly when it names the AORUS device and
/// its shared channel and the device was detected; otherwise the device is
/// checked first, then the channel, then the device's presence. A status
/// request is served exactly when it names the device and the device was
/// detected.
pub proof fn lemma_request_checks(device: Seq<char>, channel: Seq<char>, available: bool)
    ensures
        control_request_outcome(device, channel, available) is Ok <==> (device
            == "aorus_laptop"@ && channel == "fan_control"@ && available),
        device != "aorus_laptop"@ ==> control_request_outcome(device, channel, available) == Err::<
            (),
            RequestError,
        >(RequestError::DeviceNotFound),
        device == "aorus_laptop"@ && channel != "fan_control"@ ==> control_request_outcome(
            device,
            channel,
            available,
        ) == Err::<(), RequestError>(RequestError::ChannelNotControllable),
        device == "aorus_laptop"@ && channel == "fan_control"@ && !available
            ==> control_request_outcome(device, channel, available) == Err::<(), RequestError>(
            RequestError::DeviceUnavailable,
        ),
        status_request_outcome(device, available) == (if device != "aorus_laptop"@ {
            Err::<(), RequestError>(RequestError::DeviceNotFound)
        } else if !available {
            Err(RequestError::DeviceUnavailable)
        } else {
            Ok(())
        }),
{
}

/// Signs read as they should: a `+` changes nothing, a `-` negates a signed
/// value and makes an unsigned one unreadable.
pub proof fn lemma_signs(d: Seq<char>)
    requires
        d.len() > 0,
        all_digits(d),
        decimal_value(d) <= i32::MAX,
    ensures
        parsed_i32(d) == Some(decimal_value(d) as i32),
        parsed_u32(d) == Some(decimal_value(d) as u32),
        parsed_i32(seq!['+'] + d) == parsed_i32(d),
        parsed_u32(seq!['+'] + d) == parsed_u32(d),
        parsed_i32(seq!['-'] + d) == Some((-decimal_value(d)) as i32),
        parsed_u32(seq!['-'] + d) is None,
{
    assert(is_digit(d[0]));
    assert((seq!['+'] + d).drop_first() == d);
    assert((seq!['-'] + d).drop_first() == d);
    assert((seq!['-'] + d)[0] == '-');
    assert((seq!['+'] + d)[0] == '+');
}

} // verus!
