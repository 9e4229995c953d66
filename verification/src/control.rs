//! The controller behind the shared "Laptop Fans" channel.
//!
//! Every operation on the fans is a short conversation with the outside
//! world: writes to gigabyted over D-Bus, a pause while the hardware switches
//! modes, a read of the current `fan_mode`. The controller decides; the caller
//! performs what it is told and reports back. An operation starts with one of
//! the methods named after it and continues with [`FanControl::resume`] until
//! it yields [`Step::Finish`].

use crate::fan::{
    driver_value, duty_to_driver_value, fan_mode_code, valid_duty, FanMode, MAX_DUTY_PERCENT,
    MIN_DUTY_PERCENT,
};
use tokio_util::sync::CancellationToken;
use vstd::prelude::*;

verus! {

/// A write to gigabyted.
#[derive(Debug, Clone, Copy, PartialEq, Eq, Structural)]
pub enum Command {
    /// `SetFanMode` with the mode's number.
    SetFanMode(FanMode),
    /// `SetFanSpeed` with a raw driver value.
    SetFanSpeed(i32),
}

/// Outside work that the controller asks for.
#[derive(Debug, Clone, Copy, PartialEq, Eq, Structural)]
pub enum Action {
    /// Send a command to gigabyted and report how it went.
    Write(Command),
    /// Give the hardware its two seconds between leaving and re-entering
    /// manual mode, unless the plugin shuts down first.
    WaitModeSwitch,
    /// Read `fan_mode` from the platform device.
    ReadFanMode,
}

/// What happens once manual mode is established.
#[derive(Debug, Clone, Copy, PartialEq, Eq, Structural)]
pub enum Plan {
    /// Nothing more: the operation was a request for manual control.
    Hold,
    /// Write this duty, in percent.
    ApplyDuty(i32),
}

/// Where a running operation waits.
#[derive(Debug, Clone, Copy, PartialEq, Eq, Structural)]
pub enum Stage {
    /// For the write of normal mode that starts manual-mode preparation.
    AwaitNormalMode(Plan),
    /// For the pause between the two mode writes.
    AwaitModeSwitch(Plan),
    /// For the write of fixed mode that ends manual-mode preparation.
    AwaitFixedMode(Plan),
    /// For the write of a fan speed.
    AwaitFanSpeed,
    /// For the write of normal mode that hands the fans back after a reset.
    AwaitReset,
    /// For the current `fan_mode`, while a duty is requested.
    AwaitFanModeRead(i32),
    /// For the write of normal mode at shutdown.
    AwaitHandover,
}

/// Why a write to gigabyted failed.
#[derive(Debug, Clone, Copy, PartialEq, Eq, Structural)]
pub enum WriteError {
    /// The system bus, the proxy or the call failed.
    Unreachable,
    /// The call did not complete in time.
    TimedOut,
    /// gigabyted answered with a non-zero status.
    Rejected(i32),
    /// The write was refused because the plugin is shutting down.
    ShuttingDown,
}

/// Why `fan_mode` could not be read.
#[derive(Debug, Clone, Copy, PartialEq, Eq, Structural)]
pub enum FanModeReadError {
    /// The attribute could not be read.
    Unreadable,
    /// The attribute did not hold a number.
    Invalid,
}

/// Why an operation failed.
#[derive(Debug, Clone, Copy, PartialEq, Eq, Structural)]
pub enum ControlError {
    /// The requested duty lies outside 10 to 100 percent.
    DutyOutOfRange,
    /// The plugin is shutting down; manual fan control is disabled.
    ShuttingDown,
    /// The plugin shut down during manual-mode preparation.
    ShutdownDuringPreparation,
    /// A write to gigabyted failed.
    Write(WriteError),
    /// The current fan mode could not be read.
    FanModeUnavailable(FanModeReadError),
}

/// What the caller reports after performing an [`Action`].
#[derive(Debug, Clone, Copy, PartialEq, Eq)]
pub enum Event {
    /// The outcome of [`Action::Write`].
    Written(Result<(), WriteError>),
    /// The end of [`Action::WaitModeSwitch`]: whether shutdown cut it short.
    WaitEnded { cancelled: bool },
    /// The outcome of [`Action::ReadFanMode`].
    FanModeRead(Result<i32, FanModeReadError>),
}

/// The controller's answer: outside work and where to resume, or the end.
#[derive(Debug, Clone, Copy, PartialEq, Eq)]
pub enum Step {
    Perform(Action, Stage),
    Finish(Result<(), ControlError>),
}

/// The controller's state, kept under the device lock.
#[derive(Debug, Clone, Copy, PartialEq, Eq, Structural)]
pub struct FanControl {
    /// Manual (fixed) mode is established and a duty can be written directly.
    pub ready: bool,
    /// The latest valid duty that CoolerControl requested and that the
    /// monitor restores; `None` while the channel is unmanaged.
    pub requested_duty: Option<i32>,
    /// The last control attempt failed or requested control is inactive.
    pub control_warning: bool,
}

impl Plan {
    pub open spec fn wf(self) -> bool {
        match self {
            Plan::Hold => true,
            Plan::ApplyDuty(d) => valid_duty(d as int),
        }
    }
}

impl Stage {
    pub open spec fn wf(self) -> bool {
        match self {
            Stage::AwaitNormalMode(p) => p.wf(),
            Stage::AwaitModeSwitch(p) => p.wf(),
            Stage::AwaitFixedMode(p) => p.wf(),
            Stage::AwaitFanModeRead(d) => valid_duty(d as int),
            _ => true,
        }
    }

    /// The kind of event that the outside work of this stage produces.
    pub open spec fn spec_accepts(self, event: Event) -> bool {
        match self {
            Stage::AwaitModeSwitch(_) => event is WaitEnded,
            Stage::AwaitFanModeRead(_) => event is FanModeRead,
            _ => event is Written,
        }
    }

    /// Whether `event` answers the outside work of this stage.
    pub fn accepts(&self, event: &Event) -> (b: bool)
        ensures
            b == self.spec_accepts(*event),
    {
        match self {
            Stage::AwaitModeSwitch(_) => matches!(event, Event::WaitEnded { .. }),
            Stage::AwaitFanModeRead(_) => matches!(event, Event::FanModeRead(_)),
            _ => matches!(event, Event::Written(_)),
        }
    }
}

/// The outcome of a write, as an operation's result.
pub open spec fn write_result(r: Result<(), WriteError>) -> Result<(), ControlError> {
    match r {
        Ok(()) => Ok(()),
        Err(e) => Err(ControlError::Write(e)),
    }
}

impl FanControl {
    /// A requested duty is always one that the channel accepts.
    pub open spec fn wf(self) -> bool {
        self.requested_duty matches Some(d) ==> valid_duty(d as int)
    }

    /// A failed attempt at manual control: manual mode is not established
    /// and the warning is raised.
    pub open spec fn failed(self, e: ControlError) -> (FanControl, Step) {
        (FanControl { ready: false, control_warning: true, ..self }, Step::Finish(Err(e)))
    }

    /// Manual mode is established; carry out the plan.
    pub open spec fn established(self, plan: Plan) -> (FanControl, Step) {
        match plan {
            Plan::Hold => (FanControl { control_warning: false, ..self }, Step::Finish(Ok(()))),
            Plan::ApplyDuty(d) => (
                self,
                Step::Perform(
                    Action::Write(Command::SetFanSpeed(driver_value(d as int) as i32)),
                    Stage::AwaitFanSpeed,
                ),
            ),
        }
    }

    /// Manual-mode preparation: refused during shutdown, skipped while
    /// manual mode is established, else normal mode, a pause, fixed mode.
    pub open spec fn prepared(self, plan: Plan, shutting_down: bool) -> (FanControl, Step) {
        if shutting_down {
            self.failed(ControlError::ShuttingDown)
        } else if self.ready {
            self.established(plan)
        } else {
            (
                self,
                Step::Perform(
                    Action::Write(Command::SetFanMode(FanMode::Normal)),
                    Stage::AwaitNormalMode(plan),
                ),
            )
        }
    }

    /// CoolerControl asks for manual control: forget the old duty and
    /// re-establish manual mode from scratch.
    pub open spec fn after_enable(self, shutting_down: bool) -> (FanControl, Step) {
        if shutting_down {
            (self, Step::Finish(Err(ControlError::ShuttingDown)))
        } else {
            FanControl { requested_duty: None, ready: false, ..self }.prepared(Plan::Hold, false)
        }
    }

    /// The channel is reset: forget the duty, then hand the fans to firmware.
    pub open spec fn after_reset(self) -> (FanControl, Step) {
        (
            FanControl { requested_duty: None, ready: false, ..self },
            Step::Perform(Action::Write(Command::SetFanMode(FanMode::Normal)), Stage::AwaitReset),
        )
    }

    /// CoolerControl sets a fixed duty: remember it, then apply it.
    pub open spec fn after_set_duty(self, duty: i32, shutting_down: bool) -> (FanControl, Step) {
        if !valid_duty(duty as int) {
            (self, Step::Finish(Err(ControlError::DutyOutOfRange)))
        } else if shutting_down {
            (self, Step::Finish(Err(ControlError::ShuttingDown)))
        } else {
            FanControl { requested_duty: Some(duty), ..self }.prepared(Plan::ApplyDuty(duty), false)
        }
    }

    /// The monitor checks whether a requested duty is still in force.
    pub open spec fn after_recover(self, shutting_down: bool) -> (FanControl, Step) {
        if shutting_down {
            (self, Step::Finish(Ok(())))
        } else {
            match self.requested_duty {
                None => (self, Step::Finish(Ok(()))),
                Some(d) => (self, Step::Perform(Action::ReadFanMode, Stage::AwaitFanModeRead(d))),
            }
        }
    }

    /// Shutdown: forget the duty and hand the fans to firmware.
    pub open spec fn after_restore(self) -> (FanControl, Step) {
        (
            FanControl { requested_duty: None, ready: false, ..self },
            Step::Perform(
                Action::Write(Command::SetFanMode(FanMode::Normal)),
                Stage::AwaitHandover,
            ),
        )
    }

    /// How a running operation continues after its outside work.
    pub open spec fn after_event(self, stage: Stage, event: Event, shutting_down: bool) -> (
        FanControl,
        Step,
    ) {
        match (stage, event) {
            (Stage::AwaitNormalMode(p), Event::Written(Ok(()))) => (
                self,
                Step::Perform(Action::WaitModeSwitch, Stage::AwaitModeSwitch(p)),
            ),
            (Stage::AwaitNormalMode(_), Event::Written(Err(e))) => self.failed(
                ControlError::Write(e),
            ),
            (Stage::AwaitModeSwitch(p), Event::WaitEnded { cancelled }) => if cancelled {
                self.failed(ControlError::ShutdownDuringPreparation)
            } else {
                (
                    self,
                    Step::Perform(
                        Action::Write(Command::SetFanMode(FanMode::Fixed)),
                        Stage::AwaitFixedMode(p),
                    ),
                )
            },
            (Stage::AwaitFixedMode(p), Event::Written(Ok(()))) => FanControl {
                ready: true,
                ..self
            }.established(p),
            (Stage::AwaitFixedMode(_), Event::Written(Err(e))) => self.failed(
                ControlError::Write(e),
            ),
            (Stage::AwaitFanSpeed, Event::Written(Ok(()))) => (
                FanControl { control_warning: false, ..self },
                Step::Finish(Ok(())),
            ),
            (Stage::AwaitFanSpeed, Event::Written(Err(e))) => self.failed(ControlError::Write(e)),
            (Stage::AwaitReset, Event::Written(r)) => (
                FanControl { control_warning: r is Err, ..self },
                Step::Finish(write_result(r)),
            ),
            (Stage::AwaitFanModeRead(_), Event::FanModeRead(Err(e))) => self.failed(
                ControlError::FanModeUnavailable(e),
            ),
            (Stage::AwaitFanModeRead(d), Event::FanModeRead(Ok(mode))) => if mode
                == fan_mode_code(FanMode::Fixed) && self.ready {
                (FanControl { control_warning: false, ..self }, Step::Finish(Ok(())))
            } else {
                FanControl { control_warning: true, ready: false, ..self }.prepared(
                    Plan::ApplyDuty(d),
                    shutting_down,
                )
            },
            (Stage::AwaitHandover, Event::Written(r)) => (self, Step::Finish(write_result(r))),
            _ => (self, Step::Finish(Ok(()))),
        }
    }
}

/// A step after which the caller can go on: any stage it names is well formed.
pub open spec fn step_wf(step: Step) -> bool {
    step matches Step::Perform(_, stage) ==> stage.wf()
}

impl FanControl {
    /// The state at start-up: firmware control, no requested duty, no warning.
    pub fn new() -> (c: FanControl)
        ensures
            c == (FanControl { ready: false, requested_duty: None, control_warning: false }),
            c.wf(),
    {
        FanControl { ready: false, requested_duty: None, control_warning: false }
    }

    fn fail(&mut self, e: ControlError) -> (step: Step)
        ensures
            (*final(self), step) == old(self).failed(e),
    {
        self.ready = false;
        self.control_warning = true;
        Step::Finish(Err(e))
    }

    fn establish(&mut self, plan: Plan) -> (step: Step)
        requires
            plan.wf(),
        ensures
            (*final(self), step) == old(self).established(plan),
            step_wf(step),
    {
        match plan {
            Plan::Hold => {
                self.control_warning = false;
                Step::Finish(Ok(()))
            },
            Plan::ApplyDuty(d) => Step::Perform(
                Action::Write(Command::SetFanSpeed(duty_to_driver_value(d))),
                Stage::AwaitFanSpeed,
            ),
        }
    }

    fn prepare(&mut self, plan: Plan, shutting_down: bool) -> (step: Step)
        requires
            plan.wf(),
        ensures
            (*final(self), step) == old(self).prepared(plan, shutting_down),
            step_wf(step),
    {
        if shutting_down {
            self.fail(ControlError::ShuttingDown)
        } else if self.ready {
            self.establish(plan)
        } else {
            Step::Perform(
                Action::Write(Command::SetFanMode(FanMode::Normal)),
                Stage::AwaitNormalMode(plan),
            )
        }
    }

    /// Starts a request for manual control of the fans.
    pub fn enable_fixed_fan_mode(&mut self, shutting_down: bool) -> (step: Step)
        requires
            old(self).wf(),
        ensures
            final(self).wf(),
            step_wf(step),
            (*final(self), step) == old(self).after_enable(shutting_down),
    {
        if shutting_down {
            return Step::Finish(Err(ControlError::ShuttingDown));
        }
        self.requested_duty = None;
        self.ready = false;
        self.prepare(Plan::Hold, false)
    }

    /// Starts handing the fans back to firmware when the channel is reset.
    pub fn reset_fan_mode(&mut self) -> (step: Step)
        requires
            old(self).wf(),
        ensures
            final(self).wf(),
            step_wf(step),
            (*final(self), step) == old(self).after_reset(),
    {
        self.requested_duty = None;
        self.ready = false;
        Step::Perform(Action::Write(Command::SetFanMode(FanMode::Normal)), Stage::AwaitReset)
    }

    /// Starts applying a fixed duty, in percent.
    pub fn set_fan_duty_percent(&mut self, duty: i32, shutting_down: bool) -> (step: Step)
        requires
            old(self).wf(),
        ensures
            final(self).wf(),
            step_wf(step),
            (*final(self), step) == old(self).after_set_duty(duty, shutting_down),
    {
        if !(MIN_DUTY_PERCENT <= duty && duty <= MAX_DUTY_PERCENT) {
            return Step::Finish(Err(ControlError::DutyOutOfRange));
        }
        if shutting_down {
            return Step::Finish(Err(ControlError::ShuttingDown));
        }
        self.requested_duty = Some(duty);
        self.prepare(Plan::ApplyDuty(duty), false)
    }

    /// Starts the monitor's check that a requested duty is still in force.
    pub fn recover_requested_control(&mut self, shutting_down: bool) -> (step: Step)
        requires
            old(self).wf(),
        ensures
            final(self).wf(),
            step_wf(step),
            (*final(self), step) == old(self).after_recover(shutting_down),
    {
        if shutting_down {
            return Step::Finish(Ok(()));
        }
        match self.requested_duty {
            None => Step::Finish(Ok(())),
            Some(d) => Step::Perform(Action::ReadFanMode, Stage::AwaitFanModeRead(d)),
        }
    }

    /// Starts the hand-over of the fans to firmware at shutdown.
    pub fn restore_firmware_on_shutdown(&mut self) -> (step: Step)
        requires
            old(self).wf(),
        ensures
            final(self).wf(),
            step_wf(step),
            (*final(self), step) == old(self).after_restore(),
    {
        self.requested_duty = None;
        self.ready = false;
        Step::Perform(Action::Write(Command::SetFanMode(FanMode::Normal)), Stage::AwaitHandover)
    }

    /// Continues a running operation with the outcome of its outside work.
    pub fn resume(&mut self, stage: Stage, event: Event, shutting_down: bool) -> (step: Step)
        requires
            old(self).wf(),
            stage.wf(),
            stage.spec_accepts(event),
        ensures
            final(self).wf(),
            step_wf(step),
            (*final(self), step) == old(self).after_event(stage, event, shutting_down),
    {
        match stage {
            Stage::AwaitNormalMode(p) => match event {
                Event::Written(Ok(())) => Step::Perform(
                    Action::WaitModeSwitch,
                    Stage::AwaitModeSwitch(p),
                ),
                Event::Written(Err(e)) => self.fail(ControlError::Write(e)),
                _ => Step::Finish(Ok(())),
            },
            Stage::AwaitModeSwitch(p) => match event {
                Event::WaitEnded { cancelled } => {
                    if cancelled {
                        self.fail(ControlError::ShutdownDuringPreparation)
                    } else {
                        Step::Perform(
                            Action::Write(Command::SetFanMode(FanMode::Fixed)),
                            Stage::AwaitFixedMode(p),
                        )
                    }
                },
                _ => Step::Finish(Ok(())),
            },
            Stage::AwaitFixedMode(p) => match event {
                Event::Written(Ok(())) => {
                    self.ready = true;
                    self.establish(p)
                },
                Event::Written(Err(e)) => self.fail(ControlError::Write(e)),
                _ => Step::Finish(Ok(())),
            },
            Stage::AwaitFanSpeed => match event {
                Event::Written(Ok(())) => {
                    self.control_warning = false;
                    Step::Finish(Ok(()))
                },
                Event::Written(Err(e)) => self.fail(ControlError::Write(e)),
                _ => Step::Finish(Ok(())),
            },
            Stage::AwaitReset => match event {
                Event::Written(Ok(())) => {
                    self.control_warning = false;
                    Step::Finish(Ok(()))
                },
                Event::Written(Err(e)) => {
                    self.control_warning = true;
                    Step::Finish(Err(ControlError::Write(e)))
                },
                _ => Step::Finish(Ok(())),
            },
            Stage::AwaitFanModeRead(d) => match event {
                Event::FanModeRead(Err(e)) => self.fail(ControlError::FanModeUnavailable(e)),
                Event::FanModeRead(Ok(mode)) => {
                    if mode == FanMode::Fixed.code() && self.ready {
                        self.control_warning = false;
                        Step::Finish(Ok(()))
                    } else {
                        self.control_warning = true;
                        self.ready = false;
                        self.prepare(Plan::ApplyDuty(d), shutting_down)
                    }
                },
                _ => Step::Finish(Ok(())),
            },
            Stage::AwaitHandover => match event {
                Event::Written(Ok(())) => Step::Finish(Ok(())),
                Event::Written(Err(e)) => Step::Finish(Err(ControlError::Write(e))),
                _ => Step::Finish(Ok(())),
            },
        }
    }

    /// Forgets that manual mode is established; called at initialisation
    /// and after resume, so that the next control request re-establishes it.
    pub fn invalidate_manual_control(&mut self)
        ensures
            *final(self) == (FanControl { ready: false, ..*old(self) }),
    {
        self.ready = false;
    }

    /// Whether the last control attempt failed or requested control is inactive.
    pub fn has_control_warning(&self) -> (b: bool)
        ensures
            b == self.control_warning,
    {
        self.control_warning
    }
}

impl Command {
    /// The integer argument of the D-Bus call.
    pub open spec fn spec_argument(self) -> int {
        match self {
            Command::SetFanMode(mode) => fan_mode_code(mode),
            Command::SetFanSpeed(value) => value as int,
        }
    }

    /// The name of gigabyted's method.
    pub open spec fn spec_method(self) -> Seq<char> {
        match self {
            Command::SetFanMode(_) => "SetFanMode"@,
            Command::SetFanSpeed(_) => "SetFanSpeed"@,
        }
    }

    /// The integer argument of the D-Bus call.
    pub fn argument(&self) -> (a: i32)
        ensures
            a == self.spec_argument(),
    {
        match self {
            Command::SetFanMode(mode) => mode.code(),
            Command::SetFanSpeed(value) => *value,
        }
    }

    /// The name of gigabyted's method.
    pub fn method(&self) -> (name: &'static str)
        ensures
            name@ == self.spec_method(),
    {
        match self {
            Command::SetFanMode(_) => "SetFanMode",
            Command::SetFanSpeed(_) => "SetFanSpeed",
        }
    }

    /// Handing the fans to firmware stays permitted once shutdown begins;
    /// every other write must stop.
    pub open spec fn permitted_during_shutdown(self) -> bool {
        self == Command::SetFanMode(FanMode::Normal)
    }
}

/// gigabyted's well-known name on the system bus.
pub fn gigabyted_destination() -> (name: &'static str)
    ensures
        name@ == "com.gigabyte.daemon"@,
{
    "com.gigabyte.daemon"
}

/// The object that carries gigabyted's fan setters.
pub fn gigabyted_object_path() -> (path: &'static str)
    ensures
        path@ == "/com/gigabyte/Platform"@,
{
    "/com/gigabyte/Platform"
}

/// The interface of gigabyted's fan setters.
pub fn gigabyted_interface() -> (name: &'static str)
    ensures
        name@ == "com.gigabyte.Platform"@,
{
    "com.gigabyte.Platform"
}

/// Whether a write may go out: during shutdown only normal mode may be written.
pub open spec fn write_guard(command: Command, shutting_down: bool) -> Result<(), WriteError> {
    if shutting_down && !command.permitted_during_shutdown() {
        Err(WriteError::ShuttingDown)
    } else {
        Ok(())
    }
}

/// The guard that a write passes right before it goes out, once the bus
/// connection is up.
pub fn check_write_permitted(command: Command, shutting_down: bool) -> (r: Result<(), WriteError>)
    ensures
        r == write_guard(command, shutting_down),
{
    if shutting_down {
        match command {
            Command::SetFanMode(FanMode::Normal) => Ok(()),
            _ => Err(WriteError::ShuttingDown),
        }
    } else {
        Ok(())
    }
}

/// gigabyted answers each setter with a status; zero means success.
pub fn interpret_reply(status: i32) -> (r: Result<(), WriteError>)
    ensures
        r == (if status == 0 {
            Ok(())
        } else {
            Err(WriteError::Rejected(status))
        }),
{
    if status == 0 {
        Ok(())
    } else {
        Err(WriteError::Rejected(status))
    }
}

#[verifier::external_type_specification]
#[verifier::external_body]
pub struct ExCancellationToken(CancellationToken);

/// Calls `CancellationToken::is_cancelled`, which reports whether the token
/// (or a parent) was cancelled. Another task may cancel the token at any
/// moment, so nothing is promised of the answer.
#[verifier::external_body]
fn token_is_cancelled(token: &CancellationToken) -> bool {
    token.is_cancelled()
}

/// Manual control is refused once shutdown has begun.
pub open spec fn shutdown_refusal_outcome(cancelled: bool) -> Result<(), ControlError> {
    if cancelled {
        Err(ControlError::ShuttingDown)
    } else {
        Ok(())
    }
}

/// Turns the state of the shutdown signal into the answer to a request for
/// manual control.
pub fn shutdown_refusal(cancelled: bool) -> (r: Result<(), ControlError>)
    ensures
        r == shutdown_refusal_outcome(cancelled),
{
    if cancelled {
        Err(ControlError::ShuttingDown)
    } else {
        Ok(())
    }
}

/// Refuses manual control once the plugin's shutdown has begun.
pub fn ensure_control_active(shutdown: &CancellationToken) -> (r: Result<(), ControlError>)
    ensures
        exists|cancelled: bool| r == shutdown_refusal_outcome(cancelled),
{
    let cancelled = token_is_cancelled(shutdown);
    shutdown_refusal(cancelled)
}

} // verus!
