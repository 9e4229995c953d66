//! The device that the plugin offers to CoolerControl: its channels, how
//! requests are checked, what the status and health reports say, and how
//! the monitor reports failed recoveries.

use crate::fan::MAX_DRIVER_VALUE;
use crate::text::text_equals;
use vstd::prelude::*;

verus! {

/// The identifier of the one device that the plugin offers.
pub open spec fn device_id() -> Seq<char> {
    "aorus_laptop"@
}

/// The identifier of the one device that the plugin offers.
pub fn aorus_device_id() -> (id: &'static str)
    ensures
        id@ == device_id(),
{
    "aorus_laptop"
}

/// The device's name in CoolerControl.
pub fn device_name() -> (name: &'static str)
    ensures
        name@ == "AORUS Laptop"@,
{
    "AORUS Laptop"
}

/// The kernel driver that the device is reported with.
pub fn driver_name() -> (name: &'static str)
    ensures
        name@ == "aorus_laptop"@,
{
    "aorus_laptop"
}

/// The device's channels.
#[derive(Debug, Clone, Copy, PartialEq, Eq, Structural)]
pub enum Channel {
    /// The shared, controllable channel for both fans.
    FanControl,
    /// CPU fan feedback.
    CpuFan,
    /// GPU fan feedback.
    GpuFan,
}

/// The duty range and fixed-duty support that a channel announces.
#[derive(Debug, Clone, Copy, PartialEq, Eq, Structural)]
pub struct SpeedOptions {
    pub min_duty: u32,
    pub max_duty: u32,
    pub fixed_enabled: bool,
}

impl Channel {
    pub open spec fn spec_id(self) -> Seq<char> {
        match self {
            Channel::FanControl => "fan_control"@,
            Channel::CpuFan => "cpu_fan"@,
            Channel::GpuFan => "gpu_fan"@,
        }
    }

    pub open spec fn spec_label(self) -> Seq<char> {
        match self {
            Channel::FanControl => "Laptop Fans"@,
            Channel::CpuFan => "CPU Fan"@,
            Channel::GpuFan => "GPU Fan"@,
        }
    }

    /// Only the shared channel can be controlled, from 10 percent up; the
    /// feedback channels report 0 to 100 percent.
    pub open spec fn spec_speed_options(self) -> SpeedOptions {
        match self {
            Channel::FanControl => SpeedOptions { min_duty: 10, max_duty: 100, fixed_enabled: true },
            _ => SpeedOptions { min_duty: 0, max_duty: 100, fixed_enabled: false },
        }
    }

    /// The channel's identifier in requests and reports.
    pub fn id(&self) -> (id: &'static str)
        ensures
            id@ == self.spec_id(),
    {
        match self {
            Channel::FanControl => "fan_control",
            Channel::CpuFan => "cpu_fan",
            Channel::GpuFan => "gpu_fan",
        }
    }

    /// The channel's name in CoolerControl.
    pub fn label(&self) -> (label: &'static str)
        ensures
            label@ == self.spec_label(),
    {
        match self {
            Channel::FanControl => "Laptop Fans",
            Channel::CpuFan => "CPU Fan",
            Channel::GpuFan => "GPU Fan",
        }
    }

    /// The duty range and fixed-duty support that the channel announces.
    pub fn speed_options(&self) -> (o: SpeedOptions)
        ensures
            o == self.spec_speed_options(),
    {
        match self {
            Channel::FanControl => SpeedOptions { min_duty: 10, max_duty: 100, fixed_enabled: true },
            _ => SpeedOptions { min_duty: 0, max_duty: 100, fixed_enabled: false },
        }
    }
}

/// The channels that the device announces.
pub fn device_channels() -> (v: Vec<Channel>)
    ensures
        v@ == seq![Channel::CpuFan, Channel::GpuFan, Channel::FanControl],
{
    let mut v = Vec::new();
    v.push(Channel::CpuFan);
    v.push(Channel::GpuFan);
    v.push(Channel::FanControl);
    v
}

/// Why CoolerControl's request cannot be served.
#[derive(Debug, Clone, Copy, PartialEq, Eq, Structural)]
pub enum RequestError {
    /// The request names another device.
    DeviceNotFound,
    /// The request names a channel that cannot be controlled.
    ChannelNotControllable,
    /// The AORUS platform device was not detected.
    DeviceUnavailable,
}

/// How a status request is answered before any reading.
pub open spec fn status_request_outcome(device: Seq<char>, device_available: bool) -> Result<(), RequestError> {
    if device != device_id() {
        Err(RequestError::DeviceNotFound)
    } else if !device_available {
        Err(RequestError::DeviceUnavailable)
    } else {
        Ok(())
    }
}

/// How a request to control a channel (reset, manual control, fixed duty)
/// is answered before anything is done.
pub open spec fn control_request_outcome(
    device: Seq<char>,
    channel: Seq<char>,
    device_available: bool,
) -> Result<(), RequestError> {
    if device != device_id() {
        Err(RequestError::DeviceNotFound)
    } else if channel != Channel::FanControl.spec_id() {
        Err(RequestError::ChannelNotControllable)
    } else if !device_available {
        Err(RequestError::DeviceUnavailable)
    } else {
        Ok(())
    }
}

/// Checks a status request.
pub fn check_status_request(device: &str, device_available: bool) -> (r: Result<(), RequestError>)
    ensures
        r == status_request_outcome(device@, device_available),
{
    if !text_equals(device, aorus_device_id()) {
        Err(RequestError::DeviceNotFound)
    } else if !device_available {
        Err(RequestError::DeviceUnavailable)
    } else {
        Ok(())
    }
}

/// Checks a request to control a channel.
pub fn check_control_request(device: &str, channel: &str, device_available: bool) -> (r: Result<
    (),
    RequestError,
>)
    ensures
        r == control_request_outcome(device@, channel@, device_available),
{
    if !text_equals(device, aorus_device_id()) {
        Err(RequestError::DeviceNotFound)
    } else if !text_equals(channel, Channel::FanControl.id()) {
        Err(RequestError::ChannelNotControllable)
    } else if !device_available {
        Err(RequestError::DeviceUnavailable)
    } else {
        Ok(())
    }
}

/// The service's health.
#[derive(Debug, Clone, Copy, PartialEq, Eq, Structural)]
pub enum HealthStatus {
    Healthy,
    Warning,
}

/// The service warns exactly when the device is present and its control
/// warning is raised.
pub fn health_status(device_available: bool, control_warning: bool) -> (h: HealthStatus)
    ensures
        h == (if device_available && control_warning {
            HealthStatus::Warning
        } else {
            HealthStatus::Healthy
        }),
{
    if device_available && control_warning {
        HealthStatus::Warning
    } else {
        HealthStatus::Healthy
    }
}

/// The driver reports PWM on a nominal 0 to 255 scale, of which 227 is the
/// top of the usable range; feedback is capped there, so that a duty of
/// `level * 100 / 227` percent never exceeds 100.
pub open spec fn pwm_level(pwm: u32) -> u32 {
    if pwm <= MAX_DRIVER_VALUE {
        pwm
    } else {
        MAX_DRIVER_VALUE as u32
    }
}

/// A fan's reading on the driver's 0 to 227 scale.
pub fn normalized_pwm(pwm: u32) -> (level: u32)
    ensures
        level == pwm_level(pwm),
{
    if pwm <= 227 {
        pwm
    } else {
        227
    }
}

/// One channel's report: its PWM level on the 0 to 227 scale, from which the
/// duty in percent is `level * 100 / 227`, and its RPM where it has one.
#[derive(Debug, Clone, Copy, PartialEq, Eq, Structural)]
pub struct FanReading {
    pub channel: Channel,
    pub level: u32,
    pub rpm: Option<u32>,
}

/// The status report for the fans' measurements: the shared channel reports
/// the lower of the two measured levels and no RPM; each fan channel reports
/// its own level and RPM.
pub open spec fn status_readings(cpu_rpm: u32, gpu_rpm: u32, cpu_pwm: u32, gpu_pwm: u32) -> Seq<
    FanReading,
> {
    let cpu = pwm_level(cpu_pwm);
    let gpu = pwm_level(gpu_pwm);
    seq![
        FanReading {
            channel: Channel::FanControl,
            level: if cpu <= gpu {
                cpu
            } else {
                gpu
            },
            rpm: None,
        },
        FanReading { channel: Channel::CpuFan, level: cpu, rpm: Some(cpu_rpm) },
        FanReading { channel: Channel::GpuFan, level: gpu, rpm: Some(gpu_rpm) },
    ]
}

/// Builds the status report from the fans' RPM and PWM readings.
pub fn fan_status(cpu_rpm: u32, gpu_rpm: u32, cpu_pwm: u32, gpu_pwm: u32) -> (v: Vec<FanReading>)
    ensures
        v@ == status_readings(cpu_rpm, gpu_rpm, cpu_pwm, gpu_pwm),
{
    let cpu = normalized_pwm(cpu_pwm);
    let gpu = normalized_pwm(gpu_pwm);
    let shared = if cpu <= gpu {
        cpu
    } else {
        gpu
    };
    let mut v = Vec::new();
    v.push(FanReading { channel: Channel::FanControl, level: shared, rpm: None });
    v.push(FanReading { channel: Channel::CpuFan, level: cpu, rpm: Some(cpu_rpm) });
    v.push(FanReading { channel: Channel::GpuFan, level: gpu, rpm: Some(gpu_rpm) });
    v
}

/// The monitor's bookkeeping after one recovery attempt: whether a failure
/// is currently logged, and whether to log this one.
pub open spec fn monitor_outcome(failure_logged: bool, succeeded: bool) -> (bool, bool) {
    if succeeded {
        (false, false)
    } else {
        (true, !failure_logged)
    }
}

/// Records the outcome of one recovery attempt; a run of failures is
/// logged once, at its first failure.
pub fn record_recovery_outcome(failure_logged: bool, succeeded: bool) -> (r: (bool, bool))
    ensures
        r == monitor_outcome(failure_logged, succeeded),
{
    if succeeded {
        (false, false)
    } else {
        (true, !failure_logged)
    }
}

} // verus!
