//! What the desktop shell shows: the device summary, one round of sensor
//! readings, and the fan-boost request in percent.
use vstd::prelude::*;
use crate::acpi::{
    answered, command_script, fan_rpm_command, sensor_result, temp_command, AcpiController,
    AcpiError, ProcessOutput,
};
use crate::model::{mode_name, model_name, LaptopModel};

verus! {

/// The detected hardware and what can be controlled on it.
#[derive(Debug)]
pub struct DeviceInfo {
    pub model: String,
    pub keyboard_supported: bool,
    pub power_supported: bool,
    pub power_modes: Vec<String>,
    pub fan_control_limited: bool,
}

/// One reading of every sensor; a sensor that could not be read shows 0.
#[derive(Debug, Clone, Copy, PartialEq, Eq, Structural)]
pub struct SensorData {
    pub fan1_rpm: u32,
    pub fan2_rpm: u32,
    pub cpu_temp: u32,
    pub gpu_temp: u32,
}

/// A fan-boost request, each fan in percent of its full speed.
#[derive(Debug, Clone, Copy, PartialEq, Eq, Structural)]
pub struct FanBoostParams {
    pub cpu_rpm: u8,
    pub gpu_rpm: u8,
}

/// Whether manual fan control is unavailable on a model.
pub open spec fn fan_limited(m: LaptopModel) -> bool {
    m == LaptopModel::G15_5515
}

/// The summary of the gateway, when there is one, and of the lighting
/// controller's presence.
pub fn device_info(acpi: Option<&AcpiController>, keyboard_supported: bool) -> (r: DeviceInfo)
    ensures
        r.keyboard_supported == keyboard_supported,
        match acpi {
            Some(a) => {
                &&& r.model@ == model_name(a.model)
                &&& r.power_supported
                &&& r.fan_control_limited == fan_limited(a.model)
                &&& r.power_modes@.len() == a.power_modes@.len()
                &&& forall|i: int|
                    0 <= i < r.power_modes@.len() ==> #[trigger] r.power_modes@[i]@ == mode_name(
                        a.power_modes@[i],
                    )
            },
            None => {
                &&& r.model@ == "Unknown"@
                &&& !r.power_supported
                &&& r.power_modes@.len() == 0
                &&& !r.fan_control_limited
            },
        },
{
    match acpi {
        Some(a) => {
            let mut modes: Vec<String> = Vec::new();
            let mut i: usize = 0;
            while i < a.power_modes.len()
                invariant
                    i <= a.power_modes@.len(),
                    modes@.len() == i,
                    forall|j: int| 0 <= j < i ==> #[trigger] modes@[j]@ == mode_name(a.power_modes@[j]),
                decreases a.power_modes@.len() - i,
            {
                modes.push(String::from_str(a.power_modes[i].name()));
                i += 1;
            }
            DeviceInfo {
                model: String::from_str(a.model.as_str()),
                keyboard_supported,
                power_supported: true,
                power_modes: modes,
                fan_control_limited: matches!(a.model, LaptopModel::G15_5515),
            }
        },
        None => DeviceInfo {
            model: String::from_str("Unknown"),
            keyboard_supported,
            power_supported: false,
            power_modes: Vec::new(),
            fan_control_limited: false,
        },
    }
}

/// A reading, or 0 when it failed.
pub open spec fn or_zero(x: Result<u32, AcpiError>) -> u32 {
    match x {
        Ok(v) => v,
        Err(_) => 0,
    }
}

impl SensorData {
    /// Gathers four independent readings; each failed one shows 0.
    pub fn from_readings(
        fan1: Result<u32, AcpiError>,
        fan2: Result<u32, AcpiError>,
        cpu: Result<u32, AcpiError>,
        gpu: Result<u32, AcpiError>,
    ) -> (r: SensorData)
        ensures
            r == (SensorData {
                fan1_rpm: or_zero(fan1),
                fan2_rpm: or_zero(fan2),
                cpu_temp: or_zero(cpu),
                gpu_temp: or_zero(gpu),
            }),
    {
        SensorData {
            fan1_rpm: match fan1 {
                Ok(v) => v,
                Err(_) => 0,
            },
            fan2_rpm: match fan2 {
                Ok(v) => v,
                Err(_) => 0,
            },
            cpu_temp: match cpu {
                Ok(v) => v,
                Err(_) => 0,
            },
            gpu_temp: match gpu {
                Ok(v) => v,
                Err(_) => 0,
            },
        }
    }
}

/// Whether some query of `c` through `exec` gave a result that reads as `v`.
pub open spec fn read_as<F: Fn(String) -> ProcessOutput>(
    exec: F,
    a: AcpiController,
    c: crate::acpi::AcpiCommand,
    v: u32,
) -> bool {
    exists|x: Result<Seq<char>, AcpiError>|
        #[trigger] answered(exec, command_script(a.platform, c, None, None), x) && v == or_zero(
            sensor_result(x),
        )
}

/// Reads both fans and both temperatures, each on its own: a failing sensor
/// shows 0 and does not keep the others from being read.
pub fn read_sensors<F: Fn(String) -> ProcessOutput>(acpi: &AcpiController, exec: &F) -> (r:
    SensorData)
    requires
        forall|s: String| call_requires(*exec, (s,)),
    ensures
        read_as(*exec, *acpi, fan_rpm_command(1), r.fan1_rpm),
        read_as(*exec, *acpi, fan_rpm_command(2), r.fan2_rpm),
        read_as(*exec, *acpi, temp_command("cpu"@), r.cpu_temp),
        read_as(*exec, *acpi, temp_command("gpu"@), r.gpu_temp),
{
    let fan1 = acpi.get_fan_rpm(1, exec);
    let fan2 = acpi.get_fan_rpm(2, exec);
    let cpu = acpi.get_temp("cpu", exec);
    let gpu = acpi.get_temp("gpu", exec);
    proof {
        reveal_strlit("cpu");
        reveal_strlit("gpu");
    }
    SensorData::from_readings(fan1, fan2, cpu, gpu)
}

/// A fan speed in percent as the firmware's boost level, 0 to 255: the
/// percent scaled by 255/100, rounded down, at most 255.
pub open spec fn boost_level(percent: u8) -> u8 {
    if percent as int * 255 / 100 > 255 {
        255
    } else {
        (percent as int * 255 / 100) as u8
    }
}

impl FanBoostParams {
    /// The boost levels of the CPU fan (fan 1) and the GPU fan (fan 2).
    pub fn levels(&self) -> (r: (u8, u8))
        ensures
            r == (boost_level(self.cpu_rpm), boost_level(self.gpu_rpm)),
    {
        (percent_to_level(self.cpu_rpm), percent_to_level(self.gpu_rpm))
    }
}

/// A fan speed in percent as a boost level.
pub fn percent_to_level(percent: u8) -> (r: u8)
    ensures
        r == boost_level(percent),
{
    let scaled: u32 = percent as u32 * 255 / 100;
    if scaled > 255 {
        255
    } else {
        scaled as u8
    }
}

} // verus!
