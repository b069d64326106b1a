use dell_core::acpi::{AcpiController, AcpiError, ProcessOutput};
use dell_core::model::{LaptopModel, Platform};
use dell_core::status::{device_info, percent_to_level, read_sensors, FanBoostParams, SensorData};

#[test]
fn device_info_without_gateway() {
    let info = device_info(None, true);
    assert_eq!(info.model, "Unknown");
    assert!(info.keyboard_supported);
    assert!(!info.power_supported);
    assert!(info.power_modes.is_empty());
    assert!(!info.fan_control_limited);
}

#[test]
fn device_info_with_gateway() {
    let acpi = AcpiController::with_model(LaptopModel::G15_5515, Platform::Amd);
    let info = device_info(Some(&acpi), false);
    assert_eq!(info.model, "G15 5515");
    assert!(info.power_supported);
    assert!(info.fan_control_limited);
    assert!(info.power_modes.is_empty());
    let acpi = AcpiController::with_model(LaptopModel::G15_5530, Platform::Intel);
    let info = device_info(Some(&acpi), true);
    assert!(!info.fan_control_limited);
    assert_eq!(info.power_modes.len(), 6);
    assert!(!info.power_modes.contains(&"USTT_FullSpeed".to_string()));
}

#[test]
fn failed_readings_show_zero() {
    let d = SensorData::from_readings(Ok(3000), Err(AcpiError::ParseError), Ok(55), Err(AcpiError::NoResponse));
    assert_eq!(d, SensorData { fan1_rpm: 3000, fan2_rpm: 0, cpu_temp: 55, gpu_temp: 0 });
}

#[test]
fn one_failing_sensor_does_not_block_others() {
    let acpi = AcpiController::with_model(LaptopModel::G15_5530, Platform::Intel);
    let exec = |s: String| {
        if s.contains("0x05, 0x32") {
            ProcessOutput { exit_code: Some(1), stdout: String::new() }
        } else if s.contains("0x05, 0x33") {
            ProcessOutput { exit_code: Some(0), stdout: "0x1770".to_string() }
        } else if s.contains("0x04, 0x01") {
            ProcessOutput { exit_code: Some(0), stdout: "0x3c".to_string() }
        } else {
            ProcessOutput { exit_code: Some(0), stdout: "0xffffffff".to_string() }
        }
    };
    let d = read_sensors(&acpi, &exec);
    assert_eq!(d, SensorData { fan1_rpm: 0, fan2_rpm: 6000, cpu_temp: 60, gpu_temp: 0 });
}

#[test]
fn percent_to_boost_level() {
    assert_eq!(percent_to_level(0), 0);
    assert_eq!(percent_to_level(20), 51);
    assert_eq!(percent_to_level(33), 84);
    assert_eq!(percent_to_level(50), 127);
    assert_eq!(percent_to_level(100), 255);
    assert_eq!(percent_to_level(101), 255);
    assert_eq!(percent_to_level(255), 255);
    assert_eq!(FanBoostParams { cpu_rpm: 40, gpu_rpm: 80 }.levels(), (102, 204));
}
