use dell_core::acpi::{
    build_call_script, decode_sensor, interpret_output, AcpiCommand, AcpiController, AcpiError,
    ProcessOutput,
};
use dell_core::model::{LaptopModel, Platform, PowerMode};
use std::cell::RefCell;

fn done(stdout: &str) -> ProcessOutput {
    ProcessOutput { exit_code: Some(0), stdout: stdout.to_string() }
}

fn script(path: &str, bytes: &str) -> String {
    format!("echo \"{} 0 {}\" > /proc/acpi/call; cat /proc/acpi/call", path, bytes)
}

#[test]
fn command_names() {
    assert_eq!(AcpiCommand::from_name("get_laptop_model"), Some(AcpiCommand::GetLaptopModel));
    assert_eq!(AcpiCommand::from_name("toggle_G_mode"), Some(AcpiCommand::ToggleGMode));
    assert_eq!(AcpiCommand::from_name("get_gpu_temp"), Some(AcpiCommand::GetGpuTemp));
    assert_eq!(AcpiCommand::from_name("launch"), None);
    assert_eq!(AcpiCommand::SetPowerMode.opcode(), vec![0x15, 0x01]);
    assert_eq!(AcpiCommand::GetFan2Rpm.opcode(), vec![0x14, 0x05, 0x33]);
}

#[test]
fn two_byte_opcode_without_arguments_pads_zeros() {
    let s = build_call_script(Platform::Intel, AcpiCommand::SetPowerMode, None, None);
    assert_eq!(s, script("\\_SB.AMWW.WMAX", "0x15 {0x01, 0x00, 0x00, 0x00}"));
}

#[test]
fn two_byte_opcode_with_arguments() {
    let s = build_call_script(Platform::Amd, AcpiCommand::ToggleGMode, Some(0xab), Some(0x07));
    assert_eq!(s, script("\\_SB.AMW3.WMAX", "0x25 {0x01, 0xab, 0x07, 0x00}"));
}

#[test]
fn three_byte_opcode_takes_one_argument() {
    let s = build_call_script(Platform::Intel, AcpiCommand::GetFan1Rpm, None, Some(0x09));
    assert_eq!(s, script("\\_SB.AMWW.WMAX", "0x14 {0x05, 0x32, 0x00, 0x00}"));
    let s = build_call_script(Platform::Intel, AcpiCommand::SetFan2Boost, Some(0xff), None);
    assert_eq!(s, script("\\_SB.AMWW.WMAX", "0x15 {0x02, 0x33, 0xff, 0x00}"));
}

#[test]
fn acpi_call_defaults_missing_arguments() {
    let acpi = AcpiController::with_model(LaptopModel::G15_5530, Platform::Intel);
    let seen = RefCell::new(Vec::new());
    let exec = |s: String| {
        seen.borrow_mut().push(s);
        done("0x0\n")
    };
    let r = acpi.acpi_call("set_power_mode", None, None, &exec);
    assert_eq!(r, Ok("0x0".to_string()));
    assert_eq!(seen.borrow().clone(), vec![script("\\_SB.AMWW.WMAX", "0x15 {0x01, 0x00, 0x00, 0x00}")]);
}

#[test]
fn acpi_call_unknown_command_runs_nothing() {
    let acpi = AcpiController::with_model(LaptopModel::G15_5530, Platform::Intel);
    let calls = RefCell::new(0);
    let exec = |_s: String| {
        *calls.borrow_mut() += 1;
        done("0x0")
    };
    assert_eq!(acpi.acpi_call("format_disk", None, None, &exec), Err(AcpiError::CommandNotFound));
    assert_eq!(*calls.borrow(), 0);
}

#[test]
fn reply_failures() {
    let denied = ProcessOutput { exit_code: Some(126), stdout: String::new() };
    assert_eq!(interpret_output(&denied), Err(AcpiError::AuthorizationDenied));
    let refused = ProcessOutput { exit_code: Some(127), stdout: "x".to_string() };
    assert_eq!(interpret_output(&refused), Err(AcpiError::AuthorizationDenied));
    let failed = ProcessOutput { exit_code: Some(1), stdout: "0x1".to_string() };
    assert_eq!(interpret_output(&failed), Err(AcpiError::AcpiCallFailed(Some(1))));
    let killed = ProcessOutput { exit_code: None, stdout: String::new() };
    assert_eq!(interpret_output(&killed), Err(AcpiError::AcpiCallFailed(None)));
    assert_eq!(interpret_output(&done("")), Err(AcpiError::NoResponse));
    assert_eq!(interpret_output(&done("  \n\t\n\n")), Err(AcpiError::NoResponse));
}

#[test]
fn reply_token_is_last_line_with_content() {
    let out = done("\\_SB.AMWW.WMAX 0 0x14 {0x0b, 0x00, 0x00, 0x00}\n0xa1\n\n  \n");
    assert_eq!(interpret_output(&out), Ok("0xa1".to_string()));
    assert_eq!(interpret_output(&done("first\r\nsecond\r\n")), Ok("second".to_string()));
    assert_eq!(interpret_output(&done("  0x12c0  ")), Ok("0x12c0".to_string()));
}

#[test]
fn reply_token_strips_percent_and_quotes() {
    assert_eq!(interpret_output(&done("'0x1770'%\n")), Ok("0x1770".to_string()));
    assert_eq!(interpret_output(&done("0x5%%")), Ok("0x5".to_string()));
    assert_eq!(interpret_output(&done("''0x5''")), Ok("0x5".to_string()));
}

#[test]
fn sensor_sentinel_reads_zero() {
    assert_eq!(decode_sensor("0xffffffff"), Some(0));
    assert_eq!(decode_sensor("0xFFFFFFFF"), Some(0));
}

#[test]
fn sensor_decoding() {
    assert_eq!(decode_sensor("0x1770"), Some(6000));
    assert_eq!(decode_sensor("0x1770\0\0"), Some(6000));
    assert_eq!(decode_sensor("0x0x2a"), Some(0));
    assert_eq!(decode_sensor("0x0x"), Some(0));
    assert_eq!(decode_sensor("0x3c junk"), Some(60));
    assert_eq!(decode_sensor("0x 3c"), Some(60));
    assert_eq!(decode_sensor("ff"), Some(255));
    assert_eq!(decode_sensor("0xfffffffe"), Some(0xffff_fffe));
    assert_eq!(decode_sensor("0x"), None);
    assert_eq!(decode_sensor("zz"), None);
    assert_eq!(decode_sensor(""), None);
    assert_eq!(decode_sensor("0x100000000"), None);
}

#[test]
fn fan_and_temperature_sentinel_read_zero() {
    let acpi = AcpiController::with_model(LaptopModel::G15_5530, Platform::Intel);
    let exec = |_s: String| done("0xffffffff\n");
    assert_eq!(acpi.get_fan_rpm(1, &exec), Ok(0));
    assert_eq!(acpi.get_fan_rpm(2, &exec), Ok(0));
    assert_eq!(acpi.get_temp("cpu", &exec), Ok(0));
    assert_eq!(acpi.get_temp("gpu", &exec), Ok(0));
}

#[test]
fn padded_sensor_reply_reads_6000() {
    let acpi = AcpiController::with_model(LaptopModel::G15_5530, Platform::Intel);
    let exec = |_s: String| done("'0x1770'%");
    assert_eq!(acpi.get_fan_rpm(1, &exec), Ok(6000));
    assert_eq!(acpi.get_temp("gpu", &exec), Ok(6000));
}

#[test]
fn sensor_queries_use_their_opcodes() {
    let acpi = AcpiController::with_model(LaptopModel::G15_5525, Platform::Amd);
    let seen = RefCell::new(Vec::new());
    let exec = |s: String| {
        seen.borrow_mut().push(s);
        done("0x2d")
    };
    assert_eq!(acpi.get_fan_rpm(2, &exec), Ok(45));
    assert_eq!(acpi.get_temp("cpu", &exec), Ok(45));
    assert_eq!(
        seen.borrow().clone(),
        vec![
            script("\\_SB.AMW3.WMAX", "0x14 {0x05, 0x33, 0x00, 0x00}"),
            script("\\_SB.AMW3.WMAX", "0x14 {0x04, 0x01, 0x00, 0x00}"),
        ]
    );
}

#[test]
fn invalid_sensors() {
    let acpi = AcpiController::with_model(LaptopModel::G15_5530, Platform::Intel);
    let exec = |_s: String| done("0x1");
    assert_eq!(acpi.get_fan_rpm(3, &exec), Err(AcpiError::InvalidSensor));
    assert_eq!(acpi.get_fan_rpm(0, &exec), Err(AcpiError::InvalidSensor));
    assert_eq!(acpi.get_temp("ssd", &exec), Err(AcpiError::InvalidSensor));
}

#[test]
fn malformed_sensor_reply_is_parse_error() {
    let acpi = AcpiController::with_model(LaptopModel::G15_5530, Platform::Intel);
    let exec = |_s: String| done("no sensor");
    assert_eq!(acpi.get_fan_rpm(1, &exec), Err(AcpiError::ParseError));
}

#[test]
fn sensor_failure_is_propagated() {
    let acpi = AcpiController::with_model(LaptopModel::G15_5530, Platform::Intel);
    let exec = |_s: String| ProcessOutput { exit_code: Some(126), stdout: String::new() };
    assert_eq!(acpi.get_temp("cpu", &exec), Err(AcpiError::AuthorizationDenied));
}

#[test]
fn set_power_mode_uses_table_code() {
    let acpi = AcpiController::with_model(LaptopModel::G15_5511, Platform::Intel);
    let seen = RefCell::new(Vec::new());
    let exec = |s: String| {
        seen.borrow_mut().push(s);
        done("0x0")
    };
    assert_eq!(acpi.set_power_mode("USTT_Cool", &exec), Ok(()));
    assert_eq!(acpi.set_power_mode("Manual", &exec), Ok(()));
    assert_eq!(
        seen.borrow().clone(),
        vec![
            script("\\_SB.AMWW.WMAX", "0x15 {0x01, 0xa2, 0x00, 0x00}"),
            script("\\_SB.AMWW.WMAX", "0x15 {0x01, 0x00, 0x00, 0x00}"),
        ]
    );
}

#[test]
fn set_power_mode_outside_table() {
    let acpi = AcpiController::with_model(LaptopModel::G15_5530, Platform::Intel);
    let calls = RefCell::new(0);
    let exec = |_s: String| {
        *calls.borrow_mut() += 1;
        done("0x0")
    };
    assert_eq!(acpi.set_power_mode("USTT_FullSpeed", &exec), Err(AcpiError::UnknownPowerMode));
    assert_eq!(acpi.set_power_mode("Turbo", &exec), Err(AcpiError::UnknownPowerMode));
    assert_eq!(acpi.set_power_mode("USTT_Cool", &exec), Err(AcpiError::UnknownPowerMode));
    assert_eq!(*calls.borrow(), 0);
}

#[test]
fn set_power_mode_reports_denial() {
    let acpi = AcpiController::with_model(LaptopModel::G15_5530, Platform::Intel);
    let exec = |_s: String| ProcessOutput { exit_code: Some(126), stdout: String::new() };
    assert_eq!(acpi.set_power_mode("USTT_Balanced", &exec), Err(AcpiError::AuthorizationDenied));
}

#[test]
fn fan_boost_scripts() {
    let acpi = AcpiController::with_model(LaptopModel::G15_5530, Platform::Intel);
    let seen = RefCell::new(Vec::new());
    let exec = |s: String| {
        seen.borrow_mut().push(s);
        done("0x0")
    };
    assert_eq!(acpi.set_fan_boost(1, 0xff, &exec), Ok(()));
    assert_eq!(acpi.set_fan_boost(2, 0x8a, &exec), Ok(()));
    assert_eq!(
        seen.borrow().clone(),
        vec![
            script("\\_SB.AMWW.WMAX", "0x15 {0x02, 0x32, 0xFF, 0x00}"),
            script("\\_SB.AMWW.WMAX", "0x15 {0x02, 0x33, 0x8A, 0x00}"),
        ]
    );
}

#[test]
fn fan_boost_failure() {
    let acpi = AcpiController::with_model(LaptopModel::G15_5530, Platform::Intel);
    let exec = |_s: String| ProcessOutput { exit_code: Some(2), stdout: String::new() };
    assert_eq!(acpi.set_fan_boost(1, 0x10, &exec), Err(AcpiError::AcpiCallFailed(Some(2))));
}

#[test]
fn get_power_mode_returns_token() {
    let acpi = AcpiController::with_model(LaptopModel::G15_5530, Platform::Intel);
    let exec = |_s: String| done("0xab\n");
    assert_eq!(acpi.get_power_mode(&exec), Ok("0xab".to_string()));
}

#[test]
fn detection_by_dmi_runs_nothing() {
    let calls = RefCell::new(0);
    let exec = |_s: String| {
        *calls.borrow_mut() += 1;
        done("0x0")
    };
    let acpi = AcpiController::new(Some("Dell G15 5525"), &exec);
    assert_eq!((acpi.model, acpi.platform), (LaptopModel::G15_5525, Platform::Amd));
    assert_eq!(*calls.borrow(), 0);
    let acpi = AcpiController::new(Some("Dell G15 5511"), &exec);
    assert_eq!((acpi.model, acpi.platform), (LaptopModel::G15_5511, Platform::Intel));
    assert!(acpi.power_modes.contains(&PowerMode::Cool));
}

#[test]
fn detection_unrecognized_defaults_to_unknown_intel() {
    let exec = |_s: String| ProcessOutput { exit_code: Some(1), stdout: String::new() };
    let acpi = AcpiController::new(Some("Inspiron 15 3000"), &exec);
    assert_eq!((acpi.model, acpi.platform), (LaptopModel::Unknown, Platform::Intel));
    assert_eq!(acpi.power_modes.len(), 7);
    let acpi = AcpiController::new(None, &exec);
    assert_eq!((acpi.model, acpi.platform), (LaptopModel::Unknown, Platform::Intel));
}

#[test]
fn detection_by_intel_probe() {
    let seen = RefCell::new(Vec::new());
    let exec = |s: String| {
        seen.borrow_mut().push(s);
        done("0x12c0\n")
    };
    let acpi = AcpiController::new(None, &exec);
    assert_eq!((acpi.model, acpi.platform), (LaptopModel::G15_5520, Platform::Intel));
    assert_eq!(seen.borrow().clone(), vec![script("\\_SB.AMWW.WMAX", "0x1a {0x02, 0x02, 0x00, 0x00}")]);
    assert!(!acpi.power_modes.contains(&PowerMode::FullSpeed));
}

#[test]
fn detection_by_amd_probe() {
    let exec = |s: String| {
        if s.contains("AMW3") {
            done("0xc80")
        } else {
            done("0x99")
        }
    };
    let acpi = AcpiController::new(Some("Unknown product"), &exec);
    assert_eq!((acpi.model, acpi.platform), (LaptopModel::G15_5515, Platform::Amd));
    assert!(acpi.power_modes.is_empty());
}

#[test]
fn fan_boost_succeeds_on_status_zero_without_output() {
    let acpi = AcpiController::with_model(LaptopModel::G15_5530, Platform::Intel);
    let exec = |_s: String| done("");
    assert_eq!(acpi.set_fan_boost(1, 0x40, &exec), Ok(()));
    let denied = |_s: String| ProcessOutput { exit_code: Some(127), stdout: String::new() };
    assert_eq!(acpi.set_fan_boost(2, 0x40, &denied), Err(AcpiError::AuthorizationDenied));
}

#[test]
fn fan_boost_unknown_fan_runs_nothing() {
    let acpi = AcpiController::with_model(LaptopModel::G15_5530, Platform::Intel);
    let calls = RefCell::new(0);
    let exec = |_s: String| {
        *calls.borrow_mut() += 1;
        done("")
    };
    assert_eq!(acpi.set_fan_boost(3, 0x40, &exec), Err(AcpiError::InvalidSensor));
    assert_eq!(acpi.set_fan_boost(0, 0x40, &exec), Err(AcpiError::InvalidSensor));
    assert_eq!(*calls.borrow(), 0);
}
