use dell_core::acpi::detect_from_dmi;
use dell_core::model::{match_dmi, mode_table, model_from_code, LaptopModel, Platform, PowerMode};

#[test]
fn model_names() {
    assert_eq!(LaptopModel::G15_5530.as_str(), "G15 5530");
    assert_eq!(LaptopModel::G16_7630.as_str(), "G16 7630");
    assert_eq!(LaptopModel::AlienwareM16R1.as_str(), "Alienware M16 R1");
    assert_eq!(LaptopModel::Unknown.as_str(), "Unknown");
}

#[test]
fn keyboard_support_by_model() {
    assert!(LaptopModel::G15_5530.supports_keyboard());
    assert!(LaptopModel::G15_5515.supports_keyboard());
    assert!(LaptopModel::AlienwareM16R1.supports_keyboard());
    assert!(!LaptopModel::G16_7630.supports_keyboard());
    assert!(!LaptopModel::Unknown.supports_keyboard());
}

#[test]
fn dmi_pairs_select_documented_models() {
    let cases = [
        ("Dell G15 5530", LaptopModel::G15_5530, Platform::Intel),
        ("Dell G15 5520", LaptopModel::G15_5520, Platform::Intel),
        ("Dell G15 5525", LaptopModel::G15_5525, Platform::Amd),
        ("Dell G15 5515", LaptopModel::G15_5515, Platform::Amd),
        ("Dell G15 5511", LaptopModel::G15_5511, Platform::Intel),
        ("Dell G16 7630", LaptopModel::G16_7630, Platform::Intel),
        ("Dell G16 7620", LaptopModel::G16_7620, Platform::Intel),
    ];
    for (name, model, platform) in cases {
        assert_eq!(detect_from_dmi(name), Some((model, platform)), "{}", name);
    }
}

#[test]
fn dmi_matching_ignores_case() {
    assert_eq!(detect_from_dmi("DELL G15 5530\n"), Some((LaptopModel::G15_5530, Platform::Intel)));
    assert_eq!(match_dmi("g15 5530"), Some((LaptopModel::G15_5530, Platform::Intel)));
    assert_eq!(match_dmi("G15 5530"), None);
}

#[test]
fn dmi_unrecognized_name() {
    assert_eq!(detect_from_dmi("XPS 13 9310"), None);
    assert_eq!(detect_from_dmi(""), None);
    assert_eq!(detect_from_dmi("g15"), None);
    assert_eq!(detect_from_dmi("5530"), None);
    assert_eq!(detect_from_dmi("g16 5530"), None);
}

#[test]
fn dmi_first_rule_wins() {
    assert_eq!(match_dmi("g15 5520 5530"), Some((LaptopModel::G15_5530, Platform::Intel)));
    assert_eq!(match_dmi("g16 7620 7630"), Some((LaptopModel::G16_7630, Platform::Intel)));
}

#[test]
fn acpi_paths() {
    assert_eq!(Platform::Intel.acpi_path(), "\\_SB.AMWW.WMAX");
    assert_eq!(Platform::Amd.acpi_path(), "\\_SB.AMW3.WMAX");
}

#[test]
fn power_mode_names_and_codes() {
    assert_eq!(PowerMode::from_name("USTT_Balanced"), Some(PowerMode::Balanced));
    assert_eq!(PowerMode::from_name("G Mode"), Some(PowerMode::GMode));
    assert_eq!(PowerMode::from_name("Manual"), Some(PowerMode::Manual));
    assert_eq!(PowerMode::from_name("USTT_Cool"), Some(PowerMode::Cool));
    assert_eq!(PowerMode::from_name("balanced"), None);
    assert_eq!(PowerMode::Balanced.code(), 0xa0);
    assert_eq!(PowerMode::Performance.code(), 0xa1);
    assert_eq!(PowerMode::Cool.code(), 0xa2);
    assert_eq!(PowerMode::Quiet.code(), 0xa3);
    assert_eq!(PowerMode::FullSpeed.code(), 0xa4);
    assert_eq!(PowerMode::BatterySaver.code(), 0xa5);
    assert_eq!(PowerMode::GMode.code(), 0xab);
    assert_eq!(PowerMode::Manual.code(), 0x00);
    assert_eq!(PowerMode::GMode.name(), "G Mode");
}

#[test]
fn mode_table_default_for_unpatched_models() {
    let all = vec![
        PowerMode::Balanced,
        PowerMode::Performance,
        PowerMode::Quiet,
        PowerMode::FullSpeed,
        PowerMode::BatterySaver,
        PowerMode::GMode,
        PowerMode::Manual,
    ];
    assert_eq!(mode_table(LaptopModel::Unknown), all);
    assert_eq!(mode_table(LaptopModel::G15_5525), all);
    assert_eq!(mode_table(LaptopModel::G16_7620), all);
}

#[test]
fn mode_table_without_full_speed() {
    for m in [LaptopModel::G15_5530, LaptopModel::G15_5520, LaptopModel::G16_7630] {
        assert_eq!(
            mode_table(m),
            vec![
                PowerMode::Balanced,
                PowerMode::Performance,
                PowerMode::Quiet,
                PowerMode::BatterySaver,
                PowerMode::GMode,
                PowerMode::Manual,
            ]
        );
    }
}

#[test]
fn mode_table_all_modes_removed() {
    assert_eq!(mode_table(LaptopModel::G15_5515), Vec::<PowerMode>::new());
}

#[test]
fn mode_table_cool_model() {
    let t = mode_table(LaptopModel::G15_5511);
    assert_eq!(
        t,
        vec![PowerMode::Balanced, PowerMode::Performance, PowerMode::Cool, PowerMode::Quiet, PowerMode::GMode, PowerMode::Manual]
    );
    assert!(!t.contains(&PowerMode::FullSpeed));
    assert!(!t.contains(&PowerMode::BatterySaver));
    assert_eq!(PowerMode::Cool.code(), 0xa2);
}

#[test]
fn model_codes_by_platform() {
    assert_eq!(model_from_code(Platform::Intel, "0x0"), LaptopModel::G15_5530);
    assert_eq!(model_from_code(Platform::Intel, "0x12c0"), LaptopModel::G15_5520);
    assert_eq!(model_from_code(Platform::Intel, "0xc80"), LaptopModel::G15_5511);
    assert_eq!(model_from_code(Platform::Amd, "0x12c0"), LaptopModel::G15_5525);
    assert_eq!(model_from_code(Platform::Amd, "0xc80"), LaptopModel::G15_5515);
    assert_eq!(model_from_code(Platform::Amd, "0x0"), LaptopModel::Unknown);
    assert_eq!(model_from_code(Platform::Intel, "0x1"), LaptopModel::Unknown);
}
