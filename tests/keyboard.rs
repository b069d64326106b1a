use dell_core::elc::Action;
use dell_core::elc_constants::{
    AC_CHARGED, AC_CHARGING, AC_SLEEP, COLOR, DC_LOW, DC_ON, DC_SLEEP, DURATION_BATTERY_LOW,
    DURATION_MAX, MORPH, PULSE, TEMPO_MIN,
};
use dell_core::keyboard::{
    is_supported_device, make_color_and_morph_program, make_four_zone_program, make_morph_program,
    make_pulse_program, make_static_program, select_device,
};

fn slot_of(fragment: &[u8]) -> u16 {
    u16::from_be_bytes([fragment[3], fragment[4]])
}

fn one_action(effect: u8, duration: u16, tempo: u16, rgb: (u8, u8, u8)) -> Vec<u8> {
    let mut v = vec![0x24];
    v.extend(Action::new(effect, duration, tempo, rgb.0, rgb.1, rgb.2).to_bytes());
    v
}

#[test]
fn supported_devices() {
    assert!(is_supported_device(0x187c, 0x0550));
    assert!(is_supported_device(0x187c, 0x0551));
    assert!(!is_supported_device(0x187c, 0x0552));
    assert!(!is_supported_device(0x1234, 0x0550));
}

#[test]
fn static_red_programs_every_slot() {
    let p = make_static_program(255, 0, 0);
    assert_eq!(p.len(), 38);
    assert_eq!(p[0], vec![0x26, 0, 0, 4, 0, 1, 2, 3]);
    let slots = [(AC_SLEEP, (0, 0, 0)), (AC_CHARGED, (255, 0, 0)), (AC_CHARGING, (255, 0, 0)), (DC_SLEEP, (0, 0, 0)), (DC_ON, (127, 0, 0))];
    for (k, (slot, rgb)) in slots.iter().enumerate() {
        let base = 1 + 6 * k;
        assert_eq!(p[base], vec![0x22, 0, 0x04, 0, *slot as u8]);
        assert_eq!(p[base + 1], vec![0x22, 0, 0x01, 0, *slot as u8]);
        assert_eq!(p[base + 2], vec![0x23, 1, 0, 4, 0, 1, 2, 3]);
        assert_eq!(p[base + 3], one_action(COLOR, DURATION_MAX, TEMPO_MIN, *rgb));
        assert_eq!(p[base + 4], vec![0x22, 0, 0x02, 0, *slot as u8]);
        assert_eq!(p[base + 5], vec![0x22, 0, 0x06, 0, *slot as u8]);
    }
    assert_eq!(slot_of(&p[31]), DC_LOW);
    assert_eq!(p[33], vec![0x23, 1, 0, 4, 0, 1, 2, 3]);
    assert_eq!(p[34], one_action(COLOR, DURATION_BATTERY_LOW, TEMPO_MIN, (255, 0, 0)));
    assert_eq!(p[35], one_action(COLOR, DURATION_BATTERY_LOW, TEMPO_MIN, (0, 0, 0)));
    assert_eq!(p[37], vec![0x22, 0, 0x06, 0, 0x60]);
}

#[test]
fn static_halves_battery_slot() {
    let p = make_static_program(201, 100, 3);
    assert_eq!(p[28], one_action(COLOR, DURATION_MAX, TEMPO_MIN, (100, 50, 1)));
    assert_eq!(p[10], one_action(COLOR, DURATION_MAX, TEMPO_MIN, (201, 100, 3)));
}

#[test]
fn morph_cycles_through_complement() {
    let p = make_morph_program(10, 20, 30, 0x0300);
    assert_eq!(p.len(), 38);
    let mut expect = vec![0x24];
    for rgb in [(10, 20, 30), (245, 235, 225), (10, 20, 30)] {
        expect.extend(Action::new(MORPH, 0x0300, TEMPO_MIN, rgb.0, rgb.1, rgb.2).to_bytes());
    }
    assert_eq!(p[10], expect);
    assert_eq!(p[16], expect);
    assert_eq!(p[4], one_action(COLOR, DURATION_MAX, TEMPO_MIN, (0, 0, 0)));
    let mut half = vec![0x24];
    for rgb in [(5, 10, 15), (250, 245, 240), (5, 10, 15)] {
        half.extend(Action::new(MORPH, 0x0300, TEMPO_MIN, rgb.0, rgb.1, rgb.2).to_bytes());
    }
    assert_eq!(p[28], half);
}

#[test]
fn color_and_morph_splits_numpad_and_keyboard() {
    let p = make_color_and_morph_program(1, 2, 3, 40, 50, 60, 0x0100);
    assert_eq!(p.len(), 1 + 5 * 8 + 7);
    let base = 1 + 8;
    assert_eq!(slot_of(&p[base]), AC_CHARGED);
    assert_eq!(p[base + 2], vec![0x23, 1, 0, 1, 3]);
    let mut morph = vec![0x24];
    for rgb in [(40, 50, 60), (50, 60, 40), (60, 40, 50)] {
        morph.extend(Action::new(MORPH, 0x0100, TEMPO_MIN, rgb.0, rgb.1, rgb.2).to_bytes());
    }
    assert_eq!(p[base + 3], morph);
    assert_eq!(p[base + 4], vec![0x23, 1, 0, 3, 0, 1, 2]);
    assert_eq!(p[base + 5], one_action(COLOR, 0x0100, TEMPO_MIN, (1, 2, 3)));
    assert_eq!(p[1 + 3], {
        let mut v = vec![0x24];
        for _ in 0..3 {
            v.extend(Action::new(MORPH, DURATION_MAX, TEMPO_MIN, 0, 0, 0).to_bytes());
        }
        v
    });
}

#[test]
fn pulse_tempo_from_speed() {
    let p = make_pulse_program(0, 200, 0, 0);
    assert_eq!(p[10], one_action(PULSE, DURATION_MAX, 1, (0, 200, 0)));
    let p = make_pulse_program(0, 200, 0, 9);
    assert_eq!(p[16], one_action(PULSE, DURATION_MAX, 9, (0, 200, 0)));
    assert_eq!(p[28], one_action(PULSE, DURATION_MAX, 9, (0, 100, 0)));
    assert_eq!(p[4], one_action(COLOR, DURATION_MAX, TEMPO_MIN, (0, 0, 0)));
}

#[test]
fn four_zones_each_get_a_color() {
    let colors = [(255, 0, 0), (0, 255, 0), (0, 0, 255), (9, 9, 9)];
    let p = make_four_zone_program(&colors);
    assert_eq!(p.len(), 1 + 6 + 12 + 12 + 6 + 12 + 7);
    let charged = 7;
    assert_eq!(slot_of(&p[charged]), AC_CHARGED);
    for z in 0..4 {
        assert_eq!(p[charged + 2 + 2 * z], vec![0x23, 1, 0, 1, z as u8]);
        assert_eq!(p[charged + 3 + 2 * z], one_action(COLOR, DURATION_MAX, TEMPO_MIN, colors[z]));
    }
    let on = 1 + 6 + 12 + 12 + 6;
    assert_eq!(slot_of(&p[on]), DC_ON);
    assert_eq!(p[on + 3], one_action(COLOR, DURATION_MAX, TEMPO_MIN, (127, 0, 0)));
    assert_eq!(p[on + 9], one_action(COLOR, DURATION_MAX, TEMPO_MIN, (4, 4, 4)));
}

#[test]
fn device_selection() {
    let ids = vec![(0x1234, 0x0550), (0x187c, 0x0550), (0x187c, 0x0551), (0x187c, 0x0551)];
    assert_eq!(select_device(&ids, &vec![true, false, true, true]), Some(2));
    assert_eq!(select_device(&ids, &vec![true, true, true, true]), Some(1));
    assert_eq!(select_device(&ids, &vec![true, false, false, false]), None);
    assert_eq!(select_device(&vec![], &vec![]), None);
    assert_eq!(select_device(&vec![(0x187c, 0x0552)], &vec![true]), None);
}
