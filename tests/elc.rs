use dell_core::elc::{
    animation_namespace, decode_animation_count, decode_version, encode_actions,
    make_actions_fragment, make_animation_fragment, make_color_fragment, make_dim_fragment,
    make_series_fragment, Action, Elc, ElcError,
};
use dell_core::elc_constants::{
    AC_CHARGED, AC_SLEEP, COLOR, DC_LOW, MORPH, POWER_ANIMATION, PULSE, REMOVE, SET_DEFAULT,
    START_NEW, USER_ANIMATION,
};

#[test]
fn action_fields() {
    let a = Action::new(PULSE, 0x1234, 0x00ff, 1, 2, 3);
    assert_eq!(a.effect, PULSE);
    assert_eq!(a.duration, 0x1234);
    assert_eq!(a.tempo, 0x00ff);
    assert_eq!((a.red, a.green, a.blue), (1, 2, 3));
}

#[test]
fn action_bytes_are_big_endian() {
    let a = Action::new(MORPH, 0x1234, 0x00ff, 10, 20, 30);
    assert_eq!(a.to_bytes(), vec![0x02, 0x12, 0x34, 0x00, 0xff, 10, 20, 30]);
    let hold = Action::new(COLOR, 0xffff, 1, 0, 0, 0);
    assert_eq!(hold.to_bytes(), vec![0x00, 0xff, 0xff, 0x00, 0x01, 0, 0, 0]);
}

#[test]
fn namespace_boundaries() {
    assert_eq!(animation_namespace(0x5b), POWER_ANIMATION);
    assert_eq!(animation_namespace(0x60), POWER_ANIMATION);
    assert_eq!(animation_namespace(0x5d), POWER_ANIMATION);
    assert_eq!(animation_namespace(0x21), USER_ANIMATION);
    assert_eq!(animation_namespace(0x5a), USER_ANIMATION);
    assert_eq!(animation_namespace(0x61), USER_ANIMATION);
    assert_eq!(animation_namespace(0), USER_ANIMATION);
    assert_eq!(animation_namespace(0xffff), USER_ANIMATION);
    assert_eq!(POWER_ANIMATION, 0x22);
    assert_eq!(USER_ANIMATION, 0x21);
}

#[test]
fn animation_fragments() {
    assert_eq!(make_animation_fragment(START_NEW, AC_CHARGED), vec![0x22, 0x00, 0x01, 0x00, 0x5c]);
    assert_eq!(make_animation_fragment(REMOVE, DC_LOW), vec![0x22, 0x00, 0x04, 0x00, 0x60]);
    assert_eq!(make_animation_fragment(SET_DEFAULT, 0x0121), vec![0x21, 0x00, 0x06, 0x01, 0x21]);
    assert_eq!(make_animation_fragment(START_NEW, AC_SLEEP)[0], POWER_ANIMATION);
}

#[test]
fn zone_fragments() {
    assert_eq!(make_series_fragment(&[0, 1, 2, 3], 1), vec![0x23, 1, 0, 4, 0, 1, 2, 3]);
    assert_eq!(make_series_fragment(&[], 2), vec![0x23, 2, 0, 0]);
    assert_eq!(make_dim_fragment(&[0, 1, 2, 3], 100), vec![0x26, 100, 0, 4, 0, 1, 2, 3]);
    assert_eq!(make_color_fragment(&[3], 9, 8, 7), vec![0x27, 9, 8, 7, 0, 1, 3]);
}

#[test]
fn four_actions_are_refused() {
    let a = Action::new(COLOR, 1, 1, 1, 1, 1);
    assert!(matches!(make_actions_fragment(&[a, a, a, a]), Err(ElcError::TooManyActions)));
    assert!(matches!(make_actions_fragment(&[a, a, a, a, a]), Err(ElcError::TooManyActions)));
}

#[test]
fn up_to_three_actions_are_encoded() {
    let a = Action::new(COLOR, 0xffff, 1, 255, 0, 0);
    let b = Action::new(MORPH, 0x0200, 2, 0, 255, 0);
    let f = make_actions_fragment(&[a, b, a]).unwrap();
    assert_eq!(f.len(), 25);
    assert_eq!(f[0], 0x24);
    assert_eq!(&f[1..9], &a.to_bytes()[..]);
    assert_eq!(&f[9..17], &b.to_bytes()[..]);
    assert_eq!(make_actions_fragment(&[]).unwrap(), vec![0x24]);
    assert_eq!(encode_actions(&[b]), vec![0x24, 0x02, 0x02, 0x00, 0x00, 0x02, 0, 255, 0]);
}

#[test]
fn frames_are_33_bytes() {
    let f = Elc::build_command(&[0x20, 0x00]);
    assert_eq!(f.len(), 33);
    assert_eq!(&f[0..3], &[0x03, 0x20, 0x00]);
    assert!(f[3..].iter().all(|&b| b == 0));
    let long: Vec<u8> = (0..40).map(|i| i as u8 + 1).collect();
    let f = Elc::build_command(&long);
    assert_eq!(f.len(), 33);
    assert_eq!(f[0], 0x03);
    assert_eq!(&f[1..], &long[..32]);
    assert_eq!(Elc::build_command(&[]), {
        let mut v = vec![0u8; 33];
        v[0] = 3;
        v
    });
}

#[test]
fn reply_decoding() {
    let mut reply = vec![0u8; 33];
    reply[3] = 1;
    reply[4] = 0x34;
    reply[5] = 0x12;
    assert_eq!(decode_version(&reply), (1, 0x34, 0x12));
    assert_eq!(decode_animation_count(&reply), (1, 0x1234));
}
