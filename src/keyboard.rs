//! The animation orchestrator: lighting programs over the five power-state
//! slots and the low-battery slot, stated as the exact sequence of command
//! fragments each one sends, and `KeyboardController`, which finds the
//! controller and sends them.
use vstd::prelude::*;
use crate::elc::{
    actions_fragment, animation_fragment, dim_fragment, encode_actions, make_animation_fragment,
    frags, frames_of, make_dim_fragment, make_series_fragment, sent_in_order, series_fragment, Action,
    Elc, ElcError,
};
use crate::elc_constants::{
    zones_all, zones_all_vec, zones_kb, zones_kb_vec, zones_np, zones_np_vec, AC_CHARGED,
    AC_CHARGING, AC_SLEEP, COLOR, DC_LOW, DC_ON, DC_SLEEP, DURATION_BATTERY_LOW, DURATION_MAX,
    FINISH_SAVE, MORPH, PULSE, REMOVE, SET_DEFAULT, START_NEW, TEMPO_MIN,
};
use crate::hid_report::{
    claim_interface, detach_kernel_driver, device_ids, kernel_driver_active, open_device,
    open_session, reset_device, usb_devices, UsbHandle,
};

verus! {

/// The vendor id of the lighting controller.
pub const SUPPORTED_VENDOR_ID: u16 = 0x187c;

/// One product id of the lighting controller.
pub const SUPPORTED_PRODUCT_ID_A: u16 = 0x0550;

/// The other product id of the lighting controller.
pub const SUPPORTED_PRODUCT_ID_B: u16 = 0x0551;

/// Whether a USB device is a supported lighting controller.
pub fn is_supported_device(vendor_id: u16, product_id: u16) -> (r: bool)
    ensures
        r == (vendor_id == SUPPORTED_VENDOR_ID && (product_id == SUPPORTED_PRODUCT_ID_A
            || product_id == SUPPORTED_PRODUCT_ID_B)),
{
    vendor_id == SUPPORTED_VENDOR_ID && (product_id == SUPPORTED_PRODUCT_ID_A || product_id
        == SUPPORTED_PRODUCT_ID_B)
}

/// An action of one color.
pub open spec fn act(effect: u8, duration: u16, tempo: u16, red: u8, green: u8, blue: u8) -> Action {
    Action { effect, duration, tempo, red, green, blue }
}

/// One series: the zones it lights, looped once, then its actions.
pub open spec fn series_body(zones: Seq<u8>, actions: Seq<Action>) -> Seq<Seq<u8>> {
    seq![series_fragment(zones, 1), actions_fragment(actions)]
}

/// Reprograms slot `id`: removes what it held, starts it anew, runs `body`,
/// saves it and makes it the slot's default.
pub open spec fn slot_program(id: u16, body: Seq<Seq<u8>>) -> Seq<Seq<u8>> {
    seq![animation_fragment(REMOVE, id), animation_fragment(START_NEW, id)] + body + seq![
        animation_fragment(FINISH_SAVE, id),
        animation_fragment(SET_DEFAULT, id),
    ]
}

/// A slot that shows one action on some zones.
pub open spec fn action_program(
    red: u8,
    green: u8,
    blue: u8,
    duration: u16,
    tempo: u16,
    id: u16,
    effect: u8,
    zones: Seq<u8>,
) -> Seq<Seq<u8>> {
    slot_program(id, series_body(zones, seq![act(effect, duration, tempo, red, green, blue)]))
}

/// The complement of a color channel.
pub open spec fn inverse(x: u8) -> u8 {
    (255 - x) as u8
}

/// A slot that morphs from a color to its complement and back.
pub open spec fn morph_program(
    red: u8,
    green: u8,
    blue: u8,
    duration: u16,
    tempo: u16,
    id: u16,
    zones: Seq<u8>,
) -> Seq<Seq<u8>> {
    slot_program(
        id,
        series_body(
            zones,
            seq![
                act(MORPH, duration, tempo, red, green, blue),
                act(MORPH, duration, tempo, inverse(red), inverse(green), inverse(blue)),
                act(MORPH, duration, tempo, red, green, blue),
            ],
        ),
    )
}

/// A slot whose numpad cycles through the rotations of one color while the
/// keyboard zones hold another.
pub open spec fn color_and_morph_program(
    red: u8,
    green: u8,
    blue: u8,
    red_morph: u8,
    green_morph: u8,
    blue_morph: u8,
    duration: u16,
    tempo: u16,
    id: u16,
) -> Seq<Seq<u8>> {
    slot_program(
        id,
        series_body(
            zones_np(),
            seq![
                act(MORPH, duration, tempo, red_morph, green_morph, blue_morph),
                act(MORPH, duration, tempo, green_morph, blue_morph, red_morph),
                act(MORPH, duration, tempo, blue_morph, red_morph, green_morph),
            ],
        ) + series_body(zones_kb(), seq![act(COLOR, duration, tempo, red, green, blue)]),
    )
}

/// The series that lights zone `z` alone in color `c`.
pub open spec fn zone_color(z: u8, c: (u8, u8, u8)) -> Seq<Seq<u8>> {
    series_body(seq![z], seq![act(COLOR, DURATION_MAX, TEMPO_MIN, c.0, c.1, c.2)])
}

/// A slot in which each zone `z` holds `colors[z]`.
pub open spec fn zones_program(colors: Seq<(u8, u8, u8)>, id: u16) -> Seq<Seq<u8>> {
    slot_program(
        id,
        zone_color(0, colors[0]) + zone_color(1, colors[1]) + zone_color(2, colors[2])
            + zone_color(3, colors[3]),
    )
}

/// The low-battery slot: every zone flashes red, then off, at the short
/// low-battery duration and the lowest tempo.
pub open spec fn battery_flashing_program() -> Seq<Seq<u8>> {
    slot_program(
        DC_LOW,
        seq![
            series_fragment(zones_all(), 1),
            actions_fragment(seq![act(COLOR, DURATION_BATTERY_LOW, TEMPO_MIN, 255, 0, 0)]),
            actions_fragment(seq![act(COLOR, DURATION_BATTERY_LOW, TEMPO_MIN, 0, 0, 0)]),
        ],
    )
}

/// A sleep slot, off.
pub open spec fn off_program(id: u16) -> Seq<Seq<u8>> {
    action_program(0, 0, 0, DURATION_MAX, TEMPO_MIN, id, COLOR, zones_all())
}

/// Static lighting: sleep slots off, charged and charging slots in the color,
/// battery slot at half of each channel, then the low-battery slot.
pub open spec fn static_program(red: u8, green: u8, blue: u8) -> Seq<Seq<u8>> {
    seq![dim_fragment(zones_all(), 0)] + off_program(AC_SLEEP) + action_program(
        red,
        green,
        blue,
        DURATION_MAX,
        TEMPO_MIN,
        AC_CHARGED,
        COLOR,
        zones_all(),
    ) + action_program(red, green, blue, DURATION_MAX, TEMPO_MIN, AC_CHARGING, COLOR, zones_all())
        + off_program(DC_SLEEP) + action_program(
        red / 2,
        green / 2,
        blue / 2,
        DURATION_MAX,
        TEMPO_MIN,
        DC_ON,
        COLOR,
        zones_all(),
    ) + battery_flashing_program()
}

/// Morphing lighting: as `static_program`, with the three lit slots morphing.
pub open spec fn morph_lighting_program(red: u8, green: u8, blue: u8, duration: u16) -> Seq<
    Seq<u8>,
> {
    seq![dim_fragment(zones_all(), 0)] + off_program(AC_SLEEP) + morph_program(
        red,
        green,
        blue,
        duration,
        TEMPO_MIN,
        AC_CHARGED,
        zones_all(),
    ) + morph_program(red, green, blue, duration, TEMPO_MIN, AC_CHARGING, zones_all())
        + off_program(DC_SLEEP) + morph_program(
        red / 2,
        green / 2,
        blue / 2,
        duration,
        TEMPO_MIN,
        DC_ON,
        zones_all(),
    ) + battery_flashing_program()
}

/// Keyboard color with a morphing numpad, sleep slots off.
pub open spec fn color_and_morph_lighting_program(
    red: u8,
    green: u8,
    blue: u8,
    red_morph: u8,
    green_morph: u8,
    blue_morph: u8,
    duration: u16,
) -> Seq<Seq<u8>> {
    seq![dim_fragment(zones_all(), 0)] + color_and_morph_program(
        0,
        0,
        0,
        0,
        0,
        0,
        DURATION_MAX,
        TEMPO_MIN,
        AC_SLEEP,
    ) + color_and_morph_program(
        red,
        green,
        blue,
        red_morph,
        green_morph,
        blue_morph,
        duration,
        TEMPO_MIN,
        AC_CHARGED,
    ) + color_and_morph_program(
        red,
        green,
        blue,
        red_morph,
        green_morph,
        blue_morph,
        duration,
        TEMPO_MIN,
        AC_CHARGING,
    ) + color_and_morph_program(0, 0, 0, 0, 0, 0, DURATION_MAX, TEMPO_MIN, DC_SLEEP)
        + color_and_morph_program(
        red / 2,
        green / 2,
        blue / 2,
        red_morph / 2,
        green_morph / 2,
        blue_morph / 2,
        duration,
        TEMPO_MIN,
        DC_ON,
    ) + battery_flashing_program()
}

/// The tempo of a pulse at a given speed: the speed, or 1 for speed 0.
pub open spec fn pulse_tempo(speed: u8) -> u16 {
    if speed == 0 {
        1
    } else {
        speed as u16
    }
}

/// Pulsing lighting: as `static_program`, with the three lit slots pulsing.
pub open spec fn pulse_program(red: u8, green: u8, blue: u8, speed: u8) -> Seq<Seq<u8>> {
    seq![dim_fragment(zones_all(), 0)] + off_program(AC_SLEEP) + action_program(
        red,
        green,
        blue,
        DURATION_MAX,
        pulse_tempo(speed),
        AC_CHARGED,
        PULSE,
        zones_all(),
    ) + action_program(
        red,
        green,
        blue,
        DURATION_MAX,
        pulse_tempo(speed),
        AC_CHARGING,
        PULSE,
        zones_all(),
    ) + off_program(DC_SLEEP) + action_program(
        red / 2,
        green / 2,
        blue / 2,
        DURATION_MAX,
        pulse_tempo(speed),
        DC_ON,
        PULSE,
        zones_all(),
    ) + battery_flashing_program()
}

/// A color with each channel halved.
pub open spec fn halved(c: (u8, u8, u8)) -> (u8, u8, u8) {
    ((c.0 / 2) as u8, (c.1 / 2) as u8, (c.2 / 2) as u8)
}

/// One color per zone: charged and charging slots in full, battery slot
/// halved, sleep slots off.
pub open spec fn four_zone_program(colors: Seq<(u8, u8, u8)>) -> Seq<Seq<u8>> {
    seq![dim_fragment(zones_all(), 0)] + off_program(AC_SLEEP) + zones_program(colors, AC_CHARGED)
        + zones_program(colors, AC_CHARGING) + off_program(DC_SLEEP) + zones_program(
        colors.map_values(|c: (u8, u8, u8)| halved(c)),
        DC_ON,
    ) + battery_flashing_program()
}

/// Appends one fragment to a program.
fn push_fragment(p: &mut Vec<Vec<u8>>, f: Vec<u8>)
    ensures
        frags(final(p)@) == frags(old(p)@).push(f@),
{
    let ghost before = p@;
    p.push(f);
    assert(frags(p@) =~= frags(before).push(f@));
}

/// Appends one series.
fn push_series(p: &mut Vec<Vec<u8>>, zones: &[u8], actions: &[Action])
    ensures
        frags(final(p)@) == frags(old(p)@) + series_body(zones@, actions@),
{
    let ghost before = frags(p@);
    push_fragment(p, make_series_fragment(zones, 1));
    push_fragment(p, encode_actions(actions));
    assert(frags(p@) =~= before + series_body(zones@, actions@));
}

/// Appends the fragments that open slot `id` for reprogramming.
fn push_slot_start(p: &mut Vec<Vec<u8>>, id: u16)
    ensures
        frags(final(p)@) == frags(old(p)@) + seq![
            animation_fragment(REMOVE, id),
            animation_fragment(START_NEW, id),
        ],
{
    let ghost before = frags(p@);
    push_fragment(p, make_animation_fragment(REMOVE, id));
    push_fragment(p, make_animation_fragment(START_NEW, id));
    assert(frags(p@) =~= before + seq![
        animation_fragment(REMOVE, id),
        animation_fragment(START_NEW, id),
    ]);
}

/// Appends the fragments that save slot `id` and make it the default.
fn push_slot_end(p: &mut Vec<Vec<u8>>, id: u16)
    ensures
        frags(final(p)@) == frags(old(p)@) + seq![
            animation_fragment(FINISH_SAVE, id),
            animation_fragment(SET_DEFAULT, id),
        ],
{
    let ghost before = frags(p@);
    push_fragment(p, make_animation_fragment(FINISH_SAVE, id));
    push_fragment(p, make_animation_fragment(SET_DEFAULT, id));
    assert(frags(p@) =~= before + seq![
        animation_fragment(FINISH_SAVE, id),
        animation_fragment(SET_DEFAULT, id),
    ]);
}

fn push_action_program(
    p: &mut Vec<Vec<u8>>,
    red: u8,
    green: u8,
    blue: u8,
    duration: u16,
    tempo: u16,
    id: u16,
    effect: u8,
    zones: &[u8],
)
    ensures
        frags(final(p)@) == frags(old(p)@) + action_program(
            red,
            green,
            blue,
            duration,
            tempo,
            id,
            effect,
            zones@,
        ),
{
    let ghost before = frags(p@);
    push_slot_start(p, id);
    let actions = vec![Action::new(effect, duration, tempo, red, green, blue)];
    assert(actions@ =~= seq![act(effect, duration, tempo, red, green, blue)]);
    push_series(p, zones, actions.as_slice());
    push_slot_end(p, id);
    assert(frags(p@) =~= before + action_program(
        red,
        green,
        blue,
        duration,
        tempo,
        id,
        effect,
        zones@,
    ));
}

fn push_off_program(p: &mut Vec<Vec<u8>>, id: u16)
    ensures
        frags(final(p)@) == frags(old(p)@) + off_program(id),
{
    let zones = zones_all_vec();
    push_action_program(p, 0, 0, 0, DURATION_MAX, TEMPO_MIN, id, COLOR, zones.as_slice());
}

fn push_morph_program(
    p: &mut Vec<Vec<u8>>,
    red: u8,
    green: u8,
    blue: u8,
    duration: u16,
    tempo: u16,
    id: u16,
    zones: &[u8],
)
    ensures
        frags(final(p)@) == frags(old(p)@) + morph_program(
            red,
            green,
            blue,
            duration,
            tempo,
            id,
            zones@,
        ),
{
    let ghost before = frags(p@);
    push_slot_start(p, id);
    let inverse_red: u8 = 255 - red;
    let inverse_green: u8 = 255 - green;
    let inverse_blue: u8 = 255 - blue;
    let actions = vec![
        Action::new(MORPH, duration, tempo, red, green, blue),
        Action::new(MORPH, duration, tempo, inverse_red, inverse_green, inverse_blue),
        Action::new(MORPH, duration, tempo, red, green, blue),
    ];
    assert(actions@ =~= seq![
        act(MORPH, duration, tempo, red, green, blue),
        act(MORPH, duration, tempo, inverse(red), inverse(green), inverse(blue)),
        act(MORPH, duration, tempo, red, green, blue),
    ]);
    push_series(p, zones, actions.as_slice());
    push_slot_end(p, id);
    assert(frags(p@) =~= before + morph_program(red, green, blue, duration, tempo, id, zones@));
}

fn push_color_and_morph_program(
    p: &mut Vec<Vec<u8>>,
    red: u8,
    green: u8,
    blue: u8,
    red_morph: u8,
    green_morph: u8,
    blue_morph: u8,
    duration: u16,
    tempo: u16,
    id: u16,
)
    ensures
        frags(final(p)@) == frags(old(p)@) + color_and_morph_program(
            red,
            green,
            blue,
            red_morph,
            green_morph,
            blue_morph,
            duration,
            tempo,
            id,
        ),
{
    let ghost before = frags(p@);
    push_slot_start(p, id);
    let morph = vec![
        Action::new(MORPH, duration, tempo, red_morph, green_morph, blue_morph),
        Action::new(MORPH, duration, tempo, green_morph, blue_morph, red_morph),
        Action::new(MORPH, duration, tempo, blue_morph, red_morph, green_morph),
    ];
    assert(morph@ =~= seq![
        act(MORPH, duration, tempo, red_morph, green_morph, blue_morph),
        act(MORPH, duration, tempo, green_morph, blue_morph, red_morph),
        act(MORPH, duration, tempo, blue_morph, red_morph, green_morph),
    ]);
    let np = zones_np_vec();
    push_series(p, np.as_slice(), morph.as_slice());
    let color = vec![Action::new(COLOR, duration, tempo, red, green, blue)];
    assert(color@ =~= seq![act(COLOR, duration, tempo, red, green, blue)]);
    let kb = zones_kb_vec();
    push_series(p, kb.as_slice(), color.as_slice());
    push_slot_end(p, id);
    assert(frags(p@) =~= before + color_and_morph_program(
        red,
        green,
        blue,
        red_morph,
        green_morph,
        blue_morph,
        duration,
        tempo,
        id,
    ));
}

fn push_zone_color(p: &mut Vec<Vec<u8>>, zone: u8, c: (u8, u8, u8))
    ensures
        frags(final(p)@) == frags(old(p)@) + zone_color(zone, c),
{
    let zones = vec![zone];
    let actions = vec![Action::new(COLOR, DURATION_MAX, TEMPO_MIN, c.0, c.1, c.2)];
    assert(zones@ =~= seq![zone]);
    assert(actions@ =~= seq![act(COLOR, DURATION_MAX, TEMPO_MIN, c.0, c.1, c.2)]);
    push_series(p, zones.as_slice(), actions.as_slice());
}

fn push_zones_program(p: &mut Vec<Vec<u8>>, colors: &[(u8, u8, u8)], id: u16)
    requires
        colors@.len() == 4,
    ensures
        frags(final(p)@) == frags(old(p)@) + zones_program(colors@, id),
{
    let ghost before = frags(p@);
    push_slot_start(p, id);
    push_zone_color(p, 0, colors[0]);
    push_zone_color(p, 1, colors[1]);
    push_zone_color(p, 2, colors[2]);
    push_zone_color(p, 3, colors[3]);
    push_slot_end(p, id);
    assert(frags(p@) =~= before + zones_program(colors@, id));
}

fn push_battery_flashing(p: &mut Vec<Vec<u8>>)
    ensures
        frags(final(p)@) == frags(old(p)@) + battery_flashing_program(),
{
    let ghost before = frags(p@);
    push_slot_start(p, DC_LOW);
    let zones = zones_all_vec();
    push_fragment(p, make_series_fragment(zones.as_slice(), 1));
    let red = vec![Action::new(COLOR, DURATION_BATTERY_LOW, TEMPO_MIN, 255, 0, 0)];
    assert(red@ =~= seq![act(COLOR, DURATION_BATTERY_LOW, TEMPO_MIN, 255, 0, 0)]);
    push_fragment(p, encode_actions(red.as_slice()));
    let off = vec![Action::new(COLOR, DURATION_BATTERY_LOW, TEMPO_MIN, 0, 0, 0)];
    assert(off@ =~= seq![act(COLOR, DURATION_BATTERY_LOW, TEMPO_MIN, 0, 0, 0)]);
    push_fragment(p, encode_actions(off.as_slice()));
    push_slot_end(p, DC_LOW);
    assert(frags(p@) =~= before + battery_flashing_program());
}

/// A program that starts by turning the dimming of every zone off.
fn undimmed() -> (r: Vec<Vec<u8>>)
    ensures
        frags(r@) == seq![dim_fragment(zones_all(), 0)],
{
    let mut p: Vec<Vec<u8>> = Vec::new();
    let zones = zones_all_vec();
    push_fragment(&mut p, make_dim_fragment(zones.as_slice(), 0));
    assert(frags(p@) =~= seq![dim_fragment(zones_all(), 0)]);
    p
}

/// The fragments that static lighting sends.
pub fn make_static_program(red: u8, green: u8, blue: u8) -> (r: Vec<Vec<u8>>)
    ensures
        frags(r@) == static_program(red, green, blue),
{
    let zones = zones_all_vec();
    let mut p = undimmed();
    push_off_program(&mut p, AC_SLEEP);
    push_action_program(
        &mut p,
        red,
        green,
        blue,
        DURATION_MAX,
        TEMPO_MIN,
        AC_CHARGED,
        COLOR,
        zones.as_slice(),
    );
    push_action_program(
        &mut p,
        red,
        green,
        blue,
        DURATION_MAX,
        TEMPO_MIN,
        AC_CHARGING,
        COLOR,
        zones.as_slice(),
    );
    push_off_program(&mut p, DC_SLEEP);
    push_action_program(
        &mut p,
        red / 2,
        green / 2,
        blue / 2,
        DURATION_MAX,
        TEMPO_MIN,
        DC_ON,
        COLOR,
        zones.as_slice(),
    );
    push_battery_flashing(&mut p);
    p
}

/// The fragments that morphing lighting sends.
pub fn make_morph_program(red: u8, green: u8, blue: u8, duration: u16) -> (r: Vec<Vec<u8>>)
    ensures
        frags(r@) == morph_lighting_program(red, green, blue, duration),
{
    let zones = zones_all_vec();
    let mut p = undimmed();
    push_off_program(&mut p, AC_SLEEP);
    push_morph_program(&mut p, red, green, blue, duration, TEMPO_MIN, AC_CHARGED, zones.as_slice());
    push_morph_program(
        &mut p,
        red,
        green,
        blue,
        duration,
        TEMPO_MIN,
        AC_CHARGING,
        zones.as_slice(),
    );
    push_off_program(&mut p, DC_SLEEP);
    push_morph_program(
        &mut p,
        red / 2,
        green / 2,
        blue / 2,
        duration,
        TEMPO_MIN,
        DC_ON,
        zones.as_slice(),
    );
    push_battery_flashing(&mut p);
    p
}

/// The fragments that keyboard color with a morphing numpad sends.
pub fn make_color_and_morph_program(
    red: u8,
    green: u8,
    blue: u8,
    red_morph: u8,
    green_morph: u8,
    blue_morph: u8,
    duration: u16,
) -> (r: Vec<Vec<u8>>)
    ensures
        frags(r@) == color_and_morph_lighting_program(
            red,
            green,
            blue,
            red_morph,
            green_morph,
            blue_morph,
            duration,
        ),
{
    let mut p = undimmed();
    push_color_and_morph_program(&mut p, 0, 0, 0, 0, 0, 0, DURATION_MAX, TEMPO_MIN, AC_SLEEP);
    push_color_and_morph_program(
        &mut p,
        red,
        green,
        blue,
        red_morph,
        green_morph,
        blue_morph,
        duration,
        TEMPO_MIN,
        AC_CHARGED,
    );
    push_color_and_morph_program(
        &mut p,
        red,
        green,
        blue,
        red_morph,
        green_morph,
        blue_morph,
        duration,
        TEMPO_MIN,
        AC_CHARGING,
    );
    push_color_and_morph_program(&mut p, 0, 0, 0, 0, 0, 0, DURATION_MAX, TEMPO_MIN, DC_SLEEP);
    push_color_and_morph_program(
        &mut p,
        red / 2,
        green / 2,
        blue / 2,
        red_morph / 2,
        green_morph / 2,
        blue_morph / 2,
        duration,
        TEMPO_MIN,
        DC_ON,
    );
    push_battery_flashing(&mut p);
    p
}

/// The fragments that pulsing lighting sends.
pub fn make_pulse_program(red: u8, green: u8, blue: u8, speed: u8) -> (r: Vec<Vec<u8>>)
    ensures
        frags(r@) == pulse_program(red, green, blue, speed),
{
    let tempo: u16 = if speed == 0 {
        1
    } else {
        speed as u16
    };
    let zones = zones_all_vec();
    let mut p = undimmed();
    push_off_program(&mut p, AC_SLEEP);
    push_action_program(
        &mut p,
        red,
        green,
        blue,
        DURATION_MAX,
        tempo,
        AC_CHARGED,
        PULSE,
        zones.as_slice(),
    );
    push_action_program(
        &mut p,
        red,
        green,
        blue,
        DURATION_MAX,
        tempo,
        AC_CHARGING,
        PULSE,
        zones.as_slice(),
    );
    push_off_program(&mut p, DC_SLEEP);
    push_action_program(
        &mut p,
        red / 2,
        green / 2,
        blue / 2,
        DURATION_MAX,
        tempo,
        DC_ON,
        PULSE,
        zones.as_slice(),
    );
    push_battery_flashing(&mut p);
    p
}

/// The fragments that one color per zone sends.
pub fn make_four_zone_program(colors: &[(u8, u8, u8)]) -> (r: Vec<Vec<u8>>)
    requires
        colors@.len() == 4,
    ensures
        frags(r@) == four_zone_program(colors@),
{
    let mut half: Vec<(u8, u8, u8)> = Vec::new();
    let mut i: usize = 0;
    while i < colors.len()
        invariant
            i <= colors@.len(),
            half@ == colors@.subrange(0, i as int).map_values(|c: (u8, u8, u8)| halved(c)),
        decreases colors@.len() - i,
    {
        let c = colors[i];
        half.push((c.0 / 2, c.1 / 2, c.2 / 2));
        i += 1;
        assert(half@ =~= colors@.subrange(0, i as int).map_values(|c: (u8, u8, u8)| halved(c)));
    }
    assert(colors@.subrange(0, 4) =~= colors@);
    let mut p = undimmed();
    push_off_program(&mut p, AC_SLEEP);
    push_zones_program(&mut p, colors, AC_CHARGED);
    push_zones_program(&mut p, colors, AC_CHARGING);
    push_off_program(&mut p, DC_SLEEP);
    push_zones_program(&mut p, half.as_slice(), DC_ON);
    push_battery_flashing(&mut p);
    p
}

/// What a lighting operation leaves in the controller's logs. On success,
/// every report of `program`, in order, then one reset attempt. On a
/// failure, which is the transport's: the reports before the failing one,
/// none after it, and no reset.
pub open spec fn programmed(
    before: Seq<Seq<u8>>,
    after: Seq<Seq<u8>>,
    resets_before: Seq<nat>,
    resets_after: Seq<nat>,
    program: Seq<Seq<u8>>,
    r: Result<(), ElcError>,
) -> bool {
    &&& sent_in_order(before, after, program, r)
    &&& r is Ok ==> resets_after == resets_before.push(after.len())
    &&& r is Err ==> resets_after == resets_before
}

/// Whether the supported device at `i` of the listed ids is the one taken:
/// the first that is supported and opened.
pub open spec fn is_choice(ids: Seq<(u16, u16)>, opened: Seq<bool>, i: int) -> bool {
    &&& 0 <= i < ids.len()
    &&& supported(ids[i])
    &&& opened[i]
    &&& forall|j: int| 0 <= j < i ==> !(supported(#[trigger] ids[j]) && opened[j])
}

/// Whether a device's vendor and product ids are those of the controller.
pub open spec fn supported(id: (u16, u16)) -> bool {
    id.0 == SUPPORTED_VENDOR_ID && (id.1 == SUPPORTED_PRODUCT_ID_A || id.1
        == SUPPORTED_PRODUCT_ID_B)
}

/// The device to take, given the listed devices' ids and whether opening each
/// one succeeded: the first supported one that opened, or none.
pub fn select_device(ids: &Vec<(u16, u16)>, opened: &Vec<bool>) -> (r: Option<usize>)
    requires
        ids@.len() == opened@.len(),
    ensures
        match r {
            Some(i) => is_choice(ids@, opened@, i as int),
            None => forall|j: int| 0 <= j < ids@.len() ==> !(supported(#[trigger] ids@[j]) && opened@[j]),
        },
{
    let mut i: usize = 0;
    while i < ids.len()
        invariant
            ids@.len() == opened@.len(),
            i <= ids@.len(),
            forall|j: int| 0 <= j < i ==> !(supported(#[trigger] ids@[j]) && opened@[j]),
        decreases ids@.len() - i,
    {
        let (vendor_id, product_id) = ids[i];
        if is_supported_device(vendor_id, product_id) && opened[i] {
            return Some(i);
        }
        i += 1;
    }
    None
}

/// The lighting controller, found and claimed.
pub struct KeyboardController {
    elc: Elc,
}

impl KeyboardController {
    /// The reports sent so far that the device answered, in order.
    pub closed spec fn completed(&self) -> Seq<Seq<u8>> {
        self.elc.completed()
    }

    /// For each reset attempted so far, the number of completed reports
    /// before it.
    pub closed spec fn resets(&self) -> Seq<nat> {
        self.elc.resets()
    }

    /// Lists the USB devices and takes the first supported one that opens
    /// (`select_device`), then detaches the kernel's driver from its
    /// interface 0 and claims it. `NoDevice` comes exactly when
    /// `select_device` finds none.
    pub fn new(debug: bool) -> (r: Result<KeyboardController, ElcError>)
        ensures
            r is Ok ==> r->Ok_0.completed() == Seq::<Seq<u8>>::empty(),
            r is Ok ==> r->Ok_0.resets() == Seq::<nat>::empty(),
            r is Err ==> r->Err_0 is Transport || r->Err_0 is NoDevice,
    {
        let session = match open_session() {
            Ok(s) => s,
            Err(e) => return Err(ElcError::Transport(e)),
        };
        let devices = match usb_devices(&session) {
            Ok(d) => d,
            Err(e) => return Err(ElcError::Transport(e)),
        };
        let mut ids: Vec<(u16, u16)> = Vec::new();
        let mut opened: Vec<bool> = Vec::new();
        let mut handle: Option<UsbHandle> = None;
        let mut i: usize = 0;
        while i < devices.len()
            invariant
                i <= devices.len(),
                ids@.len() == i,
                opened@.len() == i,
                handle is None ==> forall|j: int| 0 <= j < i ==> !(#[trigger] opened@[j]),
            decreases devices.len() - i,
        {
            let id = match device_ids(&devices[i]) {
                Ok(id) => id,
                Err(e) => return Err(ElcError::Transport(e)),
            };
            let mut ok = false;
            if is_supported_device(id.0, id.1) {
                if let Ok(h) = open_device(&devices[i]) {
                    handle = Some(h);
                    ok = true;
                }
            }
            ids.push(id);
            opened.push(ok);
            i += 1;
            if ok {
                break;
            }
        }
        let choice = select_device(&ids, &opened);
        if choice.is_none() {
            return Err(ElcError::NoDevice);
        }
        let handle = match handle {
            Some(h) => h,
            None => {
                // Unreachable: `select_device` chose a device that opened, and
                // the loop holds the handle of any device that opened.
                assert(opened@[choice->Some_0 as int]);
                assert(false);
                return Err(ElcError::NoDevice);
            },
        };
        let _ = reset_device(&handle);
        if let Ok(true) = kernel_driver_active(&handle, 0) {
            if let Err(e) = detach_kernel_driver(&handle, 0) {
                return Err(ElcError::Transport(e));
            }
        }
        if let Err(e) = claim_interface(&handle, 0) {
            return Err(ElcError::Transport(e));
        }
        Ok(KeyboardController { elc: Elc::new(handle, debug) })
    }

    /// Sends a lighting program, then, when all of it went through, resets
    /// the device so that the firmware reloads the saved defaults; the
    /// reset's own failure is ignored.
    fn apply(&mut self, program: &Vec<Vec<u8>>) -> (r: Result<(), ElcError>)
        ensures
            programmed(
                old(self).completed(),
                final(self).completed(),
                old(self).resets(),
                final(self).resets(),
                frags(program@),
                r,
            ),
    {
        let r = self.elc.run_program(program);
        if r.is_ok() {
            let _ = self.elc.reset();
        }
        r
    }

    /// Sleep slots off, charged and charging slots in the color, the battery
    /// slot at half of each channel, the low-battery slot flashing red.
    pub fn set_static(&mut self, red: u8, green: u8, blue: u8) -> (r: Result<(), ElcError>)
        ensures
            programmed(
                old(self).completed(),
                final(self).completed(),
                old(self).resets(),
                final(self).resets(),
                static_program(red, green, blue),
                r,
            ),
    {
        self.apply(&make_static_program(red, green, blue))
    }

    /// As `set_static`, with the three lit slots morphing to the complement
    /// of the color and back.
    pub fn set_morph(&mut self, red: u8, green: u8, blue: u8, duration: u16) -> (r: Result<
        (),
        ElcError,
    >)
        ensures
            programmed(
                old(self).completed(),
                final(self).completed(),
                old(self).resets(),
                final(self).resets(),
                morph_lighting_program(red, green, blue, duration),
                r,
            ),
    {
        self.apply(&make_morph_program(red, green, blue, duration))
    }

    /// Keyboard zones in one color, the numpad cycling through the rotations
    /// of another.
    pub fn set_color_and_morph(
        &mut self,
        red: u8,
        green: u8,
        blue: u8,
        red_morph: u8,
        green_morph: u8,
        blue_morph: u8,
        duration: u16,
    ) -> (r: Result<(), ElcError>)
        ensures
            programmed(
                old(self).completed(),
                final(self).completed(),
                old(self).resets(),
                final(self).resets(),
                color_and_morph_lighting_program(
                    red,
                    green,
                    blue,
                    red_morph,
                    green_morph,
                    blue_morph,
                    duration,
                ),
                r,
            ),
    {
        self.apply(
            &make_color_and_morph_program(
                red,
                green,
                blue,
                red_morph,
                green_morph,
                blue_morph,
                duration,
            ),
        )
    }

    /// As `set_static`, with the three lit slots pulsing at `speed`.
    pub fn set_pulse(&mut self, red: u8, green: u8, blue: u8, speed: u8) -> (r: Result<
        (),
        ElcError,
    >)
        ensures
            programmed(
                old(self).completed(),
                final(self).completed(),
                old(self).resets(),
                final(self).resets(),
                pulse_program(red, green, blue, speed),
                r,
            ),
    {
        self.apply(&make_pulse_program(red, green, blue, speed))
    }

    /// One color per physical zone.
    pub fn set_four_zone_colors(&mut self, colors: &[(u8, u8, u8)]) -> (r: Result<(), ElcError>)
        requires
            colors@.len() == 4,
        ensures
            programmed(
                old(self).completed(),
                final(self).completed(),
                old(self).resets(),
                final(self).resets(),
                four_zone_program(colors@),
                r,
            ),
    {
        self.apply(&make_four_zone_program(colors))
    }

    /// Static black (with its reset), then dimming level 100, then one more
    /// reset.
    pub fn remove_all_animations(&mut self) -> (r: Result<(), ElcError>)
        ensures
            cleared(
                old(self).completed(),
                final(self).completed(),
                old(self).resets(),
                final(self).resets(),
                r,
            ),
    {
        let ghost before = self.completed();
        let ghost resets_before = self.resets();
        let ghost d = seq![dim_fragment(zones_all(), 100)];
        self.set_static(0, 0, 0)?;
        let ghost mid = self.completed();
        let r = self.set_dim(100);
        proof {
            if r is Err {
                let k = choose|k: int|
                    0 <= k < d.len() && self.completed() == mid + frames_of(#[trigger] d.take(k));
                assert(k == 0);
                assert(frames_of(d.take(0)) =~= Seq::<Seq<u8>>::empty());
                assert(self.completed() =~= mid);
            }
        }
        if r.is_ok() {
            let _ = self.elc.reset();
        }
        r
    }

    /// Sets the dimming level of every zone at once.
    pub fn set_dim(&mut self, level: u8) -> (r: Result<(), ElcError>)
        ensures
            sent_in_order(
                old(self).completed(),
                final(self).completed(),
                seq![dim_fragment(zones_all(), level)],
                r,
            ),
            final(self).resets() == old(self).resets(),
    {
        let zones = zones_all_vec();
        self.elc.dim(zones.as_slice(), level)
    }
}

/// What clearing the lighting leaves in the controller's logs. On success:
/// the reports of static black, a reset, the report of dimming level 100,
/// another reset. On a failure within static black: a prefix of its reports
/// and no reset. On a failure of the dimming: static black with its reset.
pub open spec fn cleared(
    before: Seq<Seq<u8>>,
    after: Seq<Seq<u8>>,
    resets_before: Seq<nat>,
    resets_after: Seq<nat>,
    r: Result<(), ElcError>,
) -> bool {
    let s = static_program(0, 0, 0);
    let mid = before + frames_of(s);
    let d = seq![dim_fragment(zones_all(), 100)];
    match r {
        Ok(_) => after == mid + frames_of(d) && resets_after == resets_before.push(mid.len()).push(
            after.len(),
        ),
        Err(e) => e is Transport && ((exists|k: int|
            0 <= k < s.len() && after == before + frames_of(#[trigger] s.take(k))
                && resets_after == resets_before) || (after == mid && resets_after
            == resets_before.push(mid.len()))),
    }
}

} // verus!
