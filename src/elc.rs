//! The lighting controller's command codec: actions, command fragments, the
//! 33-byte report frame, and `Elc`, which sends one frame and reads one reply
//! per command.
use vstd::prelude::*;
use crate::elc_constants::{
    ADD_ACTION, DIMMING, ELC_QUERY, FINISH_SAVE, GET_ANIMATION_COUNT, GET_VERSION,
    POWER_ANIMATION, REMOVE, SET_COLOR, SET_DEFAULT, START_NEW, START_SERIES, USER_ANIMATION,
};
use crate::hid_report::{hid_get_input_report, hid_set_output_report, reset_device, UsbHandle};

verus! {

/// The length of every report, out and in.
pub const FRAME_LEN: usize = 33;

/// The first byte of every output report.
pub const REPORT_MARKER: u8 = 0x03;

/// The most actions that one `add_action` may carry.
pub const MAX_ACTIONS: usize = 3;

/// Why a lighting command failed.
#[derive(Debug, Clone, Copy)]
pub enum ElcError {
    /// More than three actions were given to one `add_action`.
    TooManyActions,
    /// No supported lighting controller could be opened.
    NoDevice,
    /// A USB transfer failed; the error `rusb` gave.
    Transport(rusb::Error),
}

/// One step of an animation: an effect held for a duration at a tempo, in one
/// color.
#[derive(Debug, Clone, Copy, PartialEq, Eq, Structural)]
pub struct Action {
    pub effect: u8,
    pub duration: u16,
    pub tempo: u16,
    pub red: u8,
    pub green: u8,
    pub blue: u8,
}

/// The high byte of a 16-bit value.
pub open spec fn hi(x: u16) -> u8 {
    (x / 256) as u8
}

/// The low byte of a 16-bit value.
pub open spec fn lo(x: u16) -> u8 {
    (x % 256) as u8
}

/// An action as the controller reads it: effect, duration and tempo big-endian,
/// then red, green, blue.
pub open spec fn action_bytes(a: Action) -> Seq<u8> {
    seq![a.effect, hi(a.duration), lo(a.duration), hi(a.tempo), lo(a.tempo), a.red, a.green, a.blue]
}

/// Actions one after the other.
pub open spec fn actions_bytes(s: Seq<Action>) -> Seq<u8>
    decreases s.len(),
{
    if s.len() == 0 {
        seq![]
    } else {
        actions_bytes(s.drop_last()) + action_bytes(s.last())
    }
}

impl Action {
    pub fn new(effect: u8, duration: u16, tempo: u16, red: u8, green: u8, blue: u8) -> (r: Action)
        ensures
            r == (Action { effect, duration, tempo, red, green, blue }),
    {
        Action { effect, duration, tempo, red, green, blue }
    }

    pub fn to_bytes(&self) -> (r: Vec<u8>)
        ensures
            r@ == action_bytes(*self),
    {
        let r = vec![
            self.effect,
            (self.duration / 256) as u8,
            (self.duration % 256) as u8,
            (self.tempo / 256) as u8,
            (self.tempo % 256) as u8,
            self.red,
            self.green,
            self.blue,
        ];
        assert(r@ =~= action_bytes(*self));
        r
    }
}

/// The namespace opcode of an animation slot: ids `0x5B` to `0x60` inclusive
/// are power animations, every other id a user animation.
pub open spec fn namespace(id: u16) -> u8 {
    if 0x5b <= id && id <= 0x60 {
        POWER_ANIMATION
    } else {
        USER_ANIMATION
    }
}

/// A sub-command of the animation namespaces on slot `id`.
pub open spec fn animation_fragment(sub: u16, id: u16) -> Seq<u8> {
    seq![namespace(id), hi(sub), lo(sub), hi(id), lo(id)]
}

/// A zone list: its length, 16 bits big-endian, then the zones.
pub open spec fn zone_list(zones: Seq<u8>) -> Seq<u8> {
    seq![hi(zones.len() as u16), lo(zones.len() as u16)] + zones
}

/// Starts a series of actions on some zones.
pub open spec fn series_fragment(zones: Seq<u8>, loop_count: u8) -> Seq<u8> {
    seq![START_SERIES, loop_count] + zone_list(zones)
}

/// Adds actions to the current series.
pub open spec fn actions_fragment(actions: Seq<Action>) -> Seq<u8> {
    seq![ADD_ACTION] + actions_bytes(actions)
}

/// Sets the dimming level of some zones.
pub open spec fn dim_fragment(zones: Seq<u8>, level: u8) -> Seq<u8> {
    seq![DIMMING, level] + zone_list(zones)
}

/// Sets some zones to one color at once.
pub open spec fn color_fragment(zones: Seq<u8>, red: u8, green: u8, blue: u8) -> Seq<u8> {
    seq![SET_COLOR, red, green, blue] + zone_list(zones)
}

/// The output report that carries a fragment: the marker, then the fragment,
/// zero-padded or cut to 33 bytes.
pub open spec fn frame(fragment: Seq<u8>) -> Seq<u8> {
    (seq![REPORT_MARKER] + fragment + Seq::new(FRAME_LEN as nat, |i: int| 0u8)).subrange(
        0,
        FRAME_LEN as int,
    )
}

/// Appends `src` to `dst`.
pub fn push_all(dst: &mut Vec<u8>, src: &[u8])
    ensures
        final(dst)@ == old(dst)@ + src@,
{
    let ghost start = dst@;
    let mut i: usize = 0;
    while i < src.len()
        invariant
            i <= src@.len(),
            dst@ == start + src@.subrange(0, i as int),
        decreases src@.len() - i,
    {
        dst.push(src[i]);
        i += 1;
        assert(dst@ =~= start + src@.subrange(0, i as int));
    }
    assert(src@.subrange(0, src@.len() as int) =~= src@);
}

/// The namespace opcode of slot `animation`.
pub fn animation_namespace(animation: u16) -> (r: u8)
    ensures
        r == namespace(animation),
        r == POWER_ANIMATION <==> 0x5b <= animation <= 0x60,
{
    if animation < 0x5b || animation > 0x60 {
        USER_ANIMATION
    } else {
        POWER_ANIMATION
    }
}

pub fn make_animation_fragment(sub: u16, animation: u16) -> (r: Vec<u8>)
    ensures
        r@ == animation_fragment(sub, animation),
{
    let r = vec![
        animation_namespace(animation),
        (sub / 256) as u8,
        (sub % 256) as u8,
        (animation / 256) as u8,
        (animation % 256) as u8,
    ];
    assert(r@ =~= animation_fragment(sub, animation));
    r
}

fn make_zone_list(head: Vec<u8>, zones: &[u8]) -> (r: Vec<u8>)
    ensures
        r@ == head@ + zone_list(zones@),
{
    let mut r = head;
    let n = zones.len() as u16;
    r.push((n / 256) as u8);
    r.push((n % 256) as u8);
    push_all(&mut r, zones);
    assert(r@ =~= head@ + zone_list(zones@));
    r
}

pub fn make_series_fragment(zones: &[u8], loop_count: u8) -> (r: Vec<u8>)
    ensures
        r@ == series_fragment(zones@, loop_count),
{
    let r = make_zone_list(vec![START_SERIES, loop_count], zones);
    assert(r@ =~= series_fragment(zones@, loop_count));
    r
}

pub fn make_dim_fragment(zones: &[u8], level: u8) -> (r: Vec<u8>)
    ensures
        r@ == dim_fragment(zones@, level),
{
    let r = make_zone_list(vec![DIMMING, level], zones);
    assert(r@ =~= dim_fragment(zones@, level));
    r
}

pub fn make_color_fragment(zones: &[u8], red: u8, green: u8, blue: u8) -> (r: Vec<u8>)
    ensures
        r@ == color_fragment(zones@, red, green, blue),
{
    let r = make_zone_list(vec![SET_COLOR, red, green, blue], zones);
    assert(r@ =~= color_fragment(zones@, red, green, blue));
    r
}

/// The `add_action` command for `actions`, whatever their number.
pub fn encode_actions(actions: &[Action]) -> (r: Vec<u8>)
    ensures
        r@ == actions_fragment(actions@),
{
    let mut r: Vec<u8> = vec![ADD_ACTION];
    let mut i: usize = 0;
    while i < actions.len()
        invariant
            i <= actions@.len(),
            r@ == seq![ADD_ACTION] + actions_bytes(actions@.subrange(0, i as int)),
        decreases actions@.len() - i,
    {
        let b = actions[i].to_bytes();
        push_all(&mut r, b.as_slice());
        assert(actions@.subrange(0, i + 1).drop_last() =~= actions@.subrange(0, i as int));
        i += 1;
        assert(r@ =~= seq![ADD_ACTION] + actions_bytes(actions@.subrange(0, i as int)));
    }
    assert(actions@.subrange(0, actions@.len() as int) =~= actions@);
    r
}

/// The fragment of `add_action`, refused before anything is sent when it
/// would carry more than three actions.
pub fn make_actions_fragment(actions: &[Action]) -> (r: Result<Vec<u8>, ElcError>)
    ensures
        actions@.len() > MAX_ACTIONS ==> r matches Err(ElcError::TooManyActions),
        actions@.len() <= MAX_ACTIONS ==> r is Ok && r->Ok_0@ == actions_fragment(actions@),
{
    if actions.len() > MAX_ACTIONS {
        return Err(ElcError::TooManyActions);
    }
    Ok(encode_actions(actions))
}

/// The firmware version that a `GET_VERSION` reply carries.
pub fn decode_version(reply: &Vec<u8>) -> (r: (u8, u8, u8))
    requires
        reply@.len() >= 6,
    ensures
        r == (reply@[3], reply@[4], reply@[5]),
{
    (reply[3], reply[4], reply[5])
}

/// The animation count and the size of the animation store (16 bits,
/// little-endian) that a `GET_ANIMATION_COUNT` reply carries.
pub fn decode_animation_count(reply: &Vec<u8>) -> (r: (u8, u16))
    requires
        reply@.len() >= 6,
    ensures
        r.0 == reply@[3],
        r.1 == reply@[4] + 256 * reply@[5],
{
    (reply[3], reply[4] as u16 + 256 * (reply[5] as u16))
}

/// The command fragments of a program, in the order they are sent.
pub open spec fn frags(p: Seq<Vec<u8>>) -> Seq<Seq<u8>> {
    p.map_values(|f: Vec<u8>| f@)
}

/// The reports that carry a sequence of fragments.
pub open spec fn frames_of(p: Seq<Seq<u8>>) -> Seq<Seq<u8>> {
    p.map_values(|f: Seq<u8>| frame(f))
}

/// What sending the fragments `p` one by one leaves in the log of completed
/// reports: all of them on success; on a failure, which is the transport's,
/// the ones before the failing fragment and none after it.
pub open spec fn sent_in_order<T>(
    before: Seq<Seq<u8>>,
    after: Seq<Seq<u8>>,
    p: Seq<Seq<u8>>,
    r: Result<T, ElcError>,
) -> bool {
    match r {
        Ok(_) => after == before + frames_of(p),
        Err(e) => e is Transport && exists|k: int|
            0 <= k < p.len() && after == before + frames_of(#[trigger] p.take(k)),
    }
}

/// Whether a failed command failed on the transport.
pub open spec fn transport_only<T>(r: Result<T, ElcError>) -> bool {
    r is Err ==> r->Err_0 is Transport
}

/// The lighting controller, over the USB handle it exclusively owns.
pub struct Elc {
    handle: UsbHandle,
    completed: Ghost<Seq<Seq<u8>>>,
    resets: Ghost<Seq<nat>>,
}

impl Elc {
    /// The reports sent so far that the device answered, in order.
    pub closed spec fn completed(&self) -> Seq<Seq<u8>> {
        self.completed@
    }

    /// For each reset attempted so far, in order, the number of completed
    /// reports that preceded it.
    pub closed spec fn resets(&self) -> Seq<nat> {
        self.resets@
    }

    pub fn new(handle: UsbHandle, _debug: bool) -> (r: Elc)
        ensures
            r.completed() == Seq::<Seq<u8>>::empty(),
            r.resets() == Seq::<nat>::empty(),
    {
        Elc { handle, completed: Ghost(Seq::empty()), resets: Ghost(Seq::empty()) }
    }

    /// The output report that carries `fragment`.
    pub fn build_command(fragment: &[u8]) -> (r: Vec<u8>)
        ensures
            r@ == frame(fragment@),
    {
        let mut bytes: Vec<u8> = vec![REPORT_MARKER];
        let mut i: usize = 0;
        while bytes.len() < FRAME_LEN
            invariant
                bytes@.len() <= FRAME_LEN,
                bytes@.len() >= 1,
                i == bytes@.len() - 1,
                bytes@ == (seq![REPORT_MARKER] + fragment@ + Seq::new(
                    FRAME_LEN as nat,
                    |j: int| 0u8,
                )).subrange(0, bytes@.len() as int),
            decreases FRAME_LEN - bytes@.len(),
        {
            let b = if i < fragment.len() {
                fragment[i]
            } else {
                0u8
            };
            bytes.push(b);
            i += 1;
            assert(bytes@ =~= (seq![REPORT_MARKER] + fragment@ + Seq::new(
                FRAME_LEN as nat,
                |j: int| 0u8,
            )).subrange(0, bytes@.len() as int));
        }
        bytes
    }

    /// Sends one output report carrying `fragment` and reads the 33-byte
    /// input report that answers it.
    pub fn run_command(&mut self, fragment: &[u8]) -> (r: Result<Vec<u8>, ElcError>)
        ensures
            r is Ok ==> r->Ok_0@.len() == FRAME_LEN,
            sent_in_order(old(self).completed(), final(self).completed(), seq![fragment@], r),
            final(self).resets() == old(self).resets(),
    {
        let ghost before = self.completed@;
        proof {
            assert(frames_of(seq![fragment@].take(0)) =~= Seq::<Seq<u8>>::empty());
            assert(before + Seq::<Seq<u8>>::empty() =~= before);
        }
        let bytes = Elc::build_command(fragment);
        if let Err(e) = hid_set_output_report(&self.handle, bytes.as_slice(), 0) {
            return Err(ElcError::Transport(e));
        }
        match hid_get_input_report(&self.handle, FRAME_LEN, 0) {
            Ok(reply) => {
                proof {
                    self.completed@ = self.completed@.push(bytes@);
                    assert(before + frames_of(seq![fragment@]) =~= self.completed@);
                }
                Ok(reply)
            },
            Err(e) => Err(ElcError::Transport(e)),
        }
    }

    fn run(&mut self, fragment: &[u8]) -> (r: Result<(), ElcError>)
        ensures
            sent_in_order(old(self).completed(), final(self).completed(), seq![fragment@], r),
            final(self).resets() == old(self).resets(),
    {
        match self.run_command(fragment) {
            Ok(_) => Ok(()),
            Err(e) => Err(e),
        }
    }

    /// Sends `program` fragment by fragment and stops at the first failure.
    pub fn run_program(&mut self, program: &Vec<Vec<u8>>) -> (r: Result<(), ElcError>)
        ensures
            sent_in_order(
                old(self).completed(),
                final(self).completed(),
                frags(program@),
                r,
            ),
            final(self).resets() == old(self).resets(),
    {
        let ghost before = self.completed();
        let ghost p = frags(program@);
        let mut i: usize = 0;
        while i < program.len()
            invariant
                i <= program.len(),
                p == frags(program@),
                old(self).completed() == before,
                old(self).resets() == self.resets(),
                self.completed() == before + frames_of(p.take(i as int)),
            decreases program.len() - i,
        {
            let ghost mid = self.completed();
            match self.run_command(program[i].as_slice()) {
                Ok(_) => {},
                Err(e) => {
                    let ghost one = seq![program@[i as int]@];
                    proof {
                        let k = choose|k: int|
                            0 <= k < one.len() && self.completed() == mid + frames_of(
                                #[trigger] one.take(k),
                            );
                        assert(k == 0);
                        assert(frames_of(one.take(0)) =~= Seq::<Seq<u8>>::empty());
                        assert(self.completed() =~= mid);
                        assert(0 <= i < p.len() && self.completed() == before + frames_of(
                            p.take(i as int),
                        ));
                    }
                    return Err(e);
                },
            }
            assert(p.take(i + 1) =~= p.take(i as int).push(p[i as int]));
            assert(frames_of(p.take(i + 1)) =~= frames_of(p.take(i as int)) + frames_of(seq![p[i as int]]));
            i += 1;
            assert(self.completed() =~= before + frames_of(p.take(i as int)));
        }
        assert(p.take(i as int) =~= p);
        Ok(())
    }

    /// Resets the USB device, so that the firmware reloads its saved
    /// animations.
    pub fn reset(&mut self) -> (r: Result<(), ElcError>)
        ensures
            transport_only(r),
            final(self).completed() == old(self).completed(),
            final(self).resets() == old(self).resets().push(old(self).completed().len()),
    {
        proof {
            self.resets@ = self.resets@.push(self.completed@.len());
        }
        match reset_device(&self.handle) {
            Ok(()) => Ok(()),
            Err(e) => Err(ElcError::Transport(e)),
        }
    }

    pub fn get_version(&mut self) -> (r: Result<(u8, u8, u8), ElcError>)
        ensures
            sent_in_order(
                old(self).completed(),
                final(self).completed(),
                seq![seq![ELC_QUERY, GET_VERSION]],
                r,
            ),
            final(self).resets() == old(self).resets(),
    {
        let fragment = vec![ELC_QUERY, GET_VERSION];
        assert(fragment@ =~= seq![ELC_QUERY, GET_VERSION]);
        match self.run_command(fragment.as_slice()) {
            Ok(reply) => Ok(decode_version(&reply)),
            Err(e) => Err(e),
        }
    }

    pub fn get_animation_count(&mut self) -> (r: Result<(u8, u16), ElcError>)
        ensures
            sent_in_order(
                old(self).completed(),
                final(self).completed(),
                seq![seq![ELC_QUERY, GET_ANIMATION_COUNT]],
                r,
            ),
            final(self).resets() == old(self).resets(),
    {
        let fragment = vec![ELC_QUERY, GET_ANIMATION_COUNT];
        assert(fragment@ =~= seq![ELC_QUERY, GET_ANIMATION_COUNT]);
        match self.run_command(fragment.as_slice()) {
            Ok(reply) => Ok(decode_animation_count(&reply)),
            Err(e) => Err(e),
        }
    }

    pub fn start_new_animation(&mut self, animation: u16) -> (r: Result<(), ElcError>)
        ensures
            sent_in_order(
                old(self).completed(),
                final(self).completed(),
                seq![animation_fragment(START_NEW, animation)],
                r,
            ),
            final(self).resets() == old(self).resets(),
    {
        self.run(make_animation_fragment(START_NEW, animation).as_slice())
    }

    pub fn finish_save_animation(&mut self, animation: u16) -> (r: Result<(), ElcError>)
        ensures
            sent_in_order(
                old(self).completed(),
                final(self).completed(),
                seq![animation_fragment(FINISH_SAVE, animation)],
                r,
            ),
            final(self).resets() == old(self).resets(),
    {
        self.run(make_animation_fragment(FINISH_SAVE, animation).as_slice())
    }

    pub fn remove_animation(&mut self, animation: u16) -> (r: Result<(), ElcError>)
        ensures
            sent_in_order(
                old(self).completed(),
                final(self).completed(),
                seq![animation_fragment(REMOVE, animation)],
                r,
            ),
            final(self).resets() == old(self).resets(),
    {
        self.run(make_animation_fragment(REMOVE, animation).as_slice())
    }

    pub fn set_default_animation(&mut self, animation: u16) -> (r: Result<(), ElcError>)
        ensures
            sent_in_order(
                old(self).completed(),
                final(self).completed(),
                seq![animation_fragment(SET_DEFAULT, animation)],
                r,
            ),
            final(self).resets() == old(self).resets(),
    {
        self.run(make_animation_fragment(SET_DEFAULT, animation).as_slice())
    }

    pub fn start_series(&mut self, zones: &[u8], loop_count: u8) -> (r: Result<(), ElcError>)
        ensures
            sent_in_order(
                old(self).completed(),
                final(self).completed(),
                seq![series_fragment(zones@, loop_count)],
                r,
            ),
            final(self).resets() == old(self).resets(),
    {
        self.run(make_series_fragment(zones, loop_count).as_slice())
    }

    /// Adds up to three actions to the current series; more are refused
    /// before anything is sent.
    pub fn add_action(&mut self, actions: &[Action]) -> (r: Result<(), ElcError>)
        ensures
            actions@.len() > MAX_ACTIONS ==> (r matches Err(ElcError::TooManyActions)),
            actions@.len() > MAX_ACTIONS ==> final(self).completed() == old(self).completed(),
            final(self).resets() == old(self).resets(),
            actions@.len() <= MAX_ACTIONS ==> sent_in_order(
                old(self).completed(),
                final(self).completed(),
                seq![actions_fragment(actions@)],
                r,
            ),
    {
        let fragment = match make_actions_fragment(actions) {
            Ok(f) => f,
            Err(e) => return Err(e),
        };
        self.run(fragment.as_slice())
    }

    pub fn dim(&mut self, zones: &[u8], dimming: u8) -> (r: Result<(), ElcError>)
        ensures
            sent_in_order(
                old(self).completed(),
                final(self).completed(),
                seq![dim_fragment(zones@, dimming)],
                r,
            ),
            final(self).resets() == old(self).resets(),
    {
        self.run(make_dim_fragment(zones, dimming).as_slice())
    }

    pub fn set_color(&mut self, zones: &[u8], red: u8, green: u8, blue: u8) -> (r: Result<
        (),
        ElcError,
    >)
        ensures
            sent_in_order(
                old(self).completed(),
                final(self).completed(),
                seq![color_fragment(zones@, red, green, blue)],
                r,
            ),
            final(self).resets() == old(self).resets(),
    {
        self.run(make_color_fragment(zones, red, green, blue).as_slice())
    }
}

} // verus!
