//! The ACPI gateway: the WMAX command table, the call expression written to
//! the kernel's ACPI-call interface, the reading of its reply, sensor
//! decoding, and the controller that detection configures.
//!
//! The privileged process that carries a call out is the caller's: each
//! function that talks to the firmware takes it as `exec`, a function from the
//! shell script to run to the process's exit code and standard output. What
//! these functions return is stated for every output `exec` may give.
use vstd::prelude::*;
use vstd::string::*;
use crate::model::{
    dmi_match, match_dmi, mode_table, model_for_code, model_from_code, offers, LaptopModel,
    Platform, PowerMode, platform_path,
};
use crate::text::{
    chars_of, hex_byte, hex_byte_upper, hex_run_end, push_hex_byte_upper, hex_value, leading_hex, parse_hex_u32, push_hex_byte,
    skip_end, str_eq, trim, trim_bounds, trim_class, trim_end_class, CharClass,
};

verus! {

/// Why a gateway operation failed.
#[derive(Debug, Clone, Copy, PartialEq, Eq, Structural)]
pub enum AcpiError {
    /// The command name is not in the WMAX table.
    CommandNotFound,
    /// The power mode is not in the detected model's table.
    UnknownPowerMode,
    /// The fan or temperature sensor does not exist.
    InvalidSensor,
    /// The user declined or dismissed the elevation prompt.
    AuthorizationDenied,
    /// The privileged process ended with another status than success; its
    /// exit code, when it had one.
    AcpiCallFailed(Option<i32>),
    /// The process printed no line with content.
    NoResponse,
    /// A reply that had to be a number was not one.
    ParseError,
}

/// What the privileged process left behind.
#[derive(Debug)]
pub struct ProcessOutput {
    /// The exit code; `None` when the process could not start or was killed.
    pub exit_code: Option<i32>,
    /// Standard output, decoded as UTF-8.
    pub stdout: String,
}

/// A WMAX command of the fixed table.
#[derive(Debug, Clone, Copy, PartialEq, Eq, Structural)]
pub enum AcpiCommand {
    GetLaptopModel,
    GetPowerMode,
    SetPowerMode,
    ToggleGMode,
    GetGMode,
    SetFan1Boost,
    GetFan1Boost,
    GetFan1Rpm,
    GetCpuTemp,
    SetFan2Boost,
    GetFan2Boost,
    GetFan2Rpm,
    GetGpuTemp,
}

/// The opcode bytes of each command.
pub open spec fn opcode_of(c: AcpiCommand) -> Seq<u8> {
    match c {
        AcpiCommand::GetLaptopModel => seq![0x1au8, 0x02, 0x02],
        AcpiCommand::GetPowerMode => seq![0x14u8, 0x0b, 0x00],
        AcpiCommand::SetPowerMode => seq![0x15u8, 0x01],
        AcpiCommand::ToggleGMode => seq![0x25u8, 0x01],
        AcpiCommand::GetGMode => seq![0x25u8, 0x02],
        AcpiCommand::SetFan1Boost => seq![0x15u8, 0x02, 0x32],
        AcpiCommand::GetFan1Boost => seq![0x14u8, 0x0c, 0x32],
        AcpiCommand::GetFan1Rpm => seq![0x14u8, 0x05, 0x32],
        AcpiCommand::GetCpuTemp => seq![0x14u8, 0x04, 0x01],
        AcpiCommand::SetFan2Boost => seq![0x15u8, 0x02, 0x33],
        AcpiCommand::GetFan2Boost => seq![0x14u8, 0x0c, 0x33],
        AcpiCommand::GetFan2Rpm => seq![0x14u8, 0x05, 0x33],
        AcpiCommand::GetGpuTemp => seq![0x14u8, 0x04, 0x06],
    }
}

/// The command that a name designates, if any.
pub open spec fn command_named(s: Seq<char>) -> Option<AcpiCommand> {
    if s == "get_laptop_model"@ {
        Some(AcpiCommand::GetLaptopModel)
    } else if s == "get_power_mode"@ {
        Some(AcpiCommand::GetPowerMode)
    } else if s == "set_power_mode"@ {
        Some(AcpiCommand::SetPowerMode)
    } else if s == "toggle_G_mode"@ {
        Some(AcpiCommand::ToggleGMode)
    } else if s == "get_G_mode"@ {
        Some(AcpiCommand::GetGMode)
    } else if s == "set_fan1_boost"@ {
        Some(AcpiCommand::SetFan1Boost)
    } else if s == "get_fan1_boost"@ {
        Some(AcpiCommand::GetFan1Boost)
    } else if s == "get_fan1_rpm"@ {
        Some(AcpiCommand::GetFan1Rpm)
    } else if s == "get_cpu_temp"@ {
        Some(AcpiCommand::GetCpuTemp)
    } else if s == "set_fan2_boost"@ {
        Some(AcpiCommand::SetFan2Boost)
    } else if s == "get_fan2_boost"@ {
        Some(AcpiCommand::GetFan2Boost)
    } else if s == "get_fan2_rpm"@ {
        Some(AcpiCommand::GetFan2Rpm)
    } else if s == "get_gpu_temp"@ {
        Some(AcpiCommand::GetGpuTemp)
    } else {
        None
    }
}

impl AcpiCommand {
    pub fn opcode(&self) -> (r: Vec<u8>)
        ensures
            r@ == opcode_of(*self),
            2 <= r@.len() <= 4,
    {
        let r = match self {
            AcpiCommand::GetLaptopModel => vec![0x1au8, 0x02, 0x02],
            AcpiCommand::GetPowerMode => vec![0x14u8, 0x0b, 0x00],
            AcpiCommand::SetPowerMode => vec![0x15u8, 0x01],
            AcpiCommand::ToggleGMode => vec![0x25u8, 0x01],
            AcpiCommand::GetGMode => vec![0x25u8, 0x02],
            AcpiCommand::SetFan1Boost => vec![0x15u8, 0x02, 0x32],
            AcpiCommand::GetFan1Boost => vec![0x14u8, 0x0c, 0x32],
            AcpiCommand::GetFan1Rpm => vec![0x14u8, 0x05, 0x32],
            AcpiCommand::GetCpuTemp => vec![0x14u8, 0x04, 0x01],
            AcpiCommand::SetFan2Boost => vec![0x15u8, 0x02, 0x33],
            AcpiCommand::GetFan2Boost => vec![0x14u8, 0x0c, 0x33],
            AcpiCommand::GetFan2Rpm => vec![0x14u8, 0x05, 0x33],
            AcpiCommand::GetGpuTemp => vec![0x14u8, 0x04, 0x06],
        };
        assert(r@ =~= opcode_of(*self));
        r
    }

    pub fn from_name(s: &str) -> (r: Option<AcpiCommand>)
        ensures
            r == command_named(s@),
    {
        if str_eq(s, "get_laptop_model") {
            Some(AcpiCommand::GetLaptopModel)
        } else if str_eq(s, "get_power_mode") {
            Some(AcpiCommand::GetPowerMode)
        } else if str_eq(s, "set_power_mode") {
            Some(AcpiCommand::SetPowerMode)
        } else if str_eq(s, "toggle_G_mode") {
            Some(AcpiCommand::ToggleGMode)
        } else if str_eq(s, "get_G_mode") {
            Some(AcpiCommand::GetGMode)
        } else if str_eq(s, "set_fan1_boost") {
            Some(AcpiCommand::SetFan1Boost)
        } else if str_eq(s, "get_fan1_boost") {
            Some(AcpiCommand::GetFan1Boost)
        } else if str_eq(s, "get_fan1_rpm") {
            Some(AcpiCommand::GetFan1Rpm)
        } else if str_eq(s, "get_cpu_temp") {
            Some(AcpiCommand::GetCpuTemp)
        } else if str_eq(s, "set_fan2_boost") {
            Some(AcpiCommand::SetFan2Boost)
        } else if str_eq(s, "get_fan2_boost") {
            Some(AcpiCommand::GetFan2Boost)
        } else if str_eq(s, "get_fan2_rpm") {
            Some(AcpiCommand::GetFan2Rpm)
        } else if str_eq(s, "get_gpu_temp") {
            Some(AcpiCommand::GetGpuTemp)
        } else {
            None
        }
    }
}

/// A caller's argument byte, `0x00` when left out.
pub open spec fn arg_or_zero(a: Option<u8>) -> u8 {
    match a {
        Some(b) => b,
        None => 0,
    }
}

/// The four positional bytes of a call: the opcode's own bytes, then as many
/// caller arguments as the opcode leaves room for.
pub open spec fn call_bytes(op: Seq<u8>, a1: Option<u8>, a2: Option<u8>) -> Seq<u8> {
    if op.len() >= 4 {
        op.subrange(0, 4)
    } else if op.len() == 3 {
        op.push(arg_or_zero(a1))
    } else {
        op.push(arg_or_zero(a1)).push(arg_or_zero(a2))
    }
}

/// The WMAX call expression: `<path> 0 <b0> {<b1>, <b2>, <b3>, 0x00}`.
pub open spec fn call_expression(path: Seq<char>, b: Seq<u8>) -> Seq<char> {
    path + " 0 "@ + hex_byte(b[0]) + " {"@ + hex_byte(b[1]) + ", "@ + hex_byte(b[2]) + ", "@
        + hex_byte(b[3]) + ", 0x00}"@
}

/// The shell script that writes a call expression to the ACPI-call interface
/// and reads the answer back.
pub open spec fn call_script(expr: Seq<char>) -> Seq<char> {
    "echo \""@ + expr + "\" > /proc/acpi/call; cat /proc/acpi/call"@
}

/// The script for a command on a platform.
pub open spec fn command_script(p: Platform, c: AcpiCommand, a1: Option<u8>, a2: Option<u8>) -> Seq<
    char,
> {
    call_script(call_expression(platform_path(p), call_bytes(opcode_of(c), a1, a2)))
}

/// Builds the call expression for the positional bytes `b`.
pub fn build_call_expression(path: &str, b: &Vec<u8>) -> (r: String)
    requires
        b@.len() == 4,
    ensures
        r@ == call_expression(path@, b@),
{
    let mut s = String::from_str(path);
    s.append(" 0 ");
    push_hex_byte(&mut s, b[0]);
    s.append(" {");
    push_hex_byte(&mut s, b[1]);
    s.append(", ");
    push_hex_byte(&mut s, b[2]);
    s.append(", ");
    push_hex_byte(&mut s, b[3]);
    s.append(", 0x00}");
    assert(s@ =~= call_expression(path@, b@));
    s
}

/// Builds the script that runs command `c` with the given arguments on
/// platform `p`.
pub fn build_call_script(p: Platform, c: AcpiCommand, a1: Option<u8>, a2: Option<u8>) -> (r:
    String)
    ensures
        r@ == command_script(p, c, a1, a2),
{
    let op = c.opcode();
    let mut b: Vec<u8> = Vec::new();
    let mut i: usize = 0;
    while i < op.len() && i < 4
        invariant
            i <= op.len(),
            i <= 4,
            b@ == op@.subrange(0, i as int),
        decreases op.len() - i,
    {
        b.push(op[i]);
        i += 1;
    }
    let x1 = match a1 {
        Some(v) => v,
        None => 0,
    };
    let x2 = match a2 {
        Some(v) => v,
        None => 0,
    };
    if op.len() == 3 {
        b.push(x1);
    } else if op.len() == 2 {
        b.push(x1);
        b.push(x2);
    }
    assert(b@ =~= call_bytes(opcode_of(c), a1, a2));
    let expr = build_call_expression(p.acpi_path(), &b);
    let mut s = String::from_str("echo \"");
    s.append(expr.as_str());
    s.append("\" > /proc/acpi/call; cat /proc/acpi/call");
    assert(s@ =~= command_script(p, c, a1, a2));
    s
}

/// Scanning `s` backwards from `i`, with the current line ending at `end`:
/// the last line that holds more than white space.
pub open spec fn last_line_from(s: Seq<char>, i: int, end: int) -> Option<Seq<char>>
    decreases i,
{
    if i <= 0 {
        if trim(s.subrange(0, end)).len() > 0 {
            Some(s.subrange(0, end))
        } else {
            None
        }
    } else if s[i - 1] == '\n' {
        if trim(s.subrange(i, end)).len() > 0 {
            Some(s.subrange(i, end))
        } else {
            last_line_from(s, i - 1, i - 1)
        }
    } else {
        last_line_from(s, i - 1, end)
    }
}

/// The last line of `s` that holds more than white space.
pub open spec fn last_content_line(s: Seq<char>) -> Option<Seq<char>> {
    last_line_from(s, s.len() as int, s.len() as int)
}

/// The token that a reply line carries: white space, then trailing `%`, then
/// surrounding `'` taken off.
pub open spec fn reply_token(line: Seq<char>) -> Seq<char> {
    trim_class(trim_end_class(trim(line), CharClass::Exactly('%')), CharClass::Exactly('\''))
}

/// What a finished privileged process means for the call it ran.
pub open spec fn output_reply(exit_code: Option<i32>, stdout: Seq<char>) -> Result<
    Seq<char>,
    AcpiError,
> {
    if exit_code == Some(126i32) || exit_code == Some(127i32) {
        Err(AcpiError::AuthorizationDenied)
    } else if exit_code != Some(0i32) {
        Err(AcpiError::AcpiCallFailed(exit_code))
    } else {
        match last_content_line(stdout) {
            None => Err(AcpiError::NoResponse),
            Some(line) => Ok(reply_token(line)),
        }
    }
}

/// An executable result that agrees with a result over character sequences.
pub open spec fn reply_is(r: Result<String, AcpiError>, x: Result<Seq<char>, AcpiError>) -> bool {
    match x {
        Ok(t) => r is Ok && r->Ok_0@ == t,
        Err(e) => r == Err::<String, AcpiError>(e),
    }
}

/// Bounds of the last line of `v` that holds more than white space.
pub fn last_content_line_bounds(v: &Vec<char>) -> (r: Option<(usize, usize)>)
    ensures
        match r {
            None => last_content_line(v@) is None,
            Some((a, b)) => a <= b <= v.len() && last_content_line(v@) == Some(
                v@.subrange(a as int, b as int),
            ),
        },
{
    let mut i = v.len();
    let mut end = v.len();
    while i > 0
        invariant
            i <= end <= v.len(),
            last_line_from(v@, i as int, end as int) == last_content_line(v@),
        decreases i,
    {
        if v[i - 1] == '\n' {
            let (a, b) = trim_bounds(v, i, end, CharClass::Space);
            if a < b {
                return Some((i, end));
            }
            i -= 1;
            end = i;
        } else {
            i -= 1;
        }
    }
    let (a, b) = trim_bounds(v, 0, end, CharClass::Space);
    if a < b {
        Some((0, end))
    } else {
        None
    }
}

/// Reads the answer of a finished privileged process.
pub fn interpret_output(out: &ProcessOutput) -> (r: Result<String, AcpiError>)
    ensures
        reply_is(r, output_reply(out.exit_code, out.stdout@)),
{
    match out.exit_code {
        Some(126) | Some(127) => Err(AcpiError::AuthorizationDenied),
        Some(0) => {
            let text = out.stdout.as_str();
            let v = chars_of(text);
            match last_content_line_bounds(&v) {
                None => Err(AcpiError::NoResponse),
                Some((a, b)) => {
                    let (c, d) = trim_bounds(&v, a, b, CharClass::Space);
                    let e = skip_end(&v, c, d, CharClass::Exactly('%'));
                    let (f, g) = trim_bounds(&v, c, e, CharClass::Exactly('\''));
                    Ok(String::from_str(text.substring_char(f, g)))
                },
            }
        },
        _ => Err(AcpiError::AcpiCallFailed(out.exit_code)),
    }
}

/// `s` with one leading `0x`, if it has one, taken off.
pub open spec fn strip_hex_prefix(s: Seq<char>) -> Seq<char> {
    if s.len() >= 2 && s[0] == '0' && s[1] == 'x' {
        s.subrange(2, s.len() as int)
    } else {
        s
    }
}

/// The hexadecimal digits a sensor reply carries: a leading `0x` taken off, then
/// trailing NUL characters, then white space, then all from the first
/// character that is not a digit of base 16.
pub open spec fn sensor_digits(t: Seq<char>) -> Seq<char> {
    leading_hex(trim(trim_end_class(strip_hex_prefix(t), CharClass::Exactly('\0'))))
}

/// The reading of a sensor reply: `None` when it carries no digits or a
/// number beyond `u32`; the sentinel `0xFFFFFFFF` (sensor absent) reads as 0.
pub open spec fn sensor_value(t: Seq<char>) -> Option<u32> {
    let d = sensor_digits(t);
    if d.len() == 0 || hex_value(d) > u32::MAX {
        None
    } else if hex_value(d) == 0xFFFF_FFFF {
        Some(0)
    } else {
        Some(hex_value(d) as u32)
    }
}

fn skip_hex_prefix(v: &Vec<char>, lo: usize, hi: usize) -> (r: usize)
    requires
        lo <= hi <= v.len(),
    ensures
        lo <= r <= hi,
        v@.subrange(r as int, hi as int) == strip_hex_prefix(v@.subrange(lo as int, hi as int)),
{
    if hi - lo > 1 && v[lo] == '0' && v[lo + 1] == 'x' {
        assert(v@.subrange(lo as int, hi as int).subrange(2, (hi - lo) as int) =~= v@.subrange(
            lo + 2,
            hi as int,
        ));
        lo + 2
    } else {
        lo
    }
}

/// Decodes a sensor reply token.
pub fn decode_sensor(token: &str) -> (r: Option<u32>)
    ensures
        r == sensor_value(token@),
{
    let v = chars_of(token);
    assert(v@.subrange(0, v@.len() as int) =~= token@);
    let a = skip_hex_prefix(&v, 0, v.len());
    let e = skip_end(&v, a, v.len(), CharClass::Exactly('\0'));
    let (c, d) = trim_bounds(&v, a, e, CharClass::Space);
    let h = hex_run_end(&v, c, d);
    if h == c {
        return None;
    }
    match parse_hex_u32(&v, c, h) {
        None => None,
        Some(x) => if x == 0xFFFF_FFFF {
            Some(0)
        } else {
            Some(x)
        },
    }
}

/// Whether some run of `exec` on `script` gave an output that reads as `x`.
pub open spec fn answered<F: Fn(String) -> ProcessOutput>(
    exec: F,
    script: Seq<char>,
    x: Result<Seq<char>, AcpiError>,
) -> bool {
    exists|s: String, o: ProcessOutput|
        s@ == script && #[trigger] call_ensures(exec, (s,), o) && x == output_reply(
            o.exit_code,
            o.stdout@,
        )
}

/// Runs command `c` on platform `p` through `exec` and reads the answer.
pub fn run_command<F: Fn(String) -> ProcessOutput>(
    p: Platform,
    c: AcpiCommand,
    a1: Option<u8>,
    a2: Option<u8>,
    exec: &F,
) -> (r: Result<String, AcpiError>)
    requires
        forall|s: String| call_requires(*exec, (s,)),
    ensures
        exists|x: Result<Seq<char>, AcpiError>|
            answered(*exec, command_script(p, c, a1, a2), x) && #[trigger] reply_is(r, x),
{
    let script = build_call_script(p, c, a1, a2);
    let ghost sv = script@;
    let out = exec(script);
    let r = interpret_output(&out);
    assert(answered(*exec, sv, output_reply(out.exit_code, out.stdout@)));
    r
}

/// The name for what `str::to_lowercase` returns.
pub uninterp spec fn lowercase_of(s: Seq<char>) -> Seq<char>;

/// Relies on `str::to_lowercase`: the result depends on the characters alone.
#[verifier::external_body]
fn lowercase(s: &str) -> (r: String)
    ensures
        r@ == lowercase_of(s@),
{
    s.to_lowercase()
}

/// The model and platform that a DMI product name designates, matched in
/// lower case.
pub fn detect_from_dmi(product: &str) -> (r: Option<(LaptopModel, Platform)>)
    ensures
        r == dmi_match(lowercase_of(product@)),
{
    let lowered = lowercase(product);
    match_dmi(lowered.as_str())
}

/// The model that a platform's answer to `get_laptop_model` designates.
pub open spec fn probe_model(p: Platform, x: Result<Seq<char>, AcpiError>) -> LaptopModel {
    match x {
        Ok(t) => model_for_code(p, trim(t)),
        Err(_) => LaptopModel::Unknown,
    }
}

/// Whether some probe of platform `p` through `exec` designated model `m`.
pub open spec fn probed<F: Fn(String) -> ProcessOutput>(exec: F, p: Platform, m: LaptopModel) -> bool {
    exists|x: Result<Seq<char>, AcpiError>|
        #[trigger] answered(exec, command_script(p, AcpiCommand::GetLaptopModel, None, None), x)
            && m == probe_model(p, x)
}

fn probe<F: Fn(String) -> ProcessOutput>(p: Platform, exec: &F) -> (r: LaptopModel)
    requires
        forall|s: String| call_requires(*exec, (s,)),
    ensures
        probed(*exec, p, r),
{
    let reply = run_command(p, AcpiCommand::GetLaptopModel, None, None, exec);
    let ghost x = choose|x: Result<Seq<char>, AcpiError>|
        answered(*exec, command_script(p, AcpiCommand::GetLaptopModel, None, None), x)
            && #[trigger] reply_is(reply, x);
    match reply {
        Ok(t) => {
            let v = chars_of(t.as_str());
            assert(v@.subrange(0, v@.len() as int) =~= t@);
            let (a, b) = trim_bounds(&v, 0, v.len(), CharClass::Space);
            let code = t.as_str().substring_char(a, b);
            let m = model_from_code(p, code);
            assert(probe_model(p, x) == m);
            m
        },
        Err(_) => {
            assert(probe_model(p, x) == LaptopModel::Unknown);
            LaptopModel::Unknown
        },
    }
}

/// The gateway to the firmware's WMAX methods, configured by detection.
#[derive(Debug)]
pub struct AcpiController {
    /// The detected model.
    pub model: LaptopModel,
    /// The platform whose ACPI path every call uses.
    pub platform: Platform,
    /// The modes that the detected model offers.
    pub power_modes: Vec<PowerMode>,
}

impl AcpiController {
    /// The mode table agrees with the model's capability descriptor.
    pub open spec fn wf(&self) -> bool {
        &&& forall|m: PowerMode| #[trigger] self.power_modes@.contains(m) <==> offers(self.model, m)
        &&& self.power_modes@.no_duplicates()
    }

    /// A gateway for a model already known.
    pub fn with_model(model: LaptopModel, platform: Platform) -> (r: AcpiController)
        ensures
            r.model == model,
            r.platform == platform,
            r.wf(),
    {
        AcpiController { model, platform, power_modes: mode_table(model) }
    }

    /// Detects the model from the DMI product name, when one was read, and
    /// failing that by asking the Intel platform's firmware, then the AMD
    /// platform's; an inconclusive detection gives `Unknown` on Intel.
    pub fn new<F: Fn(String) -> ProcessOutput>(product: Option<&str>, exec: &F) -> (r:
        AcpiController)
        requires
            forall|s: String| call_requires(*exec, (s,)),
        ensures
            r.wf(),
            match product {
                Some(p) if dmi_match(lowercase_of(p@)) is Some => (r.model, r.platform)
                    == dmi_match(lowercase_of(p@))->Some_0,
                _ => {
                    ||| (probed(*exec, Platform::Intel, r.model) && r.model != LaptopModel::Unknown
                        && r.platform == Platform::Intel)
                    ||| (probed(*exec, Platform::Intel, LaptopModel::Unknown) && probed(
                        *exec,
                        Platform::Amd,
                        r.model,
                    ) && r.model != LaptopModel::Unknown && r.platform == Platform::Amd)
                    ||| (probed(*exec, Platform::Intel, LaptopModel::Unknown) && probed(
                        *exec,
                        Platform::Amd,
                        LaptopModel::Unknown,
                    ) && r.model == LaptopModel::Unknown && r.platform == Platform::Intel)
                },
            },
    {
        if let Some(p) = product {
            if let Some((model, platform)) = detect_from_dmi(p) {
                return AcpiController::with_model(model, platform);
            }
        }
        let intel = probe(Platform::Intel, exec);
        if !matches!(intel, LaptopModel::Unknown) {
            return AcpiController::with_model(intel, Platform::Intel);
        }
        let amd = probe(Platform::Amd, exec);
        if !matches!(amd, LaptopModel::Unknown) {
            return AcpiController::with_model(amd, Platform::Amd);
        }
        AcpiController::with_model(LaptopModel::Unknown, Platform::Intel)
    }

    /// Runs the named WMAX command with up to two argument bytes (missing ones
    /// are `0x00`) and returns the reply token.
    pub fn acpi_call<F: Fn(String) -> ProcessOutput>(
        &self,
        cmd: &str,
        arg1: Option<u8>,
        arg2: Option<u8>,
        exec: &F,
    ) -> (r: Result<String, AcpiError>)
        requires
            forall|s: String| call_requires(*exec, (s,)),
        ensures
            match command_named(cmd@) {
                None => r == Err::<String, AcpiError>(AcpiError::CommandNotFound),
                Some(c) => exists|x: Result<Seq<char>, AcpiError>|
                    answered(*exec, command_script(self.platform, c, arg1, arg2), x)
                        && #[trigger] reply_is(r, x),
            },
    {
        match AcpiCommand::from_name(cmd) {
            None => Err(AcpiError::CommandNotFound),
            Some(c) => run_command(self.platform, c, arg1, arg2, exec),
        }
    }

    /// Switches to the named power mode, when the model's table holds it.
    pub fn set_power_mode<F: Fn(String) -> ProcessOutput>(&self, mode: &str, exec: &F) -> (r:
        Result<(), AcpiError>)
        requires
            forall|s: String| call_requires(*exec, (s,)),
        ensures
            match crate::model::mode_named(mode@) {
                Some(m) if self.power_modes@.contains(m) => exists|x: Result<Seq<char>, AcpiError>|
                    #[trigger] answered(
                        *exec,
                        command_script(
                            self.platform,
                            AcpiCommand::SetPowerMode,
                            Some(crate::model::mode_code(m)),
                            None,
                        ),
                        x,
                    ) && match x {
                        Ok(_) => r is Ok,
                        Err(e) => r == Err::<(), AcpiError>(e),
                    },
                _ => r == Err::<(), AcpiError>(AcpiError::UnknownPowerMode),
            },
    {
        let m = match PowerMode::from_name(mode) {
            Some(m) => m,
            None => return Err(AcpiError::UnknownPowerMode),
        };
        let mut found = false;
        let mut i: usize = 0;
        while i < self.power_modes.len()
            invariant
                i <= self.power_modes.len(),
                found == exists|j: int| 0 <= j < i && self.power_modes@[j] == m,
            decreases self.power_modes.len() - i,
        {
            if self.power_modes[i] == m {
                found = true;
            }
            i += 1;
        }
        if !found {
            return Err(AcpiError::UnknownPowerMode);
        }
        let reply = run_command(self.platform, AcpiCommand::SetPowerMode, Some(m.code()), None, exec);
        match reply {
            Ok(_) => Ok(()),
            Err(e) => Err(e),
        }
    }

    /// Reads the current power-mode code.
    pub fn get_power_mode<F: Fn(String) -> ProcessOutput>(&self, exec: &F) -> (r: Result<
        String,
        AcpiError,
    >)
        requires
            forall|s: String| call_requires(*exec, (s,)),
        ensures
            exists|x: Result<Seq<char>, AcpiError>|
                answered(
                    *exec,
                    command_script(self.platform, AcpiCommand::GetPowerMode, None, None),
                    x,
                ) && #[trigger] reply_is(r, x),
    {
        run_command(self.platform, AcpiCommand::GetPowerMode, None, None, exec)
    }

    /// Sets the boost level of fan 1 or 2: the fan's boost command with the
    /// level written in upper-case hex; it succeeds when the privileged call
    /// exits with status 0, whatever it prints.
    pub fn set_fan_boost<F: Fn(String) -> ProcessOutput>(&self, fan_id: u8, boost: u8, exec: &F) -> (r:
        Result<(), AcpiError>)
        requires
            forall|s: String| call_requires(*exec, (s,)),
        ensures
            fan_id != 1 && fan_id != 2 ==> r == Err::<(), AcpiError>(AcpiError::InvalidSensor),
            fan_id == 1 || fan_id == 2 ==> exists|s: String, o: ProcessOutput|
                s@ == fan_boost_script(self.platform, fan_id, boost) && #[trigger] call_ensures(
                    *exec,
                    (s,),
                    o,
                ) && r == status_result(o.exit_code),
    {
        let c = match fan_id {
            1 => AcpiCommand::SetFan1Boost,
            2 => AcpiCommand::SetFan2Boost,
            _ => return Err(AcpiError::InvalidSensor),
        };
        let op = c.opcode();
        let mut expr = String::from_str(self.platform.acpi_path());
        expr.append(" 0 ");
        push_hex_byte(&mut expr, op[0]);
        expr.append(" {");
        push_hex_byte(&mut expr, op[1]);
        expr.append(", ");
        push_hex_byte(&mut expr, op[2]);
        expr.append(", ");
        push_hex_byte_upper(&mut expr, boost);
        expr.append(", 0x00}");
        let mut script = String::from_str("echo \"");
        script.append(expr.as_str());
        script.append("\" > /proc/acpi/call; cat /proc/acpi/call");
        assert(script@ =~= fan_boost_script(self.platform, fan_id, boost));
        let out = exec(script);
        match out.exit_code {
            Some(126) | Some(127) => Err(AcpiError::AuthorizationDenied),
            Some(0) => Ok(()),
            _ => Err(AcpiError::AcpiCallFailed(out.exit_code)),
        }
    }

    /// Reads a sensor command and decodes its reply.
    fn read_sensor<F: Fn(String) -> ProcessOutput>(&self, c: AcpiCommand, exec: &F) -> (r: Result<
        u32,
        AcpiError,
    >)
        requires
            forall|s: String| call_requires(*exec, (s,)),
        ensures
            exists|x: Result<Seq<char>, AcpiError>|
                #[trigger] answered(*exec, command_script(self.platform, c, None, None), x)
                    && r == sensor_result(x),
    {
        let reply = run_command(self.platform, c, None, None, exec);
        let ghost x = choose|x: Result<Seq<char>, AcpiError>|
            answered(*exec, command_script(self.platform, c, None, None), x)
                && #[trigger] reply_is(reply, x);
        match reply {
            Ok(t) => match decode_sensor(t.as_str()) {
                Some(v) => Ok(v),
                None => Err(AcpiError::ParseError),
            },
            Err(e) => Err(e),
        }
    }

    /// Reads the speed of fan 1 or 2, in RPM.
    pub fn get_fan_rpm<F: Fn(String) -> ProcessOutput>(&self, fan_id: u8, exec: &F) -> (r: Result<
        u32,
        AcpiError,
    >)
        requires
            forall|s: String| call_requires(*exec, (s,)),
        ensures
            fan_id != 1 && fan_id != 2 ==> r == Err::<u32, AcpiError>(AcpiError::InvalidSensor),
            fan_id == 1 || fan_id == 2 ==> exists|x: Result<Seq<char>, AcpiError>|
                #[trigger] answered(
                    *exec,
                    command_script(
                        self.platform,
                        fan_rpm_command(fan_id),
                        None,
                        None,
                    ),
                    x,
                ) && r == sensor_result(x),
    {
        let c = match fan_id {
            1 => AcpiCommand::GetFan1Rpm,
            2 => AcpiCommand::GetFan2Rpm,
            _ => return Err(AcpiError::InvalidSensor),
        };
        self.read_sensor(c, exec)
    }

    /// Reads the temperature of the `"cpu"` or `"gpu"` sensor.
    pub fn get_temp<F: Fn(String) -> ProcessOutput>(&self, sensor: &str, exec: &F) -> (r: Result<
        u32,
        AcpiError,
    >)
        requires
            forall|s: String| call_requires(*exec, (s,)),
        ensures
            sensor@ != "cpu"@ && sensor@ != "gpu"@ ==> r == Err::<u32, AcpiError>(
                AcpiError::InvalidSensor,
            ),
            sensor@ == "cpu"@ || sensor@ == "gpu"@ ==> exists|x: Result<Seq<char>, AcpiError>|
                #[trigger] answered(
                    *exec,
                    command_script(
                        self.platform,
                        temp_command(sensor@),
                        None,
                        None,
                    ),
                    x,
                ) && r == sensor_result(x),
    {
        let c = if str_eq(sensor, "cpu") {
            AcpiCommand::GetCpuTemp
        } else if str_eq(sensor, "gpu") {
            AcpiCommand::GetGpuTemp
        } else {
            return Err(AcpiError::InvalidSensor);
        };
        self.read_sensor(c, exec)
    }
}

/// The command that sets the boost of fan 1 or 2.
pub open spec fn fan_boost_command(fan_id: u8) -> AcpiCommand {
    if fan_id == 1 {
        AcpiCommand::SetFan1Boost
    } else {
        AcpiCommand::SetFan2Boost
    }
}

/// The script that sets the boost of fan 1 or 2: the fan's three opcode
/// bytes, then the level in upper-case hex.
pub open spec fn fan_boost_script(p: Platform, fan_id: u8, boost: u8) -> Seq<char> {
    let op = opcode_of(fan_boost_command(fan_id));
    call_script(
        platform_path(p) + " 0 "@ + hex_byte(op[0]) + " {"@ + hex_byte(op[1]) + ", "@ + hex_byte(
            op[2],
        ) + ", "@ + hex_byte_upper(boost) + ", 0x00}"@,
    )
}

/// What an exit status alone means for a call: success on status 0.
pub open spec fn status_result(exit_code: Option<i32>) -> Result<(), AcpiError> {
    if exit_code == Some(126i32) || exit_code == Some(127i32) {
        Err(AcpiError::AuthorizationDenied)
    } else if exit_code != Some(0i32) {
        Err(AcpiError::AcpiCallFailed(exit_code))
    } else {
        Ok(())
    }
}

/// The command that reads the speed of fan 1 or 2.
pub open spec fn fan_rpm_command(fan_id: u8) -> AcpiCommand {
    if fan_id == 1 {
        AcpiCommand::GetFan1Rpm
    } else {
        AcpiCommand::GetFan2Rpm
    }
}

/// The command that reads the `"cpu"` or `"gpu"` temperature.
pub open spec fn temp_command(sensor: Seq<char>) -> AcpiCommand {
    if sensor == "cpu"@ {
        AcpiCommand::GetCpuTemp
    } else {
        AcpiCommand::GetGpuTemp
    }
}

/// What a sensor query returns for a given reply.
pub open spec fn sensor_result(x: Result<Seq<char>, AcpiError>) -> Result<u32, AcpiError> {
    match x {
        Ok(t) => match sensor_value(t) {
            Some(v) => Ok(v),
            None => Err(AcpiError::ParseError),
        },
        Err(e) => Err(e),
    }
}

/// Argument bytes that a caller leaves out are written as `0x00`: a call
/// without arguments builds the same script as one with two zero arguments,
/// and a two-byte opcode is followed by two zero bytes.
pub proof fn lemma_missing_arguments_are_zero(p: Platform, c: AcpiCommand)
    ensures
        command_script(p, c, None, None) == command_script(p, c, Some(0u8), Some(0u8)),
        opcode_of(c).len() == 2 ==> call_bytes(opcode_of(c), None, None) == opcode_of(c) + seq![
            0u8,
            0u8,
        ],
{
    if opcode_of(c).len() == 2 {
        assert(call_bytes(opcode_of(c), None, None) =~= opcode_of(c) + seq![0u8, 0u8]);
    }
}

/// A sensor reply whose digits read `0xFFFFFFFF` is the absent-sensor
/// sentinel: the query returns 0 and never an error, for fan speeds and
/// temperatures alike.
pub proof fn lemma_sentinel_reads_zero(t: Seq<char>)
    requires
        hex_value(sensor_digits(t)) == 0xFFFF_FFFF,
    ensures
        sensor_value(t) == Some(0u32),
        sensor_result(Ok(t)) == Ok::<u32, AcpiError>(0),
{
}

} // verus!
