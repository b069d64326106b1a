//! Laptop models, the two ACPI platforms they sit on, the power modes and the
//! per-model capability descriptor that prunes or extends the mode table.
use vstd::prelude::*;
use crate::text::{contains_str, has_infix, str_eq};

verus! {

/// A laptop model of the supported family.
#[allow(non_camel_case_types)]
#[derive(Debug, Clone, Copy, PartialEq, Eq, Structural)]
pub enum LaptopModel {
    G15_5530,
    G15_5520,
    G15_5525,
    G15_5515,
    G15_5511,
    G16_7620,
    G16_7630,
    AlienwareM16R1,
    Unknown,
}

/// The display name of a model.
pub open spec fn model_name(m: LaptopModel) -> Seq<char> {
    match m {
        LaptopModel::G15_5530 => "G15 5530"@,
        LaptopModel::G15_5520 => "G15 5520"@,
        LaptopModel::G15_5525 => "G15 5525"@,
        LaptopModel::G15_5515 => "G15 5515"@,
        LaptopModel::G15_5511 => "G15 5511"@,
        LaptopModel::G16_7620 => "G16 7620"@,
        LaptopModel::G16_7630 => "G16 7630"@,
        LaptopModel::AlienwareM16R1 => "Alienware M16 R1"@,
        LaptopModel::Unknown => "Unknown"@,
    }
}

/// Whether a model has the lighting controller.
pub open spec fn has_keyboard(m: LaptopModel) -> bool {
    m != LaptopModel::G16_7630 && m != LaptopModel::Unknown
}

impl LaptopModel {
    pub fn as_str(&self) -> (r: &'static str)
        ensures
            r@ == model_name(*self),
    {
        match self {
            LaptopModel::G15_5530 => "G15 5530",
            LaptopModel::G15_5520 => "G15 5520",
            LaptopModel::G15_5525 => "G15 5525",
            LaptopModel::G15_5515 => "G15 5515",
            LaptopModel::G15_5511 => "G15 5511",
            LaptopModel::G16_7620 => "G16 7620",
            LaptopModel::G16_7630 => "G16 7630",
            LaptopModel::AlienwareM16R1 => "Alienware M16 R1",
            LaptopModel::Unknown => "Unknown",
        }
    }

    pub fn supports_keyboard(&self) -> (r: bool)
        ensures
            r == has_keyboard(*self),
    {
        !matches!(self, LaptopModel::G16_7630 | LaptopModel::Unknown)
    }
}

/// The hardware platform, which fixes the ACPI device that takes WMAX calls.
#[derive(Debug, Clone, Copy, PartialEq, Eq, Structural)]
pub enum Platform {
    Intel,
    Amd,
}

/// The ACPI method path of a platform.
pub open spec fn platform_path(p: Platform) -> Seq<char> {
    match p {
        Platform::Intel => "\\_SB.AMWW.WMAX"@,
        Platform::Amd => "\\_SB.AMW3.WMAX"@,
    }
}

impl Platform {
    pub fn acpi_path(&self) -> (r: &'static str)
        ensures
            r@ == platform_path(*self),
    {
        match self {
            Platform::Intel => "\\_SB.AMWW.WMAX",
            Platform::Amd => "\\_SB.AMW3.WMAX",
        }
    }
}

/// A thermal profile that the firmware can be switched to.
#[derive(Debug, Clone, Copy, PartialEq, Eq, Structural)]
pub enum PowerMode {
    Balanced,
    Performance,
    Cool,
    Quiet,
    FullSpeed,
    BatterySaver,
    GMode,
    Manual,
}

/// The name under which a mode is offered.
pub open spec fn mode_name(m: PowerMode) -> Seq<char> {
    match m {
        PowerMode::Balanced => "USTT_Balanced"@,
        PowerMode::Performance => "USTT_Performance"@,
        PowerMode::Cool => "USTT_Cool"@,
        PowerMode::Quiet => "USTT_Quiet"@,
        PowerMode::FullSpeed => "USTT_FullSpeed"@,
        PowerMode::BatterySaver => "USTT_BatterySaver"@,
        PowerMode::GMode => "G Mode"@,
        PowerMode::Manual => "Manual"@,
    }
}

/// The one-byte code that selects a mode.
pub open spec fn mode_code(m: PowerMode) -> u8 {
    match m {
        PowerMode::Balanced => 0xa0,
        PowerMode::Performance => 0xa1,
        PowerMode::Cool => 0xa2,
        PowerMode::Quiet => 0xa3,
        PowerMode::FullSpeed => 0xa4,
        PowerMode::BatterySaver => 0xa5,
        PowerMode::GMode => 0xab,
        PowerMode::Manual => 0x00,
    }
}

/// The mode that a name designates, if any.
pub open spec fn mode_named(s: Seq<char>) -> Option<PowerMode> {
    if s == "USTT_Balanced"@ {
        Some(PowerMode::Balanced)
    } else if s == "USTT_Performance"@ {
        Some(PowerMode::Performance)
    } else if s == "USTT_Cool"@ {
        Some(PowerMode::Cool)
    } else if s == "USTT_Quiet"@ {
        Some(PowerMode::Quiet)
    } else if s == "USTT_FullSpeed"@ {
        Some(PowerMode::FullSpeed)
    } else if s == "USTT_BatterySaver"@ {
        Some(PowerMode::BatterySaver)
    } else if s == "G Mode"@ {
        Some(PowerMode::GMode)
    } else if s == "Manual"@ {
        Some(PowerMode::Manual)
    } else {
        None
    }
}

impl PowerMode {
    pub fn name(&self) -> (r: &'static str)
        ensures
            r@ == mode_name(*self),
    {
        match self {
            PowerMode::Balanced => "USTT_Balanced",
            PowerMode::Performance => "USTT_Performance",
            PowerMode::Cool => "USTT_Cool",
            PowerMode::Quiet => "USTT_Quiet",
            PowerMode::FullSpeed => "USTT_FullSpeed",
            PowerMode::BatterySaver => "USTT_BatterySaver",
            PowerMode::GMode => "G Mode",
            PowerMode::Manual => "Manual",
        }
    }

    pub fn code(&self) -> (r: u8)
        ensures
            r == mode_code(*self),
    {
        match self {
            PowerMode::Balanced => 0xa0,
            PowerMode::Performance => 0xa1,
            PowerMode::Cool => 0xa2,
            PowerMode::Quiet => 0xa3,
            PowerMode::FullSpeed => 0xa4,
            PowerMode::BatterySaver => 0xa5,
            PowerMode::GMode => 0xab,
            PowerMode::Manual => 0x00,
        }
    }

    pub fn from_name(s: &str) -> (r: Option<PowerMode>)
        ensures
            r == mode_named(s@),
    {
        if str_eq(s, "USTT_Balanced") {
            Some(PowerMode::Balanced)
        } else if str_eq(s, "USTT_Performance") {
            Some(PowerMode::Performance)
        } else if str_eq(s, "USTT_Cool") {
            Some(PowerMode::Cool)
        } else if str_eq(s, "USTT_Quiet") {
            Some(PowerMode::Quiet)
        } else if str_eq(s, "USTT_FullSpeed") {
            Some(PowerMode::FullSpeed)
        } else if str_eq(s, "USTT_BatterySaver") {
            Some(PowerMode::BatterySaver)
        } else if str_eq(s, "G Mode") {
            Some(PowerMode::GMode)
        } else if str_eq(s, "Manual") {
            Some(PowerMode::Manual)
        } else {
            None
        }
    }
}

/// The modes that every model starts from.
pub open spec fn in_default_table(m: PowerMode) -> bool {
    m != PowerMode::Cool
}

/// The modes that a model's capability descriptor takes out of the default
/// table.
pub open spec fn removed_for(model: LaptopModel, m: PowerMode) -> bool {
    match model {
        LaptopModel::G15_5530 | LaptopModel::G15_5520 | LaptopModel::G16_7630 => m
            == PowerMode::FullSpeed,
        LaptopModel::G15_5515 => true,
        LaptopModel::G15_5511 => m == PowerMode::FullSpeed || m == PowerMode::BatterySaver,
        _ => false,
    }
}

/// The modes that a model's capability descriptor adds.
pub open spec fn added_for(model: LaptopModel, m: PowerMode) -> bool {
    model == LaptopModel::G15_5511 && m == PowerMode::Cool
}

/// Whether a model's mode table holds a mode.
pub open spec fn offers(model: LaptopModel, m: PowerMode) -> bool {
    (in_default_table(m) && !removed_for(model, m)) || added_for(model, m)
}

/// What the capability descriptor says of one mode on one model.
pub fn removes(model: LaptopModel, m: PowerMode) -> (r: bool)
    ensures
        r == removed_for(model, m),
{
    match model {
        LaptopModel::G15_5530 | LaptopModel::G15_5520 | LaptopModel::G16_7630 => matches!(
            m,
            PowerMode::FullSpeed
        ),
        LaptopModel::G15_5515 => true,
        LaptopModel::G15_5511 => matches!(m, PowerMode::FullSpeed | PowerMode::BatterySaver),
        _ => false,
    }
}

/// Whether the capability descriptor of `model` adds `m`.
pub fn adds(model: LaptopModel, m: PowerMode) -> (r: bool)
    ensures
        r == added_for(model, m),
{
    matches!(model, LaptopModel::G15_5511) && matches!(m, PowerMode::Cool)
}

/// Whether the mode table of `model` holds `m`.
pub fn supports_mode(model: LaptopModel, m: PowerMode) -> (r: bool)
    ensures
        r == offers(model, m),
{
    (!matches!(m, PowerMode::Cool) && !removes(model, m)) || adds(model, m)
}

/// Every mode, in the order in which tables list them.
pub open spec fn all_modes() -> Seq<PowerMode> {
    seq![
        PowerMode::Balanced,
        PowerMode::Performance,
        PowerMode::Cool,
        PowerMode::Quiet,
        PowerMode::FullSpeed,
        PowerMode::BatterySaver,
        PowerMode::GMode,
        PowerMode::Manual,
    ]
}

/// The mode table of a model: the default table with the model's capability
/// descriptor applied, in the order of `all_modes`, each mode once.
pub fn mode_table(model: LaptopModel) -> (r: Vec<PowerMode>)
    ensures
        forall|m: PowerMode| #[trigger] r@.contains(m) <==> offers(model, m),
        r@.no_duplicates(),
{
    let all: Vec<PowerMode> = vec![
        PowerMode::Balanced,
        PowerMode::Performance,
        PowerMode::Cool,
        PowerMode::Quiet,
        PowerMode::FullSpeed,
        PowerMode::BatterySaver,
        PowerMode::GMode,
        PowerMode::Manual,
    ];
    assert(all@ == all_modes());
    let mut r: Vec<PowerMode> = Vec::new();
    let mut i: usize = 0;
    while i < all.len()
        invariant
            all@ == all_modes(),
            i <= all.len(),
            forall|m: PowerMode|
                r@.contains(m) <==> exists|j: int| 0 <= j < i && all@[j] == m && offers(model, m),
            forall|a: int, b: int| 0 <= a < b < r.len() ==> r@[a] != r@[b],
            forall|a: int|
                0 <= a < r.len() ==> exists|j: int| 0 <= j < i && all@[j] == #[trigger] r@[a],
        decreases all.len() - i,
    {
        let m = all[i];
        if supports_mode(model, m) {
            assert forall|a: int| 0 <= a < r.len() implies r@[a] != m by {
                let j = choose|j: int| 0 <= j < i && all@[j] == r@[a];
                assert(all@[j] != all@[i as int]);
            }
            let ghost before = r@;
            r.push(m);
            assert forall|x: PowerMode|
                r@.contains(x) <==> exists|j: int|
                    0 <= j < i + 1 && all@[j] == x && offers(model, x) by {
                if r@.contains(x) {
                    let a = choose|a: int| 0 <= a < r.len() && r@[a] == x;
                    if a < r.len() - 1 {
                        assert(before.contains(x)) by {
                            assert(r@.drop_last() == before);
                            assert(before[a] == x);
                        }
                    }
                }
                if exists|j: int| 0 <= j < i + 1 && all@[j] == x && offers(model, x) {
                    let j = choose|j: int| 0 <= j < i + 1 && all@[j] == x && offers(model, x);
                    if j < i {
                        assert(before.contains(x));
                        let a = choose|a: int| 0 <= a < before.len() && before[a] == x;
                        assert(r@[a] == x);
                    } else {
                        assert(r@[r.len() - 1] == x);
                    }
                }
            }
        } else {
            assert forall|x: PowerMode|
                r@.contains(x) <==> exists|j: int|
                    0 <= j < i + 1 && all@[j] == x && offers(model, x) by {
                if exists|j: int| 0 <= j < i + 1 && all@[j] == x && offers(model, x) {
                    let j = choose|j: int| 0 <= j < i + 1 && all@[j] == x && offers(model, x);
                    assert(j < i);
                }
            }
        }
        i += 1;
    }
    assert forall|m: PowerMode| offers(model, m) implies r@.contains(m) by {
        assert(all@.contains(m)) by {
            match m {
                PowerMode::Balanced => assert(all@[0] == m),
                PowerMode::Performance => assert(all@[1] == m),
                PowerMode::Cool => assert(all@[2] == m),
                PowerMode::Quiet => assert(all@[3] == m),
                PowerMode::FullSpeed => assert(all@[4] == m),
                PowerMode::BatterySaver => assert(all@[5] == m),
                PowerMode::GMode => assert(all@[6] == m),
                PowerMode::Manual => assert(all@[7] == m),
            }
        }
    }
    r
}

/// The DMI product-name tokens of each known model, in the order in which
/// they are tried, with the model and platform they stand for.
pub open spec fn dmi_rules() -> Seq<(Seq<char>, Seq<char>, LaptopModel, Platform)> {
    seq![
        ("g15"@, "5530"@, LaptopModel::G15_5530, Platform::Intel),
        ("g15"@, "5520"@, LaptopModel::G15_5520, Platform::Intel),
        ("g15"@, "5525"@, LaptopModel::G15_5525, Platform::Amd),
        ("g15"@, "5515"@, LaptopModel::G15_5515, Platform::Amd),
        ("g15"@, "5511"@, LaptopModel::G15_5511, Platform::Intel),
        ("g16"@, "7630"@, LaptopModel::G16_7630, Platform::Intel),
        ("g16"@, "7620"@, LaptopModel::G16_7620, Platform::Intel),
    ]
}

/// The first rule from index `i` on whose two tokens both occur in `s`.
pub open spec fn dmi_match_from(s: Seq<char>, i: int) -> Option<(LaptopModel, Platform)>
    decreases dmi_rules().len() - i,
{
    if i < 0 || i >= dmi_rules().len() {
        None
    } else if has_infix(s, dmi_rules()[i].0) && has_infix(s, dmi_rules()[i].1) {
        Some((dmi_rules()[i].2, dmi_rules()[i].3))
    } else {
        dmi_match_from(s, i + 1)
    }
}

/// The model and platform that a lower-cased DMI product name designates:
/// the first rule of `dmi_rules` whose two tokens it contains.
pub open spec fn dmi_match(s: Seq<char>) -> Option<(LaptopModel, Platform)> {
    dmi_match_from(s, 0)
}

fn has_tokens(s: &Vec<char>, family: &str, number: &str) -> (r: bool)
    ensures
        r == (has_infix(s@, family@) && has_infix(s@, number@)),
{
    contains_str(s, family) && contains_str(s, number)
}

/// Looks a lower-cased DMI product name up in the ordered rule list.
pub fn match_dmi(lowered: &str) -> (r: Option<(LaptopModel, Platform)>)
    ensures
        r == dmi_match(lowered@),
{
    let s = crate::text::chars_of(lowered);
    proof {
        reveal_with_fuel(dmi_match_from, 8);
    }
    if has_tokens(&s, "g15", "5530") {
        Some((LaptopModel::G15_5530, Platform::Intel))
    } else if has_tokens(&s, "g15", "5520") {
        Some((LaptopModel::G15_5520, Platform::Intel))
    } else if has_tokens(&s, "g15", "5525") {
        Some((LaptopModel::G15_5525, Platform::Amd))
    } else if has_tokens(&s, "g15", "5515") {
        Some((LaptopModel::G15_5515, Platform::Amd))
    } else if has_tokens(&s, "g15", "5511") {
        Some((LaptopModel::G15_5511, Platform::Intel))
    } else if has_tokens(&s, "g16", "7630") {
        Some((LaptopModel::G16_7630, Platform::Intel))
    } else if has_tokens(&s, "g16", "7620") {
        Some((LaptopModel::G16_7620, Platform::Intel))
    } else {
        None
    }
}

/// The model that the firmware's answer to `get_laptop_model` designates on a
/// platform; the answer is compared once surrounding white space is dropped.
pub open spec fn model_for_code(p: Platform, code: Seq<char>) -> LaptopModel {
    match p {
        Platform::Intel => if code == "0x0"@ {
            LaptopModel::G15_5530
        } else if code == "0x12c0"@ {
            LaptopModel::G15_5520
        } else if code == "0xc80"@ {
            LaptopModel::G15_5511
        } else {
            LaptopModel::Unknown
        },
        Platform::Amd => if code == "0x12c0"@ {
            LaptopModel::G15_5525
        } else if code == "0xc80"@ {
            LaptopModel::G15_5515
        } else {
            LaptopModel::Unknown
        },
    }
}

/// Decodes the firmware's model code (already trimmed) on a platform.
pub fn model_from_code(p: Platform, code: &str) -> (r: LaptopModel)
    ensures
        r == model_for_code(p, code@),
{
    match p {
        Platform::Intel => if str_eq(code, "0x0") {
            LaptopModel::G15_5530
        } else if str_eq(code, "0x12c0") {
            LaptopModel::G15_5520
        } else if str_eq(code, "0xc80") {
            LaptopModel::G15_5511
        } else {
            LaptopModel::Unknown
        },
        Platform::Amd => if str_eq(code, "0x12c0") {
            LaptopModel::G15_5525
        } else if str_eq(code, "0xc80") {
            LaptopModel::G15_5515
        } else {
            LaptopModel::Unknown
        },
    }
}

/// The rules are tried in order: a product name that holds both tokens of
/// rule `i`, and not both tokens of any earlier rule, designates the model and
/// platform of rule `i`.
pub proof fn lemma_dmi_rule_selects(s: Seq<char>, i: int)
    requires
        0 <= i < dmi_rules().len(),
        has_infix(s, dmi_rules()[i].0),
        has_infix(s, dmi_rules()[i].1),
        forall|j: int|
            0 <= j < i ==> !(has_infix(s, #[trigger] dmi_rules()[j].0) && has_infix(
                s,
                dmi_rules()[j].1,
            )),
    ensures
        dmi_match(s) == Some((dmi_rules()[i].2, dmi_rules()[i].3)),
{
    lemma_dmi_match_from(s, 0, i);
}

proof fn lemma_dmi_match_from(s: Seq<char>, k: int, i: int)
    requires
        0 <= k <= i < dmi_rules().len(),
        has_infix(s, dmi_rules()[i].0),
        has_infix(s, dmi_rules()[i].1),
        forall|j: int|
            0 <= j < i ==> !(has_infix(s, #[trigger] dmi_rules()[j].0) && has_infix(
                s,
                dmi_rules()[j].1,
            )),
    ensures
        dmi_match_from(s, k) == Some((dmi_rules()[i].2, dmi_rules()[i].3)),
    decreases i - k,
{
    if k < i {
        lemma_dmi_match_from(s, k + 1, i);
    }
}

/// A product name that holds no rule's two tokens designates nothing, and
/// detection goes on to ask the firmware.
pub proof fn lemma_dmi_no_rule(s: Seq<char>)
    requires
        forall|j: int|
            0 <= j < dmi_rules().len() ==> !(has_infix(s, #[trigger] dmi_rules()[j].0)
                && has_infix(s, dmi_rules()[j].1)),
    ensures
        dmi_match(s) is None,
{
    reveal_with_fuel(dmi_match_from, 8);
    assert(!(has_infix(s, dmi_rules()[0].0) && has_infix(s, dmi_rules()[0].1)));
    assert(!(has_infix(s, dmi_rules()[1].0) && has_infix(s, dmi_rules()[1].1)));
    assert(!(has_infix(s, dmi_rules()[2].0) && has_infix(s, dmi_rules()[2].1)));
    assert(!(has_infix(s, dmi_rules()[3].0) && has_infix(s, dmi_rules()[3].1)));
    assert(!(has_infix(s, dmi_rules()[4].0) && has_infix(s, dmi_rules()[4].1)));
    assert(!(has_infix(s, dmi_rules()[5].0) && has_infix(s, dmi_rules()[5].1)));
    assert(!(has_infix(s, dmi_rules()[6].0) && has_infix(s, dmi_rules()[6].1)));
}

/// The mode table of every model after its capability descriptor is
/// applied: the two chassis-sharing 5530/5520 models and the 7630 lose
/// FullSpeed; the 5515 loses every mode and ends with an empty table; the
/// 5511 loses FullSpeed and BatterySaver and gains Cool (code `0xA2`); the
/// other models keep the default table, which lacks Cool.
pub proof fn lemma_mode_tables(m: PowerMode)
    ensures
        offers(LaptopModel::G15_5530, m) <==> (m != PowerMode::Cool && m != PowerMode::FullSpeed),
        offers(LaptopModel::G15_5520, m) <==> (m != PowerMode::Cool && m != PowerMode::FullSpeed),
        offers(LaptopModel::G16_7630, m) <==> (m != PowerMode::Cool && m != PowerMode::FullSpeed),
        !offers(LaptopModel::G15_5515, m),
        offers(LaptopModel::G15_5511, m) <==> (m != PowerMode::FullSpeed && m
            != PowerMode::BatterySaver),
        offers(LaptopModel::G15_5525, m) <==> m != PowerMode::Cool,
        offers(LaptopModel::G16_7620, m) <==> m != PowerMode::Cool,
        offers(LaptopModel::AlienwareM16R1, m) <==> m != PowerMode::Cool,
        offers(LaptopModel::Unknown, m) <==> m != PowerMode::Cool,
        mode_code(PowerMode::Cool) == 0xa2,
{
}

} // verus!
