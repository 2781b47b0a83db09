use vstd::prelude::*;
use vstd::std_specs::convert::{FromSpecImpl, TryFromSpecImpl};
use vstd::string::*;

use crate::text::{append_decimal, decimal, str_equals};

verus! {

/// Illuminants for XYZ, as the DNG and EXIF `LightSource` tags number them.
#[derive(Debug, Clone, Copy, PartialEq, Eq, Structural, PartialOrd, Ord, Hash)]
pub enum Illuminant {
    Unknown,
    Daylight,
    Fluorescent,
    Tungsten,
    Flash,
    FineWeather,
    CloudyWeather,
    Shade,
    DaylightFluorescent,
    DaylightWhiteFluorescent,
    CoolWhiteFluorescent,
    WhiteFluorescent,
    A,
    B,
    C,
    D55,
    D65,
    D75,
    D50,
    IsoStudioTungsten,
}

/// The `LightSource` tag value of an illuminant.
pub open spec fn illuminant_code(i: Illuminant) -> u16 {
    match i {
        Illuminant::Unknown => 0,
        Illuminant::Daylight => 1,
        Illuminant::Fluorescent => 2,
        Illuminant::Tungsten => 3,
        Illuminant::Flash => 4,
        Illuminant::FineWeather => 9,
        Illuminant::CloudyWeather => 10,
        Illuminant::Shade => 11,
        Illuminant::DaylightFluorescent => 12,
        Illuminant::DaylightWhiteFluorescent => 13,
        Illuminant::CoolWhiteFluorescent => 14,
        Illuminant::WhiteFluorescent => 15,
        Illuminant::A => 17,
        Illuminant::B => 18,
        Illuminant::C => 19,
        Illuminant::D55 => 20,
        Illuminant::D65 => 21,
        Illuminant::D75 => 22,
        Illuminant::D50 => 23,
        Illuminant::IsoStudioTungsten => 24,
    }
}

/// Distinct illuminants have distinct tag values, so a tag value names at
/// most one illuminant.
pub proof fn lemma_illuminant_code_injective(i: Illuminant, j: Illuminant)
    requires
        illuminant_code(i) == illuminant_code(j),
    ensures
        i == j,
{
}

impl Illuminant {
    /// The `LightSource` tag value of this illuminant.
    pub fn code(self) -> (c: u16)
        ensures
            c == illuminant_code(self),
    {
        match self {
            Illuminant::Unknown => 0,
            Illuminant::Daylight => 1,
            Illuminant::Fluorescent => 2,
            Illuminant::Tungsten => 3,
            Illuminant::Flash => 4,
            Illuminant::FineWeather => 9,
            Illuminant::CloudyWeather => 10,
            Illuminant::Shade => 11,
            Illuminant::DaylightFluorescent => 12,
            Illuminant::DaylightWhiteFluorescent => 13,
            Illuminant::CoolWhiteFluorescent => 14,
            Illuminant::WhiteFluorescent => 15,
            Illuminant::A => 17,
            Illuminant::B => 18,
            Illuminant::C => 19,
            Illuminant::D55 => 20,
            Illuminant::D65 => 21,
            Illuminant::D75 => 22,
            Illuminant::D50 => 23,
            Illuminant::IsoStudioTungsten => 24,
        }
    }
}

impl From<Illuminant> for u16 {
    fn from(value: Illuminant) -> (c: u16) {
        value.code()
    }
}

impl FromSpecImpl<Illuminant> for u16 {
    open spec fn obeys_from_spec() -> bool {
        true
    }

    open spec fn from_spec(value: Illuminant) -> u16 {
        illuminant_code(value)
    }
}

/// The message with which an unknown tag value is refused.
pub open spec fn unknown_value_message(v: u16) -> Seq<char> {
    "Unknown illuminant value: "@ + decimal(v as nat)
}

impl TryFrom<u16> for Illuminant {
    type Error = String;

    /// The illuminant that the `LightSource` tag value `v` names; an error
    /// message for a value that names none.
    fn try_from(v: u16) -> (r: Result<Illuminant, String>)
        ensures
            match r {
                Ok(i) => illuminant_code(i) == v,
                Err(e) => (forall|i: Illuminant| illuminant_code(i) != v) && e@ == unknown_value_message(
                    v,
                ),
            },
    {
        match v {
            0 => Ok(Illuminant::Unknown),
            1 => Ok(Illuminant::Daylight),
            2 => Ok(Illuminant::Fluorescent),
            3 => Ok(Illuminant::Tungsten),
            4 => Ok(Illuminant::Flash),
            9 => Ok(Illuminant::FineWeather),
            10 => Ok(Illuminant::CloudyWeather),
            11 => Ok(Illuminant::Shade),
            12 => Ok(Illuminant::DaylightFluorescent),
            13 => Ok(Illuminant::DaylightWhiteFluorescent),
            14 => Ok(Illuminant::CoolWhiteFluorescent),
            15 => Ok(Illuminant::WhiteFluorescent),
            17 => Ok(Illuminant::A),
            18 => Ok(Illuminant::B),
            19 => Ok(Illuminant::C),
            20 => Ok(Illuminant::D55),
            21 => Ok(Illuminant::D65),
            22 => Ok(Illuminant::D75),
            23 => Ok(Illuminant::D50),
            24 => Ok(Illuminant::IsoStudioTungsten),
            _ => {
                let mut e = String::from_str("Unknown illuminant value: ");
                append_decimal(&mut e, v);
                Err(e)
            },
        }
    }
}

/// A refusal carries a `String`, which a spec function cannot build, so the
/// generic `TryFrom` contract is not claimed; `try_from` above states the
/// result, the message included, in its own `ensures`.
impl TryFromSpecImpl<u16> for Illuminant {
    open spec fn obeys_try_from_spec() -> bool {
        false
    }

    open spec fn try_from_spec(v: u16) -> Result<Illuminant, String> {
        arbitrary()
    }
}

/// The name of an illuminant, as `new_from_str` reads it.
pub open spec fn illuminant_name(i: Illuminant) -> Seq<char> {
    match i {
        Illuminant::Unknown => "Unknown"@,
        Illuminant::Daylight => "Daylight"@,
        Illuminant::Fluorescent => "Fluorescent"@,
        Illuminant::Tungsten => "Tungsten"@,
        Illuminant::Flash => "Flash"@,
        Illuminant::FineWeather => "FineWeather"@,
        Illuminant::CloudyWeather => "CloudyWeather"@,
        Illuminant::Shade => "Shade"@,
        Illuminant::DaylightFluorescent => "DaylightFluorescent"@,
        Illuminant::DaylightWhiteFluorescent => "DaylightWhiteFluorescent"@,
        Illuminant::CoolWhiteFluorescent => "CoolWhiteFluorescent"@,
        Illuminant::WhiteFluorescent => "WhiteFluorescent"@,
        Illuminant::A => "A"@,
        Illuminant::B => "B"@,
        Illuminant::C => "C"@,
        Illuminant::D55 => "D55"@,
        Illuminant::D65 => "D65"@,
        Illuminant::D75 => "D75"@,
        Illuminant::D50 => "D50"@,
        Illuminant::IsoStudioTungsten => "IsoStudioTungsten"@,
    }
}

/// Distinct illuminants have distinct names, so a name reads as at most one
/// illuminant.
pub proof fn lemma_illuminant_name_injective(i: Illuminant, j: Illuminant)
    requires
        illuminant_name(i) == illuminant_name(j),
    ensures
        i == j,
{
    reveal_strlit("Unknown");
    reveal_strlit("Daylight");
    reveal_strlit("Fluorescent");
    reveal_strlit("Tungsten");
    reveal_strlit("Flash");
    reveal_strlit("FineWeather");
    reveal_strlit("CloudyWeather");
    reveal_strlit("Shade");
    reveal_strlit("DaylightFluorescent");
    reveal_strlit("DaylightWhiteFluorescent");
    reveal_strlit("CoolWhiteFluorescent");
    reveal_strlit("WhiteFluorescent");
    reveal_strlit("A");
    reveal_strlit("B");
    reveal_strlit("C");
    reveal_strlit("D55");
    reveal_strlit("D65");
    reveal_strlit("D75");
    reveal_strlit("D50");
    reveal_strlit("IsoStudioTungsten");
    let (a, b) = (illuminant_name(i), illuminant_name(j));
    assert(a.len() == b.len() && a[0] == b[0] && a[1] == b[1] && a[2] == b[2]);
}

/// The message with which an unknown name is refused.
pub open spec fn unknown_name_message(s: Seq<char>) -> Seq<char> {
    "Unknown illuminant name: '"@ + s + "'"@
}

impl Illuminant {
    /// The illuminant whose name is `s`; an error message for a string that
    /// names none.
    pub fn new_from_str(s: &str) -> (r: Result<Self, String>)
        ensures
            match r {
                Ok(i) => s@ == illuminant_name(i),
                Err(e) => (forall|i: Illuminant| s@ != illuminant_name(i)) && e@
                    == unknown_name_message(s@),
            },
    {
        if str_equals(s, "Unknown") {
            return Ok(Illuminant::Unknown);
        }
        if str_equals(s, "Daylight") {
            return Ok(Illuminant::Daylight);
        }
        if str_equals(s, "Fluorescent") {
            return Ok(Illuminant::Fluorescent);
        }
        if str_equals(s, "Tungsten") {
            return Ok(Illuminant::Tungsten);
        }
        if str_equals(s, "Flash") {
            return Ok(Illuminant::Flash);
        }
        if str_equals(s, "FineWeather") {
            return Ok(Illuminant::FineWeather);
        }
        if str_equals(s, "CloudyWeather") {
            return Ok(Illuminant::CloudyWeather);
        }
        if str_equals(s, "Shade") {
            return Ok(Illuminant::Shade);
        }
        if str_equals(s, "DaylightFluorescent") {
            return Ok(Illuminant::DaylightFluorescent);
        }
        if str_equals(s, "DaylightWhiteFluorescent") {
            return Ok(Illuminant::DaylightWhiteFluorescent);
        }
        if str_equals(s, "CoolWhiteFluorescent") {
            return Ok(Illuminant::CoolWhiteFluorescent);
        }
        if str_equals(s, "WhiteFluorescent") {
            return Ok(Illuminant::WhiteFluorescent);
        }
        if str_equals(s, "A") {
            return Ok(Illuminant::A);
        }
        if str_equals(s, "B") {
            return Ok(Illuminant::B);
        }
        if str_equals(s, "C") {
            return Ok(Illuminant::C);
        }
        if str_equals(s, "D55") {
            return Ok(Illuminant::D55);
        }
        if str_equals(s, "D65") {
            return Ok(Illuminant::D65);
        }
        if str_equals(s, "D75") {
            return Ok(Illuminant::D75);
        }
        if str_equals(s, "D50") {
            return Ok(Illuminant::D50);
        }
        if str_equals(s, "IsoStudioTungsten") {
            return Ok(Illuminant::IsoStudioTungsten);
        }
        let mut e = String::from_str("Unknown illuminant name: '");
        e.append(s);
        e.append("'");
        Err(e)
    }
}


/// The correlated colour temperature, in kelvin, that an illuminant stands
/// for; the unknown illuminant has none.
pub open spec fn illuminant_temperature(i: Illuminant) -> Option<u32> {
    match i {
        Illuminant::A | Illuminant::Tungsten => Some(2850),
        Illuminant::IsoStudioTungsten => Some(3200),
        Illuminant::D50 => Some(5000),
        Illuminant::D55
        | Illuminant::Daylight
        | Illuminant::FineWeather
        | Illuminant::Flash
        | Illuminant::B => Some(5500),
        Illuminant::D65 | Illuminant::C | Illuminant::CloudyWeather => Some(6500),
        Illuminant::D75 | Illuminant::Shade => Some(7500),
        Illuminant::DaylightFluorescent => Some(6400),
        Illuminant::DaylightWhiteFluorescent => Some(5050),
        Illuminant::Fluorescent | Illuminant::CoolWhiteFluorescent => Some(4150),
        Illuminant::WhiteFluorescent => Some(3525),
        Illuminant::Unknown => None,
    }
}

impl Illuminant {
    /// The correlated colour temperature of this illuminant, in kelvin.
    pub fn temperature(self) -> (t: Option<u32>)
        ensures
            t == illuminant_temperature(self),
            t is None <==> self == Illuminant::Unknown,
    {
        match self {
            Illuminant::A | Illuminant::Tungsten => Some(2850),
            Illuminant::IsoStudioTungsten => Some(3200),
            Illuminant::D50 => Some(5000),
            Illuminant::D55
            | Illuminant::Daylight
            | Illuminant::FineWeather
            | Illuminant::Flash
            | Illuminant::B => Some(5500),
            Illuminant::D65 | Illuminant::C | Illuminant::CloudyWeather => Some(6500),
            Illuminant::D75 | Illuminant::Shade => Some(7500),
            Illuminant::DaylightFluorescent => Some(6400),
            Illuminant::DaylightWhiteFluorescent => Some(5050),
            Illuminant::Fluorescent | Illuminant::CoolWhiteFluorescent => Some(4150),
            Illuminant::WhiteFluorescent => Some(3525),
            Illuminant::Unknown => None,
        }
    }
}

/// The temperature at which the as-shot estimate starts its iteration.
pub const START_TEMPERATURE: u32 = 5000;

/// The two calibration illuminants between which the colour matrix is
/// interpolated, found by their position in the candidate list, and the
/// temperature at which the estimate starts.
#[derive(Debug, Clone, Copy, PartialEq, Eq, Structural)]
pub struct TemperatureBracket {
    pub low: usize,
    pub low_kelvin: u32,
    pub high: usize,
    pub high_kelvin: u32,
    pub start_kelvin: u32,
}

/// `t` clamped to the range from `low` to `high`.
pub open spec fn clamp_kelvin(t: u32, low: u32, high: u32) -> u32 {
    if t < low {
        low
    } else if t > high {
        high
    } else {
        t
    }
}

/// Starting at 5000 K moved into the range from `low` to `high`: 5000 itself
/// when it lies in the range, else the end of the range nearer to it.
pub open spec fn starts_at_clamped_5000(low: u32, high: u32, start: u32) -> bool {
    &&& low <= 5000 <= high ==> start == 5000
    &&& 5000 < low ==> start == low
    &&& high < 5000 ==> start == high
}

/// On a proper range, `clamp_kelvin` moves 5000 K into it as the estimate
/// starts.
pub proof fn lemma_clamp_kelvin_start(low: u32, high: u32)
    requires
        low <= high,
    ensures
        starts_at_clamped_5000(low, high, clamp_kelvin(START_TEMPERATURE, low, high)),
{
}

/// `b` picks, among `candidates` with a known temperature, the coolest one
/// that comes first and the warmest one that comes last (what a stable sort
/// by temperature puts first and last), and starts at the usual temperature
/// clamped to their range.
pub open spec fn is_temperature_bracket(candidates: Seq<Illuminant>, b: TemperatureBracket) -> bool {
    &&& b.low < candidates.len()
    &&& b.high < candidates.len()
    &&& illuminant_temperature(candidates[b.low as int]) == Some(b.low_kelvin)
    &&& illuminant_temperature(candidates[b.high as int]) == Some(b.high_kelvin)
    &&& forall|k: int|
        0 <= k < candidates.len() && #[trigger] illuminant_temperature(candidates[k]) is Some
            ==> {
            let t = illuminant_temperature(candidates[k])->Some_0;
            &&& b.low_kelvin <= t <= b.high_kelvin
            &&& k < b.low ==> b.low_kelvin < t
            &&& b.high < k ==> t < b.high_kelvin
        }
    &&& b.start_kelvin == clamp_kelvin(START_TEMPERATURE, b.low_kelvin, b.high_kelvin)
}

/// Selects the calibration illuminants that bracket the as-shot estimate:
/// `None` exactly when no candidate has a known temperature.
pub fn select_temperature_bracket(candidates: &[Illuminant]) -> (r: Option<TemperatureBracket>)
    ensures
        r is None <==> forall|k: int|
            0 <= k < candidates@.len() ==> #[trigger] illuminant_temperature(candidates@[k]) is None,
        r matches Some(b) ==> is_temperature_bracket(candidates@, b),
        r matches Some(b) ==> b.low_kelvin <= b.start_kelvin <= b.high_kelvin,
        r matches Some(b) ==> starts_at_clamped_5000(b.low_kelvin, b.high_kelvin, b.start_kelvin),
{
    let mut best: Option<TemperatureBracket> = None;
    let mut i: usize = 0;
    while i < candidates.len()
        invariant
            i <= candidates@.len(),
            best is None <==> forall|k: int|
                0 <= k < i ==> #[trigger] illuminant_temperature(candidates@[k]) is None,
            best matches Some(b) ==> is_temperature_bracket(candidates@.take(i as int), b),
        decreases candidates@.len() - i,
    {
        let ghost prefix = candidates@.take(i as int);
        let ghost next = candidates@.take(i + 1);
        assert(next =~= prefix.push(candidates@[i as int]));
        match candidates[i].temperature() {
            None => {},
            Some(t) => {
                let b = match best {
                    None => TemperatureBracket {
                        low: i,
                        low_kelvin: t,
                        high: i,
                        high_kelvin: t,
                        start_kelvin: 0,
                    },
                    Some(b) => {
                        let mut b = b;
                        if t < b.low_kelvin {
                            b.low = i;
                            b.low_kelvin = t;
                        }
                        if t >= b.high_kelvin {
                            b.high = i;
                            b.high_kelvin = t;
                        }
                        b
                    },
                };
                let start = if START_TEMPERATURE < b.low_kelvin {
                    b.low_kelvin
                } else if START_TEMPERATURE > b.high_kelvin {
                    b.high_kelvin
                } else {
                    START_TEMPERATURE
                };
                best = Some(TemperatureBracket { start_kelvin: start, ..b });
            },
        }
        i = i + 1;
    }
    assert(candidates@.take(i as int) =~= candidates@);
    if let Some(b) = best {
        assert(illuminant_temperature(candidates@[b.low as int]) is Some);
        proof {
            lemma_clamp_kelvin_start(b.low_kelvin, b.high_kelvin);
        }
    }
    best
}

} // verus!
