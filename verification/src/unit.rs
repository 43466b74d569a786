//! Engineering-scale units and the physical-quantity suffixes they decorate.
//!
//! A `Unit` is an engineering magnitude selector (Tera down to Femto, scale
//! factors 1e-12 through 1e15 as powers of ten) plus the pseudo-units `Q`
//! (quality factor), `K` (coupling coefficient), `N` (turns ratio) and
//! `Lambda` (wavelength), which scale by 1. A `UnitType` names the physical
//! quantity being displayed (farads, henries, ohms, hertz).

use vstd::prelude::*;

use crate::strutil::str_eq;

verus! {

/// The physical quantity a displayed value measures.
#[derive(Copy, Clone, Debug, PartialEq, Eq, Structural)]
pub enum UnitType {
    Farad,
    Henry,
    Ohm,
    Hz,
}

/// The display suffix of each quantity.
pub open spec fn spec_unit_type_label(t: UnitType) -> Seq<char> {
    match t {
        UnitType::Farad => "F"@,
        UnitType::Henry => "H"@,
        UnitType::Ohm => "Ω"@,
        UnitType::Hz => "Hz"@,
    }
}

/// Whether `s` names a physical quantity.
pub open spec fn is_unit_type_str(s: Seq<char>) -> bool {
    ||| s == "c"@ || s == "cap"@ || s == "capacitor"@ || s == "F"@
    ||| s == "l"@ || s == "ind"@ || s == "inductor"@ || s == "H"@
    ||| s == "r"@ || s == "res"@ || s == "resistor"@ || s == "Ω"@
    ||| s == "f"@ || s == "freq"@ || s == "frequency"@ || s == "Hz"@ || s == "hz"@
}

/// The quantity named by a recognized string.
pub open spec fn spec_unit_type_from_str(s: Seq<char>) -> UnitType {
    if s == "c"@ || s == "cap"@ || s == "capacitor"@ || s == "F"@ {
        UnitType::Farad
    } else if s == "l"@ || s == "ind"@ || s == "inductor"@ || s == "H"@ {
        UnitType::Henry
    } else if s == "r"@ || s == "res"@ || s == "resistor"@ || s == "Ω"@ {
        UnitType::Ohm
    } else {
        UnitType::Hz
    }
}

impl UnitType {
    /// Parses a quantity name; anything unrecognized is an error.
    pub fn from_str(s: &str) -> (r: Result<UnitType, String>)
        ensures
            is_unit_type_str(s@) ==> (r matches Ok(t) && t == spec_unit_type_from_str(s@)),
            !is_unit_type_str(s@) ==> (r matches Err(e) && e@ == "UnitType not recognize"@),
    {
        if str_eq(s, "c") || str_eq(s, "cap") || str_eq(s, "capacitor") || str_eq(s, "F") {
            Ok(UnitType::Farad)
        } else if str_eq(s, "l") || str_eq(s, "ind") || str_eq(s, "inductor") || str_eq(s, "H") {
            Ok(UnitType::Henry)
        } else if str_eq(s, "r") || str_eq(s, "res") || str_eq(s, "resistor") || str_eq(s, "Ω") {
            Ok(UnitType::Ohm)
        } else if str_eq(s, "f") || str_eq(s, "freq") || str_eq(s, "frequency") || str_eq(s, "Hz")
            || str_eq(s, "hz") {
            Ok(UnitType::Hz)
        } else {
            Err("UnitType not recognize".to_owned())
        }
    }

    /// The display suffix: "F", "H", "Ω" or "Hz".
    pub fn to_string(&self) -> (r: String)
        ensures
            r@ == spec_unit_type_label(*self),
    {
        match self {
            UnitType::Farad => "F".to_owned(),
            UnitType::Henry => "H".to_owned(),
            UnitType::Ohm => "Ω".to_owned(),
            UnitType::Hz => "Hz".to_owned(),
        }
    }
}

/// An engineering magnitude multiplier or a pseudo-unit selector.
///
/// `Lambda` stands for a wavelength-valued scale; its factor is not a power
/// of ten but `c / (f·sqrt(εr))`, which only the numeric layer can evaluate,
/// so it carries no exponent here.
#[derive(Copy, Clone, Debug, PartialEq, Eq, Structural)]
pub enum Unit {
    Tera,
    Giga,
    Mega,
    Kilo,
    Base,
    Milli,
    Micro,
    Nano,
    Pico,
    Femto,
    Lambda,
    Q,
    K,
    N,
}

/// Whether `s` is one of the strings naming `u`.
pub open spec fn spec_unit_from_str(s: Seq<char>) -> Unit {
    if s == "tera"@ || s == "T"@ || s == "THz"@ || s == "thz"@ {
        Unit::Tera
    } else if s == "giga"@ || s == "G"@ || s == "GHz"@ || s == "ghz"@ || s == "GΩ"@ {
        Unit::Giga
    } else if s == "mega"@ || s == "M"@ || s == "MHz"@ || s == "mhz"@ || s == "MΩ"@ {
        Unit::Mega
    } else if s == "kilo"@ || s == "k"@ || s == "kHz"@ || s == "khz"@ || s == "kΩ"@ {
        Unit::Kilo
    } else if s == "milli"@ || s == "m"@ || s == "mΩ"@ || s == "mF"@ || s == "mH"@ {
        Unit::Milli
    } else if s == "micro"@ || s == "u"@ || s == "uΩ"@ || s == "μΩ"@ || s == "uF"@ || s == "μF"@
        || s == "uH"@ || s == "μH"@ || s == "um"@ || s == "μm"@ {
        Unit::Micro
    } else if s == "nano"@ || s == "n"@ || s == "nΩ"@ || s == "nF"@ || s == "nH"@ {
        Unit::Nano
    } else if s == "pico"@ || s == "p"@ || s == "pΩ"@ || s == "pF"@ || s == "pH"@ {
        Unit::Pico
    } else if s == "femto"@ || s == "f"@ || s == "fΩ"@ || s == "fF"@ || s == "fH"@ {
        Unit::Femto
    } else if s == "lambda"@ || s == "λ"@ || s == "wavelength"@ {
        Unit::Lambda
    } else if s == "Q"@ || s == "q"@ {
        Unit::Q
    } else if s == "K"@ {
        Unit::K
    } else if s == "N"@ {
        Unit::N
    } else {
        Unit::Base
    }
}

/// The display prefix of each unit ("u" for micro; formatting through
/// `get_unit` substitutes "μ").
pub open spec fn spec_unit_label(u: Unit) -> Seq<char> {
    match u {
        Unit::Tera => "T"@,
        Unit::Giga => "G"@,
        Unit::Mega => "M"@,
        Unit::Kilo => "k"@,
        Unit::Base => ""@,
        Unit::Milli => "m"@,
        Unit::Micro => "u"@,
        Unit::Nano => "n"@,
        Unit::Pico => "p"@,
        Unit::Femto => "f"@,
        Unit::Lambda => "λ"@,
        Unit::Q => "Q"@,
        Unit::K => "K"@,
        Unit::N => "N"@,
    }
}

/// The power of ten by which a base-unit value is multiplied for display:
/// Tera shows 1e12 base units as 1, so its factor is 1e-12; Femto shows
/// 1e-15 base units as 1, factor 1e15. The pseudo-units Q, K and N scale by
/// one, and `Lambda` has no power-of-ten factor at all.
pub open spec fn spec_scale_exponent(u: Unit) -> Option<i8> {
    match u {
        Unit::Tera => Some(-12i8),
        Unit::Giga => Some(-9i8),
        Unit::Mega => Some(-6i8),
        Unit::Kilo => Some(-3i8),
        Unit::Base => Some(0i8),
        Unit::Milli => Some(3i8),
        Unit::Micro => Some(6i8),
        Unit::Nano => Some(9i8),
        Unit::Pico => Some(12i8),
        Unit::Femto => Some(15i8),
        Unit::Lambda => None,
        Unit::Q => Some(0i8),
        Unit::K => Some(0i8),
        Unit::N => Some(0i8),
    }
}

impl Unit {
    /// Parses a unit tag. Parsing is total: anything unrecognized is the
    /// base (unscaled) unit, so the result is always `Ok`.
    pub fn from_str(s: &str) -> (r: Result<Unit, String>)
        ensures
            r == Ok::<Unit, String>(spec_unit_from_str(s@)),
    {
        if str_eq(s, "tera") || str_eq(s, "T") || str_eq(s, "THz") || str_eq(s, "thz") {
            Ok(Unit::Tera)
        } else if str_eq(s, "giga") || str_eq(s, "G") || str_eq(s, "GHz") || str_eq(s, "ghz")
            || str_eq(s, "GΩ") {
            Ok(Unit::Giga)
        } else if str_eq(s, "mega") || str_eq(s, "M") || str_eq(s, "MHz") || str_eq(s, "mhz")
            || str_eq(s, "MΩ") {
            Ok(Unit::Mega)
        } else if str_eq(s, "kilo") || str_eq(s, "k") || str_eq(s, "kHz") || str_eq(s, "khz")
            || str_eq(s, "kΩ") {
            Ok(Unit::Kilo)
        } else if str_eq(s, "milli") || str_eq(s, "m") || str_eq(s, "mΩ") || str_eq(s, "mF")
            || str_eq(s, "mH") {
            Ok(Unit::Milli)
        } else if str_eq(s, "micro") || str_eq(s, "u") || str_eq(s, "uΩ") || str_eq(s, "μΩ")
            || str_eq(s, "uF") || str_eq(s, "μF") || str_eq(s, "uH") || str_eq(s, "μH")
            || str_eq(s, "um") || str_eq(s, "μm") {
            Ok(Unit::Micro)
        } else if str_eq(s, "nano") || str_eq(s, "n") || str_eq(s, "nΩ") || str_eq(s, "nF")
            || str_eq(s, "nH") {
            Ok(Unit::Nano)
        } else if str_eq(s, "pico") || str_eq(s, "p") || str_eq(s, "pΩ") || str_eq(s, "pF")
            || str_eq(s, "pH") {
            Ok(Unit::Pico)
        } else if str_eq(s, "femto") || str_eq(s, "f") || str_eq(s, "fΩ") || str_eq(s, "fF")
            || str_eq(s, "fH") {
            Ok(Unit::Femto)
        } else if str_eq(s, "lambda") || str_eq(s, "λ") || str_eq(s, "wavelength") {
            Ok(Unit::Lambda)
        } else if str_eq(s, "Q") || str_eq(s, "q") {
            Ok(Unit::Q)
        } else if str_eq(s, "K") {
            Ok(Unit::K)
        } else if str_eq(s, "N") {
            Ok(Unit::N)
        } else {
            Ok(Unit::Base)
        }
    }

    /// The display prefix, "u" standing in for "μ".
    pub fn to_string(&self) -> (r: String)
        ensures
            r@ == spec_unit_label(*self),
    {
        match self {
            Unit::Tera => "T".to_owned(),
            Unit::Giga => "G".to_owned(),
            Unit::Mega => "M".to_owned(),
            Unit::Kilo => "k".to_owned(),
            Unit::Base => "".to_owned(),
            Unit::Micro => "u".to_owned(),
            Unit::Milli => "m".to_owned(),
            Unit::Nano => "n".to_owned(),
            Unit::Pico => "p".to_owned(),
            Unit::Femto => "f".to_owned(),
            Unit::Lambda => "λ".to_owned(),
            Unit::Q => "Q".to_owned(),
            Unit::K => "K".to_owned(),
            Unit::N => "N".to_owned(),
        }
    }

    /// The decimal exponent of the scale factor applied when a base value is
    /// turned into a display value; `None` for the wavelength pseudo-unit,
    /// whose factor is not a power of ten.
    pub fn scale_exponent(&self) -> (e: Option<i8>)
        ensures
            e == spec_scale_exponent(*self),
    {
        match self {
            Unit::Tera => Some(-12),
            Unit::Giga => Some(-9),
            Unit::Mega => Some(-6),
            Unit::Kilo => Some(-3),
            Unit::Base => Some(0),
            Unit::Milli => Some(3),
            Unit::Micro => Some(6),
            Unit::Nano => Some(9),
            Unit::Pico => Some(12),
            Unit::Femto => Some(15),
            Unit::Lambda => None,
            Unit::Q => Some(0),
            Unit::K => Some(0),
            Unit::N => Some(0),
        }
    }

    /// The decimal exponent of the inverse (display-to-base) factor: always
    /// the negation of `scale_exponent`.
    pub fn unscale_exponent(&self) -> (e: Option<i8>)
        ensures
            e is Some <==> spec_scale_exponent(*self) is Some,
            spec_scale_exponent(*self) matches Some(k) ==> e == Some((-k) as i8),
    {
        match self.scale_exponent() {
            Some(k) => Some(-k),
            None => None,
        }
    }
}

/// Formats the display suffix for a value of quantity `unit_type` scaled by
/// `unit`: the unit's prefix followed by the quantity's suffix, with the
/// micro prefix rendered as "μ".
pub open spec fn spec_get_unit(u: Unit, t: UnitType) -> Seq<char> {
    if u == Unit::Micro {
        "μ"@ + spec_unit_type_label(t)
    } else {
        spec_unit_label(u) + spec_unit_type_label(t)
    }
}

/// Round trip between formatting and parsing: the frequency label that
/// `get_unit` prints is parsed back to the unit it was printed from, for
/// the super-unity prefixes and the base unit. (The sub-unity prefixes
/// print labels such as "mHz" that the parser maps to the base unit, so
/// the round trip holds of exactly this set.)
pub proof fn lemma_freq_label_roundtrip(u: Unit)
    requires
        u == Unit::Tera || u == Unit::Giga || u == Unit::Mega || u == Unit::Kilo || u
            == Unit::Base,
    ensures
        spec_unit_from_str(spec_get_unit(u, UnitType::Hz)) == u,
{
    reveal_strlit("T");
    reveal_strlit("G");
    reveal_strlit("M");
    reveal_strlit("k");
    reveal_strlit("");
    reveal_strlit("Hz");
    reveal_strlit("THz");
    reveal_strlit("GHz");
    reveal_strlit("MHz");
    reveal_strlit("kHz");
    reveal_strlit("tera");
    reveal_strlit("thz");
    reveal_strlit("giga");
    reveal_strlit("ghz");
    reveal_strlit("GΩ");
    reveal_strlit("mega");
    reveal_strlit("mhz");
    reveal_strlit("MΩ");
    reveal_strlit("kilo");
    reveal_strlit("khz");
    reveal_strlit("kΩ");
    reveal_strlit("milli");
    reveal_strlit("m");
    reveal_strlit("mΩ");
    reveal_strlit("mF");
    reveal_strlit("mH");
    reveal_strlit("micro");
    reveal_strlit("u");
    reveal_strlit("uΩ");
    reveal_strlit("μΩ");
    reveal_strlit("uF");
    reveal_strlit("μF");
    reveal_strlit("uH");
    reveal_strlit("μH");
    reveal_strlit("um");
    reveal_strlit("μm");
    reveal_strlit("nano");
    reveal_strlit("n");
    reveal_strlit("nΩ");
    reveal_strlit("nF");
    reveal_strlit("nH");
    reveal_strlit("pico");
    reveal_strlit("p");
    reveal_strlit("pΩ");
    reveal_strlit("pF");
    reveal_strlit("pH");
    reveal_strlit("femto");
    reveal_strlit("f");
    reveal_strlit("fΩ");
    reveal_strlit("fF");
    reveal_strlit("fH");
    reveal_strlit("lambda");
    reveal_strlit("λ");
    reveal_strlit("wavelength");
    reveal_strlit("Q");
    reveal_strlit("q");
    reveal_strlit("K");
    reveal_strlit("N");
    // The three-character frequency labels differ in their first character,
    // which is what tells each prefix's label from the other prefixes' tags.
    assert("THz"@[0] == 'T');
    assert("thz"@[0] == 't');
    assert("GHz"@[0] == 'G');
    assert("ghz"@[0] == 'g');
    assert("MHz"@[0] == 'M');
    assert("mhz"@[0] == 'm');
    assert("kHz"@[0] == 'k');
    assert("khz"@[0] == 'k');
    if u == Unit::Tera {
        assert(spec_get_unit(u, UnitType::Hz) =~= "THz"@);
    } else if u == Unit::Giga {
        assert(spec_get_unit(u, UnitType::Hz) =~= "GHz"@);
    } else if u == Unit::Mega {
        assert(spec_get_unit(u, UnitType::Hz) =~= "MHz"@);
    } else if u == Unit::Kilo {
        assert(spec_get_unit(u, UnitType::Hz) =~= "kHz"@);
    } else {
        assert(spec_get_unit(u, UnitType::Hz) =~= "Hz"@);
        // The parser's two-character tags all open with a prefix letter, so
        // naming their first characters lets the solver tell "Hz" from each.
        assert("Hz"@[0] == 'H');
        assert("GΩ"@[0] == 'G');
        assert("MΩ"@[0] == 'M');
        assert("kΩ"@[0] == 'k');
        assert("mΩ"@[0] == 'm');
        assert("mF"@[0] == 'm');
        assert("mH"@[0] == 'm');
        assert("uΩ"@[0] == 'u');
        assert("μΩ"@[0] == 'μ');
        assert("uF"@[0] == 'u');
        assert("μF"@[0] == 'μ');
        assert("uH"@[0] == 'u');
        assert("μH"@[0] == 'μ');
        assert("um"@[0] == 'u');
        assert("μm"@[0] == 'μ');
        assert("nΩ"@[0] == 'n');
        assert("nF"@[0] == 'n');
        assert("nH"@[0] == 'n');
        assert("pΩ"@[0] == 'p');
        assert("pF"@[0] == 'p');
        assert("pH"@[0] == 'p');
        assert("fΩ"@[0] == 'f');
        assert("fF"@[0] == 'f');
        assert("fH"@[0] == 'f');
        assert(spec_unit_from_str("Hz"@) == Unit::Base);
    }
}

/// The display suffix of a scaled quantity, e.g. "fF", "pH", "GHz", "Ω".
pub fn get_unit(unit: &Unit, unit_type: &UnitType) -> (r: String)
    ensures
        r@ == spec_get_unit(*unit, *unit_type),
{
    let suffix = unit_type.to_string();
    if matches!(unit, Unit::Micro) {
        "μ".to_owned().concat(suffix.as_str())
    } else {
        unit.to_string().concat(suffix.as_str())
    }
}

} // verus!
