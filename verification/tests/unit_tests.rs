use rfmatch::unit::{get_unit, Unit, UnitType};

#[test]
fn test_unit_from_str() {
    let tera = ["tera", "T", "THz", "thz"];
    let giga = ["giga", "G", "GHz", "ghz", "GΩ"];
    let mega = ["mega", "M", "MHz", "mhz", "MΩ"];
    let kilo = ["kilo", "k", "kHz", "khz", "kΩ"];
    let milli = ["milli", "m", "mΩ", "mF", "mH"];
    let micro = ["micro", "u", "μΩ", "μF", "μH"];
    let nano = ["nano", "n", "nΩ", "nF", "nH"];
    let pico = ["pico", "p", "pΩ", "pF", "pH"];
    let femto = ["femto", "f", "fΩ", "fF", "fH"];
    let lambda = ["lambda", "λ"];
    let nada = ["", "google", ".sfwe"];

    for mult in tera.iter() {
        assert_eq!(Unit::from_str(mult).unwrap(), Unit::Tera);
    }

    for mult in giga.iter() {
        assert_eq!(Unit::from_str(mult).unwrap(), Unit::Giga);
    }

    for mult in mega.iter() {
        assert_eq!(Unit::from_str(mult).unwrap(), Unit::Mega);
    }

    for mult in kilo.iter() {
        assert_eq!(Unit::from_str(mult).unwrap(), Unit::Kilo);
    }

    for mult in milli.iter() {
        assert_eq!(Unit::from_str(mult).unwrap(), Unit::Milli);
    }

    for mult in micro.iter() {
        assert_eq!(Unit::from_str(mult).unwrap(), Unit::Micro);
    }

    for mult in nano.iter() {
        assert_eq!(Unit::from_str(mult).unwrap(), Unit::Nano);
    }

    for mult in pico.iter() {
        assert_eq!(Unit::from_str(mult).unwrap(), Unit::Pico);
    }

    for mult in femto.iter() {
        assert_eq!(Unit::from_str(mult).unwrap(), Unit::Femto);
    }

    for mult in lambda.iter() {
        assert_eq!(Unit::from_str(mult).unwrap(), Unit::Lambda);
    }

    for mult in nada.iter() {
        assert_eq!(Unit::from_str(mult).unwrap(), Unit::Base);
    }
}

#[test]
fn test_get_unit() {
    assert_eq!(get_unit(&Unit::Tera, &UnitType::Farad), "TF".to_string());
    assert_eq!(get_unit(&Unit::Tera, &UnitType::Henry), "TH".to_string());
    assert_eq!(get_unit(&Unit::Tera, &UnitType::Ohm), "TΩ".to_string());
    assert_eq!(get_unit(&Unit::Tera, &UnitType::Hz), "THz".to_string());

    assert_eq!(get_unit(&Unit::Giga, &UnitType::Farad), "GF".to_string());
    assert_eq!(get_unit(&Unit::Giga, &UnitType::Henry), "GH".to_string());
    assert_eq!(get_unit(&Unit::Giga, &UnitType::Ohm), "GΩ".to_string());
    assert_eq!(get_unit(&Unit::Giga, &UnitType::Hz), "GHz".to_string());

    assert_eq!(get_unit(&Unit::Mega, &UnitType::Farad), "MF".to_string());
    assert_eq!(get_unit(&Unit::Mega, &UnitType::Henry), "MH".to_string());
    assert_eq!(get_unit(&Unit::Mega, &UnitType::Ohm), "MΩ".to_string());
    assert_eq!(get_unit(&Unit::Mega, &UnitType::Hz), "MHz".to_string());

    assert_eq!(get_unit(&Unit::Kilo, &UnitType::Farad), "kF".to_string());
    assert_eq!(get_unit(&Unit::Kilo, &UnitType::Henry), "kH".to_string());
    assert_eq!(get_unit(&Unit::Kilo, &UnitType::Ohm), "kΩ".to_string());
    assert_eq!(get_unit(&Unit::Kilo, &UnitType::Hz), "kHz".to_string());

    assert_eq!(get_unit(&Unit::Milli, &UnitType::Farad), "mF".to_string());
    assert_eq!(get_unit(&Unit::Milli, &UnitType::Henry), "mH".to_string());
    assert_eq!(get_unit(&Unit::Milli, &UnitType::Ohm), "mΩ".to_string());
    assert_eq!(get_unit(&Unit::Milli, &UnitType::Hz), "mHz".to_string());

    assert_eq!(get_unit(&Unit::Micro, &UnitType::Farad), "μF".to_string());
    assert_eq!(get_unit(&Unit::Micro, &UnitType::Henry), "μH".to_string());
    assert_eq!(get_unit(&Unit::Micro, &UnitType::Ohm), "μΩ".to_string());
    assert_eq!(get_unit(&Unit::Micro, &UnitType::Hz), "μHz".to_string());

    assert_eq!(get_unit(&Unit::Nano, &UnitType::Farad), "nF".to_string());
    assert_eq!(get_unit(&Unit::Nano, &UnitType::Henry), "nH".to_string());
    assert_eq!(get_unit(&Unit::Nano, &UnitType::Ohm), "nΩ".to_string());
    assert_eq!(get_unit(&Unit::Nano, &UnitType::Hz), "nHz".to_string());

    assert_eq!(get_unit(&Unit::Pico, &UnitType::Farad), "pF".to_string());
    assert_eq!(get_unit(&Unit::Pico, &UnitType::Henry), "pH".to_string());
    assert_eq!(get_unit(&Unit::Pico, &UnitType::Ohm), "pΩ".to_string());
    assert_eq!(get_unit(&Unit::Pico, &UnitType::Hz), "pHz".to_string());

    assert_eq!(get_unit(&Unit::Femto, &UnitType::Farad), "fF".to_string());
    assert_eq!(get_unit(&Unit::Femto, &UnitType::Henry), "fH".to_string());
    assert_eq!(get_unit(&Unit::Femto, &UnitType::Ohm), "fΩ".to_string());
    assert_eq!(get_unit(&Unit::Femto, &UnitType::Hz), "fHz".to_string());

    assert_eq!(get_unit(&Unit::Base, &UnitType::Farad), "F".to_string());
    assert_eq!(get_unit(&Unit::Base, &UnitType::Henry), "H".to_string());
    assert_eq!(get_unit(&Unit::Base, &UnitType::Ohm), "Ω".to_string());
    assert_eq!(get_unit(&Unit::Base, &UnitType::Hz), "Hz".to_string());
}

#[test]
fn unit_type_from_str_accepts_each_alias() {
    for s in ["c", "cap", "capacitor", "F"] {
        assert_eq!(UnitType::from_str(s).unwrap(), UnitType::Farad);
    }
    for s in ["l", "ind", "inductor", "H"] {
        assert_eq!(UnitType::from_str(s).unwrap(), UnitType::Henry);
    }
    for s in ["r", "res", "resistor", "Ω"] {
        assert_eq!(UnitType::from_str(s).unwrap(), UnitType::Ohm);
    }
    for s in ["f", "freq", "frequency", "Hz", "hz"] {
        assert_eq!(UnitType::from_str(s).unwrap(), UnitType::Hz);
    }
}

#[test]
fn unit_type_from_str_rejects_unknown() {
    let e = UnitType::from_str("farad").unwrap_err();
    assert_eq!(e, "UnitType not recognize".to_string());
    assert!(UnitType::from_str("").is_err());
}

#[test]
fn unit_type_to_string_table() {
    assert_eq!(UnitType::Farad.to_string(), "F".to_string());
    assert_eq!(UnitType::Henry.to_string(), "H".to_string());
    assert_eq!(UnitType::Ohm.to_string(), "Ω".to_string());
    assert_eq!(UnitType::Hz.to_string(), "Hz".to_string());
}

#[test]
fn unit_to_string_table() {
    assert_eq!(Unit::Tera.to_string(), "T".to_string());
    assert_eq!(Unit::Giga.to_string(), "G".to_string());
    assert_eq!(Unit::Mega.to_string(), "M".to_string());
    assert_eq!(Unit::Kilo.to_string(), "k".to_string());
    assert_eq!(Unit::Base.to_string(), "".to_string());
    assert_eq!(Unit::Milli.to_string(), "m".to_string());
    assert_eq!(Unit::Micro.to_string(), "u".to_string());
    assert_eq!(Unit::Nano.to_string(), "n".to_string());
    assert_eq!(Unit::Pico.to_string(), "p".to_string());
    assert_eq!(Unit::Femto.to_string(), "f".to_string());
    assert_eq!(Unit::Lambda.to_string(), "λ".to_string());
    assert_eq!(Unit::Q.to_string(), "Q".to_string());
    assert_eq!(Unit::K.to_string(), "K".to_string());
    assert_eq!(Unit::N.to_string(), "N".to_string());
}

#[test]
fn scale_exponent_table() {
    assert_eq!(Unit::Tera.scale_exponent(), Some(-12));
    assert_eq!(Unit::Giga.scale_exponent(), Some(-9));
    assert_eq!(Unit::Mega.scale_exponent(), Some(-6));
    assert_eq!(Unit::Kilo.scale_exponent(), Some(-3));
    assert_eq!(Unit::Base.scale_exponent(), Some(0));
    assert_eq!(Unit::Milli.scale_exponent(), Some(3));
    assert_eq!(Unit::Micro.scale_exponent(), Some(6));
    assert_eq!(Unit::Nano.scale_exponent(), Some(9));
    assert_eq!(Unit::Pico.scale_exponent(), Some(12));
    assert_eq!(Unit::Femto.scale_exponent(), Some(15));
    assert_eq!(Unit::Lambda.scale_exponent(), None);
    assert_eq!(Unit::Q.scale_exponent(), Some(0));
    assert_eq!(Unit::K.scale_exponent(), Some(0));
    assert_eq!(Unit::N.scale_exponent(), Some(0));
}

#[test]
fn unscale_exponent_negates_scale_exponent() {
    for u in [
        Unit::Tera,
        Unit::Giga,
        Unit::Mega,
        Unit::Kilo,
        Unit::Base,
        Unit::Milli,
        Unit::Micro,
        Unit::Nano,
        Unit::Pico,
        Unit::Femto,
        Unit::Q,
        Unit::K,
        Unit::N,
    ] {
        assert_eq!(u.unscale_exponent(), u.scale_exponent().map(|e| -e));
    }
    assert_eq!(Unit::Lambda.unscale_exponent(), None);
}

#[test]
fn freq_label_roundtrip_examples() {
    for u in [Unit::Tera, Unit::Giga, Unit::Mega, Unit::Kilo, Unit::Base] {
        let label = get_unit(&u, &UnitType::Hz);
        assert_eq!(Unit::from_str(label.as_str()).unwrap(), u);
    }
    // A sub-unity prefix does not round-trip: "mHz" is not a parser tag.
    let label = get_unit(&Unit::Milli, &UnitType::Hz);
    assert_eq!(Unit::from_str(label.as_str()).unwrap(), Unit::Base);
}

#[test]
fn pseudo_unit_parsing() {
    assert_eq!(Unit::from_str("Q").unwrap(), Unit::Q);
    assert_eq!(Unit::from_str("q").unwrap(), Unit::Q);
    assert_eq!(Unit::from_str("K").unwrap(), Unit::K);
    assert_eq!(Unit::from_str("N").unwrap(), Unit::N);
    assert_eq!(Unit::from_str("wavelength").unwrap(), Unit::Lambda);
}
