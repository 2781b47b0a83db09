use std::convert::TryFrom;

use rawler::imgop::xyz::{select_temperature_bracket, Illuminant, TemperatureBracket};

const ALL: [(Illuminant, u16, &str, Option<u32>); 20] = [
    (Illuminant::Unknown, 0, "Unknown", None),
    (Illuminant::Daylight, 1, "Daylight", Some(5500)),
    (Illuminant::Fluorescent, 2, "Fluorescent", Some(4150)),
    (Illuminant::Tungsten, 3, "Tungsten", Some(2850)),
    (Illuminant::Flash, 4, "Flash", Some(5500)),
    (Illuminant::FineWeather, 9, "FineWeather", Some(5500)),
    (Illuminant::CloudyWeather, 10, "CloudyWeather", Some(6500)),
    (Illuminant::Shade, 11, "Shade", Some(7500)),
    (Illuminant::DaylightFluorescent, 12, "DaylightFluorescent", Some(6400)),
    (Illuminant::DaylightWhiteFluorescent, 13, "DaylightWhiteFluorescent", Some(5050)),
    (Illuminant::CoolWhiteFluorescent, 14, "CoolWhiteFluorescent", Some(4150)),
    (Illuminant::WhiteFluorescent, 15, "WhiteFluorescent", Some(3525)),
    (Illuminant::A, 17, "A", Some(2850)),
    (Illuminant::B, 18, "B", Some(5500)),
    (Illuminant::C, 19, "C", Some(6500)),
    (Illuminant::D55, 20, "D55", Some(5500)),
    (Illuminant::D65, 21, "D65", Some(6500)),
    (Illuminant::D75, 22, "D75", Some(7500)),
    (Illuminant::D50, 23, "D50", Some(5000)),
    (Illuminant::IsoStudioTungsten, 24, "IsoStudioTungsten", Some(3200)),
];

#[test]
fn tag_values_round_trip() {
    for (illuminant, code, _, _) in ALL {
        assert_eq!(u16::from(illuminant), code);
        assert_eq!(illuminant.code(), code);
        assert_eq!(Illuminant::try_from(code), Ok(illuminant));
        assert_eq!(Illuminant::try_from(u16::from(illuminant)), Ok(illuminant));
    }
}

#[test]
fn unknown_tag_values_are_refused() {
    for v in [5u16, 6, 7, 8, 16, 25, 255, 1000, u16::MAX] {
        assert_eq!(Illuminant::try_from(v), Err(format!("Unknown illuminant value: {}", v)));
    }
    assert_eq!(Illuminant::try_from(5u16), Err("Unknown illuminant value: 5".to_string()));
    assert_eq!(Illuminant::try_from(65535u16), Err("Unknown illuminant value: 65535".to_string()));
}

#[test]
fn names_round_trip() {
    for (illuminant, _, name, _) in ALL {
        assert_eq!(Illuminant::new_from_str(name), Ok(illuminant));
        assert_eq!(format!("{:?}", illuminant), name);
    }
}

#[test]
fn unknown_names_are_refused() {
    assert_eq!(Illuminant::new_from_str("d65"), Err("Unknown illuminant name: 'd65'".to_string()));
    assert_eq!(Illuminant::new_from_str(""), Err("Unknown illuminant name: ''".to_string()));
    assert_eq!(
        Illuminant::new_from_str("D65 "),
        Err("Unknown illuminant name: 'D65 '".to_string())
    );
    assert_eq!(Illuminant::new_from_str("Dämmerung"), Err("Unknown illuminant name: 'Dämmerung'".to_string()));
}

#[test]
fn temperatures_of_illuminants() {
    for (illuminant, _, _, kelvin) in ALL {
        assert_eq!(illuminant.temperature(), kelvin);
    }
}

#[test]
fn bracket_is_none_without_known_temperatures() {
    assert_eq!(select_temperature_bracket(&[]), None);
    assert_eq!(select_temperature_bracket(&[Illuminant::Unknown, Illuminant::Unknown]), None);
}

#[test]
fn bracket_of_a_single_illuminant() {
    assert_eq!(
        select_temperature_bracket(&[Illuminant::Unknown, Illuminant::D65]),
        Some(TemperatureBracket { low: 1, low_kelvin: 6500, high: 1, high_kelvin: 6500, start_kelvin: 6500 })
    );
    assert_eq!(
        select_temperature_bracket(&[Illuminant::A]),
        Some(TemperatureBracket { low: 0, low_kelvin: 2850, high: 0, high_kelvin: 2850, start_kelvin: 2850 })
    );
}

#[test]
fn bracket_of_dual_illuminants() {
    assert_eq!(
        select_temperature_bracket(&[Illuminant::D65, Illuminant::A]),
        Some(TemperatureBracket { low: 1, low_kelvin: 2850, high: 0, high_kelvin: 6500, start_kelvin: 5000 })
    );
    assert_eq!(
        select_temperature_bracket(&[Illuminant::D75, Illuminant::Shade, Illuminant::D55]),
        Some(TemperatureBracket { low: 2, low_kelvin: 5500, high: 1, high_kelvin: 7500, start_kelvin: 5500 })
    );
}

#[test]
fn bracket_ties_keep_the_order_of_a_stable_sort() {
    // Equal temperatures: the first of the coolest and the last of the warmest.
    assert_eq!(
        select_temperature_bracket(&[Illuminant::A, Illuminant::D65, Illuminant::Tungsten, Illuminant::C]),
        Some(TemperatureBracket { low: 0, low_kelvin: 2850, high: 3, high_kelvin: 6500, start_kelvin: 5000 })
    );
}
