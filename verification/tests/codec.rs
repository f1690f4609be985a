use tsmultimeter_backend::codec::{
    encode_measurement, parse_ack, parse_identification, parse_measurement, parse_measurement_at,
    parse_measurement_response,
};
use tsmultimeter_backend::tokens::{parse_attribute, parse_state, parse_unit};
use tsmultimeter_backend::device::{
    DeviceInfo, Measurement, MeasurementAttribute, MeasurementState, Timestamp, Unit,
};
use tsmultimeter_backend::error::Error;

const UNITS: [(Unit, &str); 21] = [
    (Unit::NoUnit, "NONE"),
    (Unit::VoltDc, "VDC"),
    (Unit::VoltAc, "VAC"),
    (Unit::AmpDc, "ADC"),
    (Unit::AmpAc, "AAC"),
    (Unit::VoltAcPlusDc, "VAC_PLUS_DC"),
    (Unit::AmpAcPlusDc, "AAC_PLUS_DC"),
    (Unit::Volt, "V"),
    (Unit::Amp, "A"),
    (Unit::Ohm, "OHM"),
    (Unit::Siemens, "S"),
    (Unit::Hertz, "Hz"),
    (Unit::Second, "SEC"),
    (Unit::Farad, "F"),
    (Unit::Celsius, "CEL"),
    (Unit::Fahrenheit, "FAR"),
    (Unit::Percent, "PCT"),
    (Unit::DecibelM, "dBm"),
    (Unit::DecibelV, "dBV"),
    (Unit::Decibel, "dB"),
    (Unit::CrestFactor, "CREST_FACTOR"),
];

const STATES: [(MeasurementState, &str); 7] = [
    (MeasurementState::Normal, "NORMAL"),
    (MeasurementState::Invalid, "INVALID"),
    (MeasurementState::Blank, "BLANK"),
    (MeasurementState::Overload, "OL"),
    (MeasurementState::OverloadNegative, "OL_MINUS"),
    (MeasurementState::OpenThermocouple, "OPEN_TC"),
    (MeasurementState::Discharge, "DISCHARGE"),
];

const ATTRIBUTES: [(MeasurementAttribute, &str); 9] = [
    (MeasurementAttribute::NoAttribute, "NONE"),
    (MeasurementAttribute::OpenCircuit, "OPEN_CIRCUIT"),
    (MeasurementAttribute::ShortCircuit, "SHORT_CIRCUIT"),
    (MeasurementAttribute::GlitchCircuit, "GLITCH_CIRCUIT"),
    (MeasurementAttribute::GoodDiode, "GOOD_DIODE"),
    (MeasurementAttribute::LowOhms, "LEO_OHMS"),
    (MeasurementAttribute::NegativeEdge, "NEGATIVE_EDGE"),
    (MeasurementAttribute::PositiveEdge, "POSITIVE_EDGE"),
    (MeasurementAttribute::HighCurrent, "HIGH_CURRENT"),
];

fn parse_failure(text: &str) -> Error {
    Error::Parse(text.to_string())
}

#[test]
fn unit_tokens_round_trip() {
    for (unit, token) in UNITS {
        assert_eq!(unit.token(), token);
        assert_eq!(parse_unit(token), Ok(unit));
        assert_eq!(parse_unit(unit.token()), Ok(unit));
    }
}

#[test]
fn state_tokens_round_trip() {
    for (state, token) in STATES {
        assert_eq!(state.token(), token);
        assert_eq!(parse_state(state.token()), Ok(state));
    }
}

#[test]
fn attribute_tokens_round_trip() {
    for (attribute, token) in ATTRIBUTES {
        assert_eq!(attribute.token(), token);
        assert_eq!(parse_attribute(attribute.token()), Ok(attribute));
    }
}

#[test]
fn unknown_tokens_are_parse_failures_naming_the_token() {
    assert_eq!(parse_unit("VOLTS"), Err(parse_failure("Unknown unit: VOLTS")));
    assert_eq!(parse_unit("vdc"), Err(parse_failure("Unknown unit: vdc")));
    assert_eq!(parse_unit(""), Err(parse_failure("Unknown unit: ")));
    assert_eq!(parse_unit(" VDC"), Err(parse_failure("Unknown unit:  VDC")));
    assert_eq!(parse_unit("HZ"), Err(parse_failure("Unknown unit: HZ")));
    assert_eq!(parse_state("OK"), Err(parse_failure("Unknown state: OK")));
    assert_eq!(parse_state("NONE"), Err(parse_failure("Unknown state: NONE")));
    assert_eq!(
        parse_attribute("LOW_OHMS"),
        Err(parse_failure("Unknown attribute: LOW_OHMS"))
    );
    assert_eq!(parse_attribute("VDC"), Err(parse_failure("Unknown attribute: VDC")));
}

#[test]
fn ack_codes() {
    assert_eq!(parse_ack("0"), Ok(()));
    assert_eq!(parse_ack("0FLUKE 289"), Ok(()));
    assert_eq!(parse_ack("1"), Err(Error::InvalidCommand("Syntax error".to_string())));
    assert_eq!(parse_ack("2"), Err(Error::Device("Execution error".to_string())));
    assert_eq!(parse_ack("5"), Err(Error::Device("No data available".to_string())));
    assert_eq!(parse_ack("3"), Err(parse_failure("Unknown ACK code: 3")));
    assert_eq!(parse_ack("x0"), Err(parse_failure("Unknown ACK code: x")));
    assert_eq!(parse_ack("\u{e9}"), Err(parse_failure("Unknown ACK code: \u{e9}")));
    assert_eq!(parse_ack(""), Err(parse_failure("Empty response")));
}

#[test]
fn measurement_payload_decodes() {
    let stamp = Timestamp { secs: 1_700_000_000, nanos: 5 };
    let reading = parse_measurement_at("3.300000,VDC,NORMAL,NONE", Some(stamp)).unwrap();
    assert_eq!(reading.value, "3.300000");
    assert_eq!(reading.value.parse::<f64>(), Ok(3.3));
    assert_eq!(reading.unit, Unit::VoltDc);
    assert_eq!(reading.state, MeasurementState::Normal);
    assert_eq!(reading.attribute, MeasurementAttribute::NoAttribute);
    assert_eq!(reading.timestamp, Some(stamp));
}

#[test]
fn measurement_response_with_ack_decodes() {
    let reading = parse_measurement_response("03.300000,VDC,NORMAL,NONE", None).unwrap();
    assert_eq!(
        reading,
        Measurement {
            value: "3.300000".to_string(),
            unit: Unit::VoltDc,
            state: MeasurementState::Normal,
            attribute: MeasurementAttribute::NoAttribute,
            timestamp: None,
        }
    );
    assert_eq!(reading.value.parse::<f64>(), Ok(3.3));
}

#[test]
fn measurement_fields_are_trimmed_and_extra_fields_ignored() {
    let reading =
        parse_measurement_at(" 9.9375E-3 , OHM ,\tOL , GOOD_DIODE ,extra,more", None).unwrap();
    assert_eq!(reading.value, "9.9375E-3");
    assert_eq!(reading.value.parse::<f64>(), Ok(0.0099375));
    assert_eq!(reading.unit, Unit::Ohm);
    assert_eq!(reading.state, MeasurementState::Overload);
    assert_eq!(reading.attribute, MeasurementAttribute::GoodDiode);
}

#[test]
fn measurement_with_too_few_fields_is_refused() {
    let expected = Err(parse_failure("Invalid measurement response format"));
    assert_eq!(parse_measurement_at("", None), expected);
    assert_eq!(parse_measurement_at("3.3", None), expected);
    assert_eq!(parse_measurement_at("3.3,VDC,NORMAL", None), expected);
    assert_eq!(parse_measurement_at("x,y,z", None), expected);
}

#[test]
fn measurement_failures_name_the_first_bad_field() {
    assert_eq!(
        parse_measurement_at(" abc,VDC,NORMAL,NONE", None),
        Err(parse_failure("Invalid measurement value:  abc"))
    );
    assert_eq!(
        parse_measurement_at("abc,XX,YY,ZZ", None),
        Err(parse_failure("Invalid measurement value: abc"))
    );
    assert_eq!(
        parse_measurement_at("1.0, XX ,YY,ZZ", None),
        Err(parse_failure("Unknown unit: XX"))
    );
    assert_eq!(
        parse_measurement_at("1.0,VDC,YY,ZZ", None),
        Err(parse_failure("Unknown state: YY"))
    );
    assert_eq!(
        parse_measurement_at("1.0,VDC,NORMAL,ZZ", None),
        Err(parse_failure("Unknown attribute: ZZ"))
    );
}

#[test]
fn value_shapes_agree_with_the_float_parser() {
    let texts = [
        "0", "1", "-1", "+1", "3.300000", "3.", ".5", "-.5", "+.5e3", "1e5", "1E5", "1e+5",
        "1e-5", "12.5E10", "inf", "-inf", "+INF", "Infinity", "-infinity", "nan", "NaN", "-nan",
        "00012", "0.0", "1e0", "9.9375E-3", "", ".", "-", "+", "e5", "1e", "1e+", "1e-", "1.2.3",
        "--1", "+-1", "1 ", "1,5", "0x10", "1_000", "in", "infinit", "infinityy", "nanx", "na",
        "1f", "1.e", "1.e5", ".e5", "-.", "1e5.0", "\u{661}", "1\u{a0}", "i\u{6e}f", "1d", "1ee5",
        " 1", "٣", "1.5e", "4.", "-4.e-2", "+infinity", "++inf", "e", "E", ".E1", "0e0", "5e05",
    ];
    for text in texts {
        let payload = format!("{},VDC,NORMAL,NONE", text);
        let accepted = parse_measurement_at(&payload, None).is_ok();
        let trimmed_parses = text.trim().parse::<f64>().is_ok();
        assert_eq!(accepted, trimmed_parses, "value text {:?}", text);
    }
}

#[test]
fn measurement_is_stamped_with_the_current_time() {
    let reading = parse_measurement("1.5,ADC,NORMAL,NONE").unwrap();
    let stamp = reading.timestamp.unwrap();
    assert!(stamp.secs > 1_600_000_000);
    assert_eq!(reading.unit, Unit::AmpDc);
    assert_eq!(
        parse_measurement("1.5,ADC"),
        Err(parse_failure("Invalid measurement response format"))
    );
}

#[test]
fn syntax_error_ack_fails_every_decoder() {
    let expected = Error::InvalidCommand("Syntax error".to_string());
    assert_eq!(parse_ack("1"), Err(expected.clone()));
    assert_eq!(parse_identification("1"), Err(expected.clone()));
    assert_eq!(
        parse_identification("1FLUKE 289,V1.00,95081087"),
        Err(expected.clone())
    );
    assert_eq!(parse_measurement_response("1", None), Err(expected.clone()));
    assert_eq!(
        parse_measurement_response("13.3,VDC,NORMAL,NONE", None),
        Err(expected)
    );
}

#[test]
fn identification_decodes() {
    assert_eq!(
        parse_identification("0FLUKE 289,V1.00,95081087"),
        Ok(DeviceInfo {
            model: "FLUKE 289".to_string(),
            software_version: "V1.00".to_string(),
            serial_number: "95081087".to_string(),
        })
    );
    assert_eq!(
        parse_identification("0 FLUKE 287 ,\tV1.16 , 12345678 ,more"),
        Ok(DeviceInfo {
            model: "FLUKE 287".to_string(),
            software_version: "V1.16".to_string(),
            serial_number: "12345678".to_string(),
        })
    );
    assert_eq!(
        parse_identification("0,,"),
        Ok(DeviceInfo {
            model: String::new(),
            software_version: String::new(),
            serial_number: String::new(),
        })
    );
}

#[test]
fn identification_failures() {
    assert_eq!(
        parse_identification("0FLUKE 289,V1.00"),
        Err(parse_failure("Invalid identification response"))
    );
    assert_eq!(
        parse_identification("0"),
        Err(parse_failure("Invalid identification response"))
    );
    assert_eq!(parse_identification(""), Err(parse_failure("Empty response")));
    assert_eq!(
        parse_identification("2FLUKE 289,V1.00,95081087"),
        Err(Error::Device("Execution error".to_string()))
    );
    assert_eq!(
        parse_identification("5"),
        Err(Error::Device("No data available".to_string()))
    );
    assert_eq!(parse_identification("7a,b,c"), Err(parse_failure("Unknown ACK code: 7")));
}

#[test]
fn measurement_encodes_to_wire_form() {
    let reading = Measurement {
        value: "3.300000".to_string(),
        unit: Unit::VoltDc,
        state: MeasurementState::Normal,
        attribute: MeasurementAttribute::NoAttribute,
        timestamp: None,
    };
    assert_eq!(encode_measurement(&reading), "0\r3.300000,VDC,NORMAL,NONE\r");
    let other = Measurement {
        value: "-12.5".to_string(),
        unit: Unit::Hertz,
        state: MeasurementState::OverloadNegative,
        attribute: MeasurementAttribute::LowOhms,
        timestamp: Some(Timestamp { secs: 1, nanos: 2 }),
    };
    assert_eq!(encode_measurement(&other), "0\r-12.5,Hz,OL_MINUS,LEO_OHMS\r");
}

#[test]
fn error_messages() {
    assert_eq!(Error::Timeout.message(), "Timeout error");
    assert_eq!(Error::Parse("x".to_string()).message(), "Parse error: x");
    assert_eq!(Error::Device("x".to_string()).message(), "Device error: x");
    assert_eq!(Error::InvalidCommand("x".to_string()).message(), "Invalid command: x");
    assert_eq!(Error::Connection("x".to_string()).message(), "Connection error: x");
    assert_eq!(Error::Config("x".to_string()).message(), "Configuration error: x");
    assert_eq!(Error::Serial("x".to_string()).message(), "Serial communication error: x");
    assert_eq!(Error::Io("x".to_string()).message(), "IO error: x");
    assert_eq!(Error::Json("x".to_string()).message(), "JSON serialization error: x");
}
