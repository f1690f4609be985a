use tsmultimeter_backend::device::{
    DeviceInfo, DeviceType, MeasurementAttribute, MeasurementState, Timestamp, Unit,
};
use tsmultimeter_backend::error::Error;
use tsmultimeter_backend::codec::{encode_measurement, parse_measurement_response};
use tsmultimeter_backend::device::Measurement;
use tsmultimeter_backend::framing::{normalize_response, ReadStep, ResponseReader};
use tsmultimeter_backend::mock::{MockDevice, MockProfile, PROFILE_COUNT};

fn not_connected() -> Error {
    Error::Connection("Not connected".to_string())
}

#[test]
fn profiles_and_their_units() {
    assert_eq!(PROFILE_COUNT, 5);
    assert_eq!(MockProfile::from_index(0), MockProfile::VoltageSine);
    assert_eq!(MockProfile::from_index(1), MockProfile::TemperatureDrift);
    assert_eq!(MockProfile::from_index(2), MockProfile::ResistanceSweep);
    assert_eq!(MockProfile::from_index(3), MockProfile::FrequencyPulse);
    assert_eq!(MockProfile::from_index(4), MockProfile::CurrentSine);
    assert_eq!(MockProfile::from_index(77), MockProfile::CurrentSine);
    assert_eq!(MockProfile::VoltageSine.unit(), Unit::VoltDc);
    assert_eq!(MockProfile::TemperatureDrift.unit(), Unit::Celsius);
    assert_eq!(MockProfile::ResistanceSweep.unit(), Unit::Ohm);
    assert_eq!(MockProfile::FrequencyPulse.unit(), Unit::Hertz);
    assert_eq!(MockProfile::CurrentSine.unit(), Unit::AmpDc);
}

#[test]
fn new_mock_is_disconnected_and_refuses_operations() {
    let mut mock = MockDevice::new();
    assert!(!mock.is_connected());
    assert_eq!(mock.device_type(), DeviceType::Mock);
    assert_eq!(mock.profile(), None);
    assert_eq!(mock.identify(), Err(not_connected()));
    assert_eq!(mock.get_measurement("1.0", None), Err(not_connected()));
    assert_eq!(mock.reset(2_000), Err(not_connected()));
    assert_eq!(mock.reset_with(2, 2_000), Err(not_connected()));
    assert_eq!(mock.send_command("ID", "1.0"), Err(not_connected()));
    assert_eq!(mock.respond("ID", "1.0"), Err(not_connected()));
    assert!(!mock.is_connected());
}

#[test]
fn connect_draws_a_profile() {
    for _ in 0..50 {
        let mut mock = MockDevice::new();
        assert_eq!(mock.connect(1_000), Ok(()));
        assert!(mock.is_connected());
        assert!(mock.profile().is_some());
    }
}

#[test]
fn connecting_twice_changes_nothing() {
    let mut mock = MockDevice::new();
    assert_eq!(mock.connect_with(2, 1_000), Ok(()));
    assert_eq!(mock.profile(), Some(MockProfile::ResistanceSweep));
    assert_eq!(mock.connect_with(0, 1_000), Ok(()));
    assert_eq!(mock.profile(), Some(MockProfile::ResistanceSweep));
    for _ in 0..20 {
        assert_eq!(mock.connect(1_000), Ok(()));
        assert_eq!(mock.profile(), Some(MockProfile::ResistanceSweep));
    }
    assert!(mock.is_connected());
}

#[test]
fn disconnect_forgets_the_profile_and_is_idempotent() {
    let mut mock = MockDevice::new();
    assert_eq!(mock.disconnect(), Ok(()));
    mock.connect_with(1, 1_000).unwrap();
    assert_eq!(mock.disconnect(), Ok(()));
    assert!(!mock.is_connected());
    assert_eq!(mock.profile(), None);
    assert_eq!(mock.disconnect(), Ok(()));
    mock.connect_with(3, 1_000).unwrap();
    assert_eq!(mock.profile(), Some(MockProfile::FrequencyPulse));
}

#[test]
fn mock_identity() {
    let mut mock = MockDevice::new();
    mock.connect(1_000).unwrap();
    assert_eq!(
        mock.identify(),
        Ok(DeviceInfo {
            model: "MOCK-MULTIMETER".to_string(),
            serial_number: "MOCK123456".to_string(),
            software_version: "V1.0.0-MOCK".to_string(),
        })
    );
}

#[test]
fn mock_reading_uses_the_unit_of_the_profile() {
    let mut mock = MockDevice::new();
    mock.connect_with(1, 1_000).unwrap();
    let stamp = Timestamp { secs: 12, nanos: 34 };
    let reading = mock.get_measurement("21.537", Some(stamp)).unwrap();
    assert_eq!(reading.value, "21.537");
    assert_eq!(reading.unit, Unit::Celsius);
    assert_eq!(reading.state, MeasurementState::Normal);
    assert_eq!(reading.attribute, MeasurementAttribute::NoAttribute);
    assert_eq!(reading.timestamp, Some(stamp));
}

#[test]
fn reset_restarts_with_a_profile() {
    let mut mock = MockDevice::new();
    mock.connect_with(0, 1_000).unwrap();
    assert_eq!(mock.reset_with(4, 2_000), Ok(()));
    assert_eq!(mock.profile(), Some(MockProfile::CurrentSine));
    for _ in 0..20 {
        assert_eq!(mock.reset(2_000), Ok(()));
        assert!(mock.is_connected());
        assert!(mock.profile().is_some());
    }
}

#[test]
fn mock_answers_the_command_vocabulary() {
    let mut mock = MockDevice::new();
    mock.connect_with(0, 1_000).unwrap();
    let identity = "0\rMOCK-MULTIMETER,V1.0.0-MOCK,MOCK123456\r".to_string();
    assert_eq!(mock.send_command("ID", "3.300000"), Ok(identity.clone()));
    assert_eq!(mock.send_command("id", "3.300000"), Ok(identity.clone()));
    assert_eq!(mock.send_command("Id", "3.300000"), Ok(identity));
    assert_eq!(
        mock.send_command("QM", "3.300000"),
        Ok("0\r3.300000,VDC,NORMAL,NONE\r".to_string())
    );
    assert_eq!(
        mock.send_command("qm", "-0.250000"),
        Ok("0\r-0.250000,VDC,NORMAL,NONE\r".to_string())
    );
    assert_eq!(mock.send_command("RI", ""), Ok("0\r".to_string()));
    assert_eq!(mock.send_command("RI", "not a number"), Ok("0\r".to_string()));
    assert_eq!(mock.send_command("rmp", ""), Ok("0\r".to_string()));
    assert_eq!(mock.send_command("Ds", ""), Ok("0\r".to_string()));
    assert_eq!(mock.send_command("XYZ", ""), Ok("1\r".to_string()));
    assert_eq!(mock.send_command("", ""), Ok("1\r".to_string()));
    assert_eq!(mock.send_command("ID ", ""), Ok("1\r".to_string()));
    assert_eq!(mock.send_command("QM\r", ""), Ok("1\r".to_string()));
}

#[test]
fn respond_takes_capitals_only() {
    let mut mock = MockDevice::new();
    mock.connect_with(3, 1_000).unwrap();
    assert_eq!(
        mock.respond("QM", "1000.000000"),
        Ok("0\r1000.000000,Hz,NORMAL,NONE\r".to_string())
    );
    assert_eq!(mock.respond("qm", "1000.000000"), Ok("1\r".to_string()));
    assert_eq!(mock.respond("DS", ""), Ok("0\r".to_string()));
}

#[test]
fn every_profile_reports_in_its_unit_on_the_wire() {
    let expected = ["VDC", "CEL", "OHM", "Hz", "ADC"];
    for index in 0..5u32 {
        let mut mock = MockDevice::new();
        mock.connect_with(index, 1_000).unwrap();
        assert_eq!(
            mock.send_command("QM", "1.000000"),
            Ok(format!("0\r1.000000,{},NORMAL,NONE\r", expected[index as usize]))
        );
    }
}

#[test]
fn mock_answer_reads_like_hardware() {
    for index in 0..5u32 {
        for value in ["3.300000", "-0.000001", "12345.678900", "0.000000", "inf", "NaN", "1e-7"] {
            let mut mock = MockDevice::new();
            mock.connect_with(index, 1_000).unwrap();
            let stamp = Timestamp { secs: 5, nanos: 6 };
            let wire = mock.send_command("QM", value).unwrap();
            let mut reader = ResponseReader::new(0);
            assert_eq!(reader.on_data(wire.as_bytes(), 1), ReadStep::Complete);
            let normalized = reader.finish().unwrap();
            assert_eq!(Ok(normalized.clone()), normalize_response(&wire));
            assert_eq!(
                parse_measurement_response(&normalized, Some(stamp)),
                mock.get_measurement(value, Some(stamp))
            );
        }
    }
}

#[test]
fn encoded_readings_decode_to_themselves() {
    let units = [Unit::NoUnit, Unit::VoltAcPlusDc, Unit::DecibelM, Unit::CrestFactor, Unit::Hertz];
    let states = [MeasurementState::Normal, MeasurementState::OverloadNegative];
    let attributes = [MeasurementAttribute::NoAttribute, MeasurementAttribute::LowOhms];
    for unit in units {
        for state in states {
            for attribute in attributes {
                let reading = Measurement {
                    value: "-1.25e-3".to_string(),
                    unit,
                    state,
                    attribute,
                    timestamp: None,
                };
                let normalized = normalize_response(&encode_measurement(&reading)).unwrap();
                assert_eq!(parse_measurement_response(&normalized, None), Ok(reading));
            }
        }
    }
}

#[test]
fn generator_starts_at_connect_and_restarts_at_reset() {
    let mut mock = MockDevice::new();
    assert_eq!(mock.started_at(), None);
    assert_eq!(mock.elapsed(5), None);
    mock.connect_with(2, 1_000).unwrap();
    assert_eq!(mock.started_at(), Some(1_000));
    assert_eq!(mock.elapsed(1_000), Some(0));
    assert_eq!(mock.elapsed(4_500), Some(3_500));
    assert_eq!(mock.elapsed(999), Some(0));
    mock.connect_with(3, 9_000).unwrap();
    mock.connect(9_500).unwrap();
    assert_eq!(mock.started_at(), Some(1_000));
    assert_eq!(mock.profile(), Some(MockProfile::ResistanceSweep));
    assert_eq!(mock.reset_with(2, 7_000), Ok(()));
    assert_eq!(mock.started_at(), Some(7_000));
    assert_eq!(mock.elapsed(7_250), Some(250));
    assert_eq!(mock.reset(8_000), Ok(()));
    assert_eq!(mock.started_at(), Some(8_000));
    assert!(mock.profile().is_some());
    mock.disconnect().unwrap();
    assert_eq!(mock.started_at(), None);
    assert_eq!(mock.elapsed(9_000), None);
    assert_eq!(mock.reset(9_000), Err(not_connected()));
    assert_eq!(mock.started_at(), None);
    mock.connect(11_000).unwrap();
    assert_eq!(mock.started_at(), Some(11_000));
}

#[test]
fn sampled_value_has_to_be_a_number() {
    let mut mock = MockDevice::new();
    mock.connect_with(0, 0).unwrap();
    for value in ["abc", "", " 1.0", "1.0 ", "1,5", "1.0\r", "--1"] {
        let expected = Error::Parse(format!("Invalid measurement value: {}", value));
        assert_eq!(mock.get_measurement(value, None), Err(expected.clone()));
        assert_eq!(mock.send_command("QM", value), Err(expected.clone()));
        assert_eq!(mock.respond("QM", value), Err(expected));
        assert_eq!(
            mock.send_command("ID", value),
            Ok("0\rMOCK-MULTIMETER,V1.0.0-MOCK,MOCK123456\r".to_string())
        );
        assert_eq!(mock.send_command("nonsense", value), Ok("1\r".to_string()));
    }
    mock.disconnect().unwrap();
    assert_eq!(mock.get_measurement("abc", None), Err(not_connected()));
    assert_eq!(mock.send_command("QM", "abc"), Err(not_connected()));
}
