use tsmultimeter_backend::device::{
    Device, DeviceInfo, DeviceType, MeasurementAttribute, MeasurementState, Unit,
};
use tsmultimeter_backend::error::Error;
use tsmultimeter_backend::fluke::FlukeDevice;
use tsmultimeter_backend::framing::{
    ReadStep, ResponseReader, ACK_TIMEOUT_NANOS, PAYLOAD_IDLE_TIMEOUT_NANOS,
};

fn connected() -> Device {
    let mut fluke = FlukeDevice::new(DeviceType::Fluke289, Some("/dev/ttyUSB0".to_string()));
    fluke.port_opened();
    Device::Fluke(fluke)
}

/// Feeds the chunks to a reader, then lets reads time out until the reader
/// stops, and returns what the exchange came to.
fn exchange(chunks: &[&[u8]]) -> Result<String, Error> {
    let mut now: u128 = 0;
    let mut reader = ResponseReader::new(now);
    for chunk in chunks {
        now += 1_000_000;
        if reader.on_data(chunk, now) == ReadStep::Complete {
            return reader.finish();
        }
    }
    loop {
        now += 10_000_000;
        match reader.on_timeout(now) {
            ReadStep::Continue => {}
            ReadStep::Complete => return reader.finish(),
            ReadStep::TimedOut => return Err(Error::Timeout),
        }
    }
}

#[test]
fn measurement_after_success_ack() {
    for chunks in [
        vec![&b"0\r3.300000,VDC,NORMAL,NONE\r"[..]],
        vec![&b"0"[..], &b"3.300000,VDC,NORMAL,NONE\r"[..]],
        vec![&b"0\r"[..], &b"3.300000,VDC,"[..], &b"NORMAL,NONE\r"[..]],
    ] {
        let response = exchange(&chunks).unwrap();
        assert_eq!(response, "03.300000,VDC,NORMAL,NONE");
        let reading = connected().get_measurement(&response, None).unwrap();
        assert_eq!(reading.value.parse::<f64>(), Ok(3.3));
        assert_eq!(reading.unit, Unit::VoltDc);
        assert_eq!(reading.state, MeasurementState::Normal);
        assert_eq!(reading.attribute, MeasurementAttribute::NoAttribute);
    }
}

#[test]
fn syntax_error_ack_fails_any_call() {
    let expected = Error::InvalidCommand("Syntax error".to_string());
    for chunks in [vec![&b"1\r"[..]], vec![&b"1"[..], &b"\r"[..]], vec![&b"1\rjunk\r"[..]]] {
        let response = exchange(&chunks).unwrap();
        let mut device = connected();
        assert_eq!(device.identify(&response), Err(expected.clone()));
        assert_eq!(device.get_measurement(&response, None), Err(expected.clone()));
        assert_eq!(device.reset(&response, 1), Err(expected.clone()));
    }
}

#[test]
fn no_carriage_return_within_the_ack_window_times_out() {
    assert_eq!(exchange(&[]), Err(Error::Timeout));
    assert_eq!(exchange(&[&b"0"[..]]), Err(Error::Timeout));
    assert_eq!(exchange(&[&b"0FLUKE 289"[..], &b",V1.00"[..]]), Err(Error::Timeout));

    let mut reader = ResponseReader::new(0);
    assert_eq!(reader.on_data(b"0FLUKE", 0), ReadStep::Continue);
    let mut now = 0;
    while now <= ACK_TIMEOUT_NANOS {
        assert_eq!(reader.on_timeout(now), ReadStep::Continue);
        now += 250_000_000;
    }
    assert_eq!(reader.on_timeout(now), ReadStep::TimedOut);
}

#[test]
fn identification_response_decodes() {
    let response = exchange(&[&b"0FLUKE 289,V1.00,95081087\r"[..]]).unwrap();
    assert_eq!(response, "0FLUKE 289,V1.00,95081087");
    assert_eq!(
        connected().identify(&response),
        Ok(DeviceInfo {
            model: "FLUKE 289".to_string(),
            software_version: "V1.00".to_string(),
            serial_number: "95081087".to_string(),
        })
    );
    let response = exchange(&[&b"0\r"[..], &b"FLUKE 289,V1.00,95081087\r"[..]]).unwrap();
    assert_eq!(connected().identify(&response).unwrap().serial_number, "95081087");
}

#[test]
fn ack_only_response_stands_after_the_idle_timeout() {
    let mut reader = ResponseReader::new(0);
    assert_eq!(reader.on_data(b"0\r", 5), ReadStep::Continue);
    assert_eq!(reader.on_timeout(5 + PAYLOAD_IDLE_TIMEOUT_NANOS), ReadStep::Continue);
    assert_eq!(reader.on_timeout(6 + PAYLOAD_IDLE_TIMEOUT_NANOS), ReadStep::Complete);
    let response = reader.finish().unwrap();
    let mut device = connected();
    assert_eq!(device.reset(&response, 1), Ok(()));
    assert_eq!(
        device.identify(&response),
        Err(Error::Parse("Invalid identification response".to_string()))
    );
}
