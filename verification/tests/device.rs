use tsmultimeter_backend::device::{
    create_device, Device, DeviceInfo, DeviceType, MeasurementAttribute, MeasurementState, Unit,
};
use tsmultimeter_backend::error::Error;
use tsmultimeter_backend::fluke::{
    ConnectStep, FlowControl, FlukeDevice, Parity, PortSettings, BAUD_RATE, OPEN_SETTLE_MILLIS,
    READ_TIMEOUT_MILLIS,
};
use tsmultimeter_backend::mock::MockDevice;

fn not_connected() -> Error {
    Error::Connection("Not connected".to_string())
}

fn connected_fluke() -> FlukeDevice {
    let mut fluke = FlukeDevice::new(DeviceType::Fluke289, Some("/dev/ttyUSB0".to_string()));
    fluke.port_opened();
    fluke
}

#[test]
fn device_type_names() {
    assert_eq!(DeviceType::Fluke289.name(), "Fluke289");
    assert_eq!(DeviceType::Fluke287.name(), "Fluke287");
    assert_eq!(DeviceType::Mock.name(), "Mock");
    for kind in [DeviceType::Fluke289, DeviceType::Fluke287, DeviceType::Mock] {
        assert_eq!(DeviceType::from_name(kind.name()), Some(kind));
    }
    assert_eq!(DeviceType::from_name("mock"), None);
    assert_eq!(DeviceType::from_name("Fluke"), None);
    assert_eq!(DeviceType::from_name("Fluke2890"), None);
    assert_eq!(DeviceType::from_name(""), None);
}

#[test]
fn fluke_connect_asks_for_the_serial_profile() {
    let fluke = FlukeDevice::new(DeviceType::Fluke287, Some("COM3".to_string()));
    assert!(!fluke.is_connected());
    assert_eq!(fluke.device_type(), DeviceType::Fluke287);
    assert_eq!(
        fluke.connect(),
        Ok(ConnectStep::Open(PortSettings {
            port_name: "COM3".to_string(),
            baud_rate: 115_200,
            data_bits: 8,
            parity: Parity::Absent,
            stop_bits: 1,
            flow_control: FlowControl::Absent,
            timeout_millis: 1000,
        }))
    );
    assert!(!fluke.is_connected());
    assert_eq!(BAUD_RATE, 115_200);
    assert_eq!(READ_TIMEOUT_MILLIS, 1000);
    assert_eq!(OPEN_SETTLE_MILLIS, 150);
}

#[test]
fn fluke_without_port_cannot_connect() {
    let fluke = FlukeDevice::new(DeviceType::Fluke289, None);
    assert_eq!(fluke.connect(), Err(Error::Config("No port specified".to_string())));
    assert!(!fluke.is_connected());
}

#[test]
fn connected_fluke_connects_again_without_effect() {
    let fluke = connected_fluke();
    assert!(fluke.is_connected());
    assert_eq!(fluke.connect(), Ok(ConnectStep::Ready));
    assert_eq!(fluke.connect(), Ok(ConnectStep::Ready));
    assert!(fluke.is_connected());
    let mut without_port = FlukeDevice::new(DeviceType::Fluke289, None);
    without_port.port_opened();
    assert_eq!(without_port.connect(), Ok(ConnectStep::Ready));
}

#[test]
fn fluke_disconnect_is_idempotent() {
    let mut fluke = connected_fluke();
    assert_eq!(fluke.disconnect(), Ok(()));
    assert!(!fluke.is_connected());
    assert_eq!(fluke.disconnect(), Ok(()));
    assert!(!fluke.is_connected());
    assert!(matches!(fluke.connect(), Ok(ConnectStep::Open(_))));
}

#[test]
fn disconnected_fluke_refuses_every_operation() {
    let fluke = FlukeDevice::new(DeviceType::Fluke289, Some("COM1".to_string()));
    assert_eq!(fluke.transmit("ID"), Err(not_connected()));
    assert_eq!(fluke.identify("0FLUKE 289,V1.00,95081087"), Err(not_connected()));
    assert_eq!(fluke.get_measurement("03.3,VDC,NORMAL,NONE", None), Err(not_connected()));
    assert_eq!(fluke.reset("0"), Err(not_connected()));
    assert_eq!(fluke.send_command("0"), Err(not_connected()));
}

#[test]
fn connected_fluke_decodes_responses() {
    let fluke = connected_fluke();
    assert_eq!(fluke.transmit("QM"), Ok(b"QM\r".to_vec()));
    assert_eq!(
        fluke.identify("0FLUKE 289,V1.00,95081087"),
        Ok(DeviceInfo {
            model: "FLUKE 289".to_string(),
            software_version: "V1.00".to_string(),
            serial_number: "95081087".to_string(),
        })
    );
    let reading = fluke.get_measurement("03.300000,VDC,NORMAL,NONE", None).unwrap();
    assert_eq!(reading.value.parse::<f64>(), Ok(3.3));
    assert_eq!(reading.unit, Unit::VoltDc);
    assert_eq!(reading.state, MeasurementState::Normal);
    assert_eq!(reading.attribute, MeasurementAttribute::NoAttribute);
    assert_eq!(fluke.reset("0"), Ok(()));
    assert_eq!(fluke.reset("2"), Err(Error::Device("Execution error".to_string())));
    assert_eq!(fluke.send_command("1"), Ok("1".to_string()));
    assert_eq!(fluke.send_command("0abc"), Ok("0abc".to_string()));
}

#[test]
fn syntax_error_ack_fails_every_typed_operation() {
    let expected = Error::InvalidCommand("Syntax error".to_string());
    let fluke = connected_fluke();
    assert_eq!(fluke.identify("1"), Err(expected.clone()));
    assert_eq!(fluke.get_measurement("1", None), Err(expected.clone()));
    assert_eq!(fluke.reset("1"), Err(expected.clone()));
    let device = Device::Fluke(connected_fluke());
    assert_eq!(device.identify("1whatever"), Err(expected.clone()));
    assert_eq!(device.get_measurement("1,2,3,4", None), Err(expected.clone()));
    let mut device = device;
    assert_eq!(device.reset("1", 9), Err(expected));
}

#[test]
fn factory_selects_the_variant() {
    let fluke = create_device(DeviceType::Fluke289, Some("COM7".to_string()));
    assert!(matches!(fluke, Device::Fluke(_)));
    assert_eq!(fluke.device_type(), DeviceType::Fluke289);
    assert!(!fluke.is_connected());
    let other = create_device(DeviceType::Fluke287, None);
    assert!(matches!(other, Device::Fluke(_)));
    assert_eq!(other.device_type(), DeviceType::Fluke287);
    let mock = create_device(DeviceType::Mock, Some("ignored".to_string()));
    assert!(matches!(mock, Device::Mock(_)));
    assert_eq!(mock.device_type(), DeviceType::Mock);
    assert!(!mock.is_connected());
}

#[test]
fn device_connect_on_either_variant() {
    let mut mock = create_device(DeviceType::Mock, None);
    assert_eq!(mock.connect(5), Ok(ConnectStep::Ready));
    assert!(mock.is_connected());
    assert_eq!(mock.connect(5), Ok(ConnectStep::Ready));
    assert!(mock.is_connected());
    mock.port_opened();
    assert!(mock.is_connected());

    let mut fluke = create_device(DeviceType::Fluke289, Some("COM7".to_string()));
    assert!(matches!(fluke.connect(5), Ok(ConnectStep::Open(_))));
    assert!(!fluke.is_connected());
    fluke.port_opened();
    assert!(fluke.is_connected());
    assert_eq!(fluke.connect(6), Ok(ConnectStep::Ready));
    assert_eq!(fluke.connect(7), Ok(ConnectStep::Ready));
    assert!(fluke.is_connected());

    let mut nameless = create_device(DeviceType::Fluke289, None);
    assert_eq!(nameless.connect(5), Err(Error::Config("No port specified".to_string())));
}

#[test]
fn device_operations_forward_to_the_variant() {
    let mut mock = Device::Mock(MockDevice::new());
    assert_eq!(mock.transmit("QM"), Err(not_connected()));
    assert_eq!(mock.identify(""), Err(not_connected()));
    mock.connect(5).unwrap();
    assert_eq!(mock.transmit("QM"), Ok(None));
    assert_eq!(mock.identify("ignored").unwrap().model, "MOCK-MULTIMETER");
    let reading = mock.get_measurement("2.5", None).unwrap();
    assert_eq!(reading.value, "2.5");
    assert_eq!(reading.state, MeasurementState::Normal);
    assert_eq!(mock.reset("ignored", 700), Ok(()));
    match &mock {
        Device::Mock(session) => assert_eq!(session.started_at(), Some(700)),
        Device::Fluke(_) => panic!("the session is simulated"),
    }
    assert!(mock.is_connected());
    assert_eq!(mock.send_command("ri", ""), Ok("0\r".to_string()));
    assert_eq!(mock.send_command("nonsense", ""), Ok("1\r".to_string()));
    assert_eq!(mock.disconnect(), Ok(()));
    assert!(!mock.is_connected());
    assert_eq!(mock.reset("", 800), Err(not_connected()));

    let mut fluke = Device::Fluke(connected_fluke());
    assert_eq!(fluke.transmit("RI"), Ok(Some(b"RI\r".to_vec())));
    assert_eq!(fluke.send_command("anything", "0xyz"), Ok("0xyz".to_string()));
    assert_eq!(fluke.reset("0", 9), Ok(()));
    assert_eq!(fluke.disconnect(), Ok(()));
    assert_eq!(fluke.transmit("RI"), Err(not_connected()));
    assert_eq!(fluke.disconnect(), Ok(()));
}
