//! The vocabulary shared by every instrument: device kinds, units, states,
//! attributes, readings and identification records.

use crate::codec::{ack_failure, identification_outcome, measurement_response_outcome};
use crate::error::{agrees, Error, ErrorView};
use crate::fluke::{
    fluke_connect_outcome, not_connected, ConnectStep, ConnectStepView, FlukeDevice, FlukeView,
};
use crate::mock::{
    mock_command_outcome, mock_identity, mock_idle, mock_reading_outcome, uppercase_text,
    MockDevice, MockView,
};
use crate::text::same_text;
use vstd::prelude::*;
use vstd::string::*;

verus! {

/// The instruments the driver knows how to talk to.
#[derive(Debug, Clone, Copy, PartialEq, Eq, Structural)]
pub enum DeviceType {
    Fluke289,
    Fluke287,
    Mock,
}

/// Measurement units.
#[derive(Debug, Clone, Copy, PartialEq, Eq, Structural)]
pub enum Unit {
    /// The reading carries no unit.
    NoUnit,
    VoltDc,
    VoltAc,
    AmpDc,
    AmpAc,
    VoltAcPlusDc,
    AmpAcPlusDc,
    /// Used in peak measurements.
    Volt,
    /// Used in peak measurements.
    Amp,
    Ohm,
    Siemens,
    Hertz,
    Second,
    Farad,
    Celsius,
    Fahrenheit,
    Percent,
    DecibelM,
    DecibelV,
    Decibel,
    CrestFactor,
}

/// Measurement state.
#[derive(Debug, Clone, Copy, PartialEq, Eq, Structural)]
pub enum MeasurementState {
    Normal,
    Invalid,
    Blank,
    Overload,
    OverloadNegative,
    OpenThermocouple,
    /// Capacitance discharge error.
    Discharge,
}

/// Measurement attribute.
#[derive(Debug, Clone, Copy, PartialEq, Eq, Structural)]
pub enum MeasurementAttribute {
    /// Nothing to remark on the reading.
    NoAttribute,
    OpenCircuit,
    ShortCircuit,
    GlitchCircuit,
    GoodDiode,
    LowOhms,
    NegativeEdge,
    PositiveEdge,
    /// The displayed value is flashing.
    HighCurrent,
}

/// An instant in UTC: whole seconds since 1970-01-01T00:00:00Z and the
/// nanoseconds into that second.
#[derive(Debug, Clone, Copy, PartialEq, Eq, Structural)]
pub struct Timestamp {
    pub secs: i64,
    pub nanos: u32,
}

/// A single reading.
///
/// `value` is the decimal literal of the reading; the driver validates its
/// shape and leaves the conversion to a binary float to the caller.
#[derive(Debug, Clone, PartialEq, Eq)]
pub struct Measurement {
    pub value: String,
    pub unit: Unit,
    pub state: MeasurementState,
    pub attribute: MeasurementAttribute,
    pub timestamp: Option<Timestamp>,
}

/// What an instrument says about itself.
#[derive(Debug, Clone, PartialEq, Eq)]
pub struct DeviceInfo {
    pub model: String,
    pub serial_number: String,
    pub software_version: String,
}

/// A `Measurement` with its value as a character sequence.
pub struct MeasurementView {
    pub value: Seq<char>,
    pub unit: Unit,
    pub state: MeasurementState,
    pub attribute: MeasurementAttribute,
    pub timestamp: Option<Timestamp>,
}

impl View for Measurement {
    type V = MeasurementView;

    open spec fn view(&self) -> MeasurementView {
        MeasurementView {
            value: self.value@,
            unit: self.unit,
            state: self.state,
            attribute: self.attribute,
            timestamp: self.timestamp,
        }
    }
}

/// A `DeviceInfo` with its fields as character sequences.
pub struct DeviceInfoView {
    pub model: Seq<char>,
    pub serial_number: Seq<char>,
    pub software_version: Seq<char>,
}

impl View for DeviceInfo {
    type V = DeviceInfoView;

    open spec fn view(&self) -> DeviceInfoView {
        DeviceInfoView {
            model: self.model@,
            serial_number: self.serial_number@,
            software_version: self.software_version@,
        }
    }
}

/// The name under which a device kind is written at the boundary.
pub open spec fn device_type_name(t: DeviceType) -> Seq<char> {
    match t {
        DeviceType::Fluke289 => "Fluke289"@,
        DeviceType::Fluke287 => "Fluke287"@,
        DeviceType::Mock => "Mock"@,
    }
}

/// The device kind written as `name`, if any.
pub open spec fn device_type_named(name: Seq<char>) -> Option<DeviceType> {
    if name == "Fluke289"@ {
        Some(DeviceType::Fluke289)
    } else if name == "Fluke287"@ {
        Some(DeviceType::Fluke287)
    } else if name == "Mock"@ {
        Some(DeviceType::Mock)
    } else {
        None
    }
}

impl DeviceType {
    /// The name under which this device kind is written at the boundary.
    pub fn name(&self) -> (text: &'static str)
        ensures
            text@ == device_type_name(*self),
    {
        match self {
            DeviceType::Fluke289 => "Fluke289",
            DeviceType::Fluke287 => "Fluke287",
            DeviceType::Mock => "Mock",
        }
    }

    /// Reads a device kind from its name.
    pub fn from_name(name: &str) -> (found: Option<DeviceType>)
        ensures
            found == device_type_named(name@),
    {
        if same_text(name, "Fluke289") {
            Some(DeviceType::Fluke289)
        } else if same_text(name, "Fluke287") {
            Some(DeviceType::Fluke287)
        } else if same_text(name, "Mock") {
            Some(DeviceType::Mock)
        } else {
            None
        }
    }
}

/// Every device kind is read back from its own name.
pub proof fn lemma_device_type_round_trip(t: DeviceType)
    ensures
        device_type_named(device_type_name(t)) == Some(t),
{
    reveal_strlit("Fluke289");
    reveal_strlit("Fluke287");
    reveal_strlit("Mock");
    assert("Fluke289"@[7] == '9');
    assert("Fluke287"@[7] == '7');
    assert("Fluke289"@.len() == 8);
    assert("Fluke287"@.len() == 8);
    assert("Mock"@.len() == 4);
}

/// A session with an instrument of either kind.
///
/// Whatever comes from outside the session is handed in: for the hardware
/// the normalized response of the exchange that the caller ran on the serial
/// port, for the simulator the value that the caller sampled from the active
/// profile.
pub enum Device {
    Fluke(FlukeDevice),
    Mock(MockDevice),
}

/// A `Device` by view.
pub enum DeviceView {
    Fluke(FlukeView),
    Mock(MockView),
}

impl DeviceView {
    pub open spec fn connected(self) -> bool {
        match self {
            DeviceView::Fluke(fluke) => fluke.connected,
            DeviceView::Mock(mock) => mock.connected(),
        }
    }

    pub open spec fn device_type(self) -> DeviceType {
        match self {
            DeviceView::Fluke(fluke) => fluke.device_type,
            DeviceView::Mock(_) => DeviceType::Mock,
        }
    }

    /// The clock reading at which the generator of a simulated session was
    /// started; the hardware has none.
    pub open spec fn started_at(self) -> Option<nat> {
        match self {
            DeviceView::Fluke(_) => None,
            DeviceView::Mock(mock) => mock.started_at,
        }
    }
}

impl View for Device {
    type V = DeviceView;

    open spec fn view(&self) -> DeviceView {
        match *self {
            Device::Fluke(fluke) => DeviceView::Fluke(fluke@),
            Device::Mock(mock) => DeviceView::Mock(mock@),
        }
    }
}

/// The session that `create_device` makes: not yet connected, of the variant
/// that the device kind selects.
pub open spec fn created(device_type: DeviceType, port: Option<Seq<char>>) -> DeviceView {
    match device_type {
        DeviceType::Mock => DeviceView::Mock(mock_idle()),
        _ => DeviceView::Fluke(FlukeView { device_type, port_name: port, connected: false }),
    }
}

/// Makes the session for a device kind; the port matters to the hardware only.
pub fn create_device(device_type: DeviceType, port: Option<String>) -> (device: Device)
    ensures
        device@ == created(
            device_type,
            match port {
                Some(name) => Some(name@),
                None => None,
            },
        ),
{
    match device_type {
        DeviceType::Fluke289 | DeviceType::Fluke287 => Device::Fluke(
            FlukeDevice::new(device_type, port),
        ),
        DeviceType::Mock => Device::Mock(MockDevice::new()),
    }
}

/// What identifying a session comes to, given what came from outside.
pub open spec fn identify_outcome(device: DeviceView, input: Seq<char>) -> Result<
    DeviceInfoView,
    ErrorView,
> {
    if !device.connected() {
        Err(not_connected())
    } else {
        match device {
            DeviceView::Fluke(_) => identification_outcome(input),
            DeviceView::Mock(_) => Ok(mock_identity()),
        }
    }
}

/// What taking a reading from a session comes to, given what came from
/// outside.
pub open spec fn reading_outcome(
    device: DeviceView,
    input: Seq<char>,
    timestamp: Option<Timestamp>,
) -> Result<MeasurementView, ErrorView> {
    match device {
        DeviceView::Fluke(fluke) => if fluke.connected {
            measurement_response_outcome(input, timestamp)
        } else {
            Err(not_connected())
        },
        DeviceView::Mock(mock) => mock_reading_outcome(mock, input, timestamp),
    }
}

/// Whether resetting a session succeeds, given what came from outside.
pub open spec fn reset_failure(device: DeviceView, input: Seq<char>) -> Option<ErrorView> {
    if !device.connected() {
        Some(not_connected())
    } else {
        match device {
            DeviceView::Fluke(_) => ack_failure(input),
            DeviceView::Mock(_) => None,
        }
    }
}

/// What a raw command on a session comes to, given what came from outside.
pub open spec fn command_outcome(device: DeviceView, command: Seq<char>, input: Seq<char>) -> Result<
    Seq<char>,
    ErrorView,
> {
    match device {
        DeviceView::Fluke(fluke) => if fluke.connected {
            Ok(input)
        } else {
            Err(not_connected())
        },
        DeviceView::Mock(mock) => mock_command_outcome(mock, uppercase_text(command), input),
    }
}

/// On connected hardware a response that leads with the syntax-error digit
/// fails identification, measurement and reset alike with `InvalidCommand`.
pub proof fn lemma_syntax_error_fails_every_operation(
    device: DeviceView,
    response: Seq<char>,
    timestamp: Option<Timestamp>,
)
    requires
        device is Fluke,
        device.connected(),
        response.len() > 0,
        response[0] == '1',
    ensures
        identify_outcome(device, response) == Err::<DeviceInfoView, ErrorView>(
            ErrorView::InvalidCommand("Syntax error"@),
        ),
        reading_outcome(device, response, timestamp) == Err::<MeasurementView, ErrorView>(
            ErrorView::InvalidCommand("Syntax error"@),
        ),
        reset_failure(device, response) == Some(ErrorView::InvalidCommand("Syntax error"@)),
{
}

impl Device {
    pub fn device_type(&self) -> (t: DeviceType)
        ensures
            t == self@.device_type(),
    {
        match self {
            Device::Fluke(fluke) => fluke.device_type(),
            Device::Mock(mock) => mock.device_type(),
        }
    }

    /// Whether the session is connected. Reads state only.
    pub fn is_connected(&self) -> (connected: bool)
        ensures
            connected == self@.connected(),
    {
        match self {
            Device::Fluke(fluke) => fluke.is_connected(),
            Device::Mock(mock) => mock.is_connected(),
        }
    }

    /// Connects the session, at clock reading `now`, as far as it can by
    /// itself. The simulator is then connected, its generator started at
    /// `now`; the hardware says what to open, and is connected once the port
    /// is reported opened. On a connected session nothing changes and
    /// nothing remains to be done.
    pub fn connect(&mut self, now: u128) -> (result: Result<ConnectStep, Error>)
        ensures
            old(self)@.connected() ==> final(self)@ == old(self)@ && agrees(
                result,
                Ok(ConnectStepView::Ready),
            ),
            match old(self)@ {
                DeviceView::Fluke(fluke) => final(self)@ == old(self)@ && agrees(
                    result,
                    fluke_connect_outcome(fluke),
                ),
                DeviceView::Mock(mock) => {
                    &&& final(self)@ is Mock
                    &&& final(self)@.connected()
                    &&& agrees(result, Ok(ConnectStepView::Ready))
                    &&& !mock.connected() ==> final(self)@.started_at() == Some(now as nat)
                },
            },
    {
        match self {
            Device::Fluke(fluke) => fluke.connect(),
            Device::Mock(mock) => {
                let _ = mock.connect(now);
                Ok(ConnectStep::Ready)
            },
        }
    }

    /// The port that `connect` asked for has been opened.
    pub fn port_opened(&mut self)
        ensures
            match old(self)@ {
                DeviceView::Fluke(fluke) => final(self)@ == DeviceView::Fluke(
                    FlukeView { connected: true, ..fluke },
                ),
                DeviceView::Mock(_) => final(self)@ == old(self)@,
            },
    {
        match self {
            Device::Fluke(fluke) => fluke.port_opened(),
            Device::Mock(_) => {},
        }
    }

    /// Ends the session. Always succeeds, also on a session that is not
    /// connected.
    pub fn disconnect(&mut self) -> (result: Result<(), Error>)
        ensures
            result is Ok,
            !final(self)@.connected(),
            match old(self)@ {
                DeviceView::Fluke(fluke) => final(self)@ == DeviceView::Fluke(
                    FlukeView { connected: false, ..fluke },
                ),
                DeviceView::Mock(_) => final(self)@ == DeviceView::Mock(mock_idle()),
            },
    {
        match self {
            Device::Fluke(fluke) => fluke.disconnect(),
            Device::Mock(mock) => mock.disconnect(),
        }
    }

    /// The bytes to put on the wire for `command`: none for the simulator.
    pub fn transmit(&self, command: &str) -> (result: Result<Option<Vec<u8>>, Error>)
        ensures
            !self@.connected() ==> (result matches Err(e) && e@ == not_connected()),
            self@.connected() ==> match self@ {
                DeviceView::Fluke(_) => result matches Ok(Some(bytes)) && bytes@
                    == command.spec_bytes().push(13u8),
                DeviceView::Mock(_) => result matches Ok(None),
            },
    {
        match self {
            Device::Fluke(fluke) => match fluke.transmit(command) {
                Ok(bytes) => Ok(Some(bytes)),
                Err(e) => Err(e),
            },
            Device::Mock(mock) => if mock.is_connected() {
                Ok(None)
            } else {
                Err(crate::fluke::not_connected_error())
            },
        }
    }

    /// Identifies the instrument; `input` is the hardware's response to `ID`.
    pub fn identify(&self, input: &str) -> (result: Result<DeviceInfo, Error>)
        ensures
            agrees(result, identify_outcome(self@, input@)),
    {
        match self {
            Device::Fluke(fluke) => fluke.identify(input),
            Device::Mock(mock) => mock.identify(),
        }
    }

    /// Takes one reading; `input` is the hardware's response to `QM`, or the
    /// value sampled for the simulator.
    pub fn get_measurement(&self, input: &str, timestamp: Option<Timestamp>) -> (result: Result<
        Measurement,
        Error,
    >)
        ensures
            agrees(result, reading_outcome(self@, input@, timestamp)),
    {
        match self {
            Device::Fluke(fluke) => fluke.get_measurement(input, timestamp),
            Device::Mock(mock) => mock.get_measurement(input, timestamp),
        }
    }

    /// Resets the instrument at clock reading `now`; `input` is the
    /// hardware's response to `RI`. A connected simulator restarts its
    /// generator at `now` with a newly drawn profile.
    pub fn reset(&mut self, input: &str, now: u128) -> (result: Result<(), Error>)
        ensures
            match reset_failure(old(self)@, input@) {
                None => result is Ok,
                Some(failure) => result matches Err(e) && e@ == failure,
            },
            final(self)@.connected() == old(self)@.connected(),
            final(self)@.device_type() == old(self)@.device_type(),
            old(self)@ is Fluke || !old(self)@.connected() ==> final(self)@ == old(self)@,
            old(self)@ is Mock ==> final(self)@ is Mock,
            old(self)@ is Mock && old(self)@.connected() ==> final(self)@.started_at() == Some(
                now as nat,
            ),
    {
        match self {
            Device::Fluke(fluke) => fluke.reset(input),
            Device::Mock(mock) => mock.reset(now),
        }
    }

    /// Carries out a raw command; `input` is the hardware's response to it,
    /// or the value sampled for the simulator.
    pub fn send_command(&self, command: &str, input: &str) -> (result: Result<String, Error>)
        ensures
            agrees(result, command_outcome(self@, command@, input@)),
    {
        match self {
            Device::Fluke(fluke) => fluke.send_command(input),
            Device::Mock(mock) => mock.send_command(command, input),
        }
    }
}

} // verus!
