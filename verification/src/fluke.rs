//! The Fluke 289/287 instrument: its serial profile, its connection state
//! and what each operation makes of the instrument's answer.
//!
//! The serial port itself is owned by the caller, who opens it with the
//! settings given here, runs each exchange through a
//! [`ResponseReader`](crate::framing::ResponseReader), and hands the
//! normalized response back for decoding.

use crate::codec::{
    identification_outcome, measurement_response_outcome, parse_ack, parse_identification,
    parse_measurement_response, ack_failure,
};
use crate::device::{DeviceInfo, DeviceType, Measurement, Timestamp};
use crate::error::{agrees, Error, ErrorView};
use crate::framing::frame_command;
use vstd::prelude::*;
use vstd::string::*;

verus! {

/// Bits per second on the instrument's serial line.
pub const BAUD_RATE: u32 = 115_200;

/// How long one read on the port may block, in milliseconds.
pub const READ_TIMEOUT_MILLIS: u64 = 1000;

/// The pause after opening the port before the session is ready, in
/// milliseconds.
pub const OPEN_SETTLE_MILLIS: u64 = 150;

/// The parity bit of a serial frame.
#[derive(Debug, Clone, Copy, PartialEq, Eq, Structural)]
pub enum Parity {
    Absent,
    Odd,
    Even,
}

/// Flow control on a serial line.
#[derive(Debug, Clone, Copy, PartialEq, Eq, Structural)]
pub enum FlowControl {
    Absent,
    Software,
    Hardware,
}

/// How to open the serial port of an instrument.
#[derive(Debug, Clone, PartialEq, Eq)]
pub struct PortSettings {
    pub port_name: String,
    pub baud_rate: u32,
    pub data_bits: u8,
    pub parity: Parity,
    pub stop_bits: u8,
    pub flow_control: FlowControl,
    pub timeout_millis: u64,
}

/// `PortSettings` with the port name as a character sequence.
pub struct PortSettingsView {
    pub port_name: Seq<char>,
    pub baud_rate: u32,
    pub data_bits: u8,
    pub parity: Parity,
    pub stop_bits: u8,
    pub flow_control: FlowControl,
    pub timeout_millis: u64,
}

impl View for PortSettings {
    type V = PortSettingsView;

    open spec fn view(&self) -> PortSettingsView {
        PortSettingsView {
            port_name: self.port_name@,
            baud_rate: self.baud_rate,
            data_bits: self.data_bits,
            parity: self.parity,
            stop_bits: self.stop_bits,
            flow_control: self.flow_control,
            timeout_millis: self.timeout_millis,
        }
    }
}

/// The fixed profile of the instrument on the port `port_name`: 115200 baud,
/// eight data bits, no parity, one stop bit, no flow control.
pub open spec fn fluke_profile(port_name: Seq<char>) -> PortSettingsView {
    PortSettingsView {
        port_name,
        baud_rate: BAUD_RATE,
        data_bits: 8,
        parity: Parity::Absent,
        stop_bits: 1,
        flow_control: FlowControl::Absent,
        timeout_millis: READ_TIMEOUT_MILLIS,
    }
}

/// What connecting asks of the owner of the transport.
#[derive(Debug, Clone, PartialEq, Eq)]
pub enum ConnectStep {
    /// Nothing: the session is ready.
    Ready,
    /// Open the port with these settings, then report it opened.
    Open(PortSettings),
}

/// `ConnectStep` by view.
pub enum ConnectStepView {
    Ready,
    Open(PortSettingsView),
}

impl View for ConnectStep {
    type V = ConnectStepView;

    open spec fn view(&self) -> ConnectStepView {
        match *self {
            ConnectStep::Ready => ConnectStepView::Ready,
            ConnectStep::Open(settings) => ConnectStepView::Open(settings@),
        }
    }
}

/// The state of a Fluke session as contracts see it.
pub struct FlukeView {
    pub device_type: DeviceType,
    pub port_name: Option<Seq<char>>,
    pub connected: bool,
}

/// A session with a Fluke instrument.
pub struct FlukeDevice {
    device_type: DeviceType,
    port_name: Option<String>,
    connected: bool,
}

impl View for FlukeDevice {
    type V = FlukeView;

    closed spec fn view(&self) -> FlukeView {
        FlukeView {
            device_type: self.device_type,
            port_name: match self.port_name {
                Some(name) => Some(name@),
                None => None,
            },
            connected: self.connected,
        }
    }
}

/// The failure of an operation on a session that is not connected.
pub open spec fn not_connected() -> ErrorView {
    ErrorView::Connection("Not connected"@)
}

/// What connecting a session in state `device` comes to.
pub open spec fn fluke_connect_outcome(device: FlukeView) -> Result<ConnectStepView, ErrorView> {
    if device.connected {
        Ok(ConnectStepView::Ready)
    } else {
        match device.port_name {
            None => Err(ErrorView::Config("No port specified"@)),
            Some(name) => Ok(ConnectStepView::Open(fluke_profile(name))),
        }
    }
}

pub(crate) fn not_connected_error() -> (e: Error)
    ensures
        e@ == not_connected(),
{
    Error::Connection(String::from_str("Not connected"))
}

impl FlukeDevice {
    /// A session that is not yet connected.
    pub fn new(device_type: DeviceType, port_name: Option<String>) -> (device: Self)
        ensures
            device@ == (FlukeView {
                device_type,
                port_name: match port_name {
                    Some(name) => Some(name@),
                    None => None,
                },
                connected: false,
            }),
    {
        FlukeDevice { device_type, port_name, connected: false }
    }

    pub fn device_type(&self) -> (t: DeviceType)
        ensures
            t == self@.device_type,
    {
        self.device_type
    }

    /// Whether the port of this session is open.
    pub fn is_connected(&self) -> (connected: bool)
        ensures
            connected == self@.connected,
    {
        self.connected
    }

    /// What has to happen for the session to be connected: nothing where it
    /// is already; else the port is to be opened with the instrument's
    /// profile, which needs a port name.
    pub fn connect(&self) -> (result: Result<ConnectStep, Error>)
        ensures
            agrees(result, fluke_connect_outcome(self@)),
    {
        if self.connected {
            return Ok(ConnectStep::Ready);
        }
        match &self.port_name {
            None => Err(Error::Config(String::from_str("No port specified"))),
            Some(name) => Ok(
                ConnectStep::Open(
                    PortSettings {
                        port_name: name.clone(),
                        baud_rate: BAUD_RATE,
                        data_bits: 8,
                        parity: Parity::Absent,
                        stop_bits: 1,
                        flow_control: FlowControl::Absent,
                        timeout_millis: READ_TIMEOUT_MILLIS,
                    },
                ),
            ),
        }
    }

    /// The port has been opened: the session is connected.
    pub fn port_opened(&mut self)
        ensures
            final(self)@ == (FlukeView { connected: true, ..old(self)@ }),
    {
        self.connected = true;
    }

    /// Ends the session; the port is the caller's to release. Always succeeds.
    pub fn disconnect(&mut self) -> (result: Result<(), Error>)
        ensures
            result is Ok,
            final(self)@ == (FlukeView { connected: false, ..old(self)@ }),
    {
        self.connected = false;
        Ok(())
    }

    /// The bytes to write for `command`, on a connected session.
    pub fn transmit(&self, command: &str) -> (result: Result<Vec<u8>, Error>)
        ensures
            self@.connected ==> (result matches Ok(bytes) && bytes@ == command.spec_bytes().push(
                13u8,
            )),
            !self@.connected ==> (result matches Err(e) && e@ == not_connected()),
    {
        if !self.connected {
            return Err(not_connected_error());
        }
        Ok(frame_command(command))
    }

    /// Decodes the normalized response to the `ID` command.
    pub fn identify(&self, response: &str) -> (result: Result<DeviceInfo, Error>)
        ensures
            self@.connected ==> agrees(result, identification_outcome(response@)),
            !self@.connected ==> (result matches Err(e) && e@ == not_connected()),
    {
        if !self.connected {
            return Err(not_connected_error());
        }
        parse_identification(response)
    }

    /// Decodes the normalized response to the `QM` command into a reading
    /// stamped with `timestamp`.
    pub fn get_measurement(&self, response: &str, timestamp: Option<Timestamp>) -> (result: Result<
        Measurement,
        Error,
    >)
        ensures
            self@.connected ==> agrees(result, measurement_response_outcome(response@, timestamp)),
            !self@.connected ==> (result matches Err(e) && e@ == not_connected()),
    {
        if !self.connected {
            return Err(not_connected_error());
        }
        parse_measurement_response(response, timestamp)
    }

    /// Checks the normalized response to the `RI` command: only the
    /// acknowledgement counts.
    pub fn reset(&self, response: &str) -> (result: Result<(), Error>)
        ensures
            self@.connected ==> match ack_failure(response@) {
                None => result is Ok,
                Some(failure) => result matches Err(e) && e@ == failure,
            },
            !self@.connected ==> (result matches Err(e) && e@ == not_connected()),
    {
        if !self.connected {
            return Err(not_connected_error());
        }
        parse_ack(response)
    }

    /// The normalized response to a raw command, handed on as it is.
    pub fn send_command(&self, response: &str) -> (result: Result<String, Error>)
        ensures
            self@.connected ==> (result matches Ok(text) && text@ == response@),
            !self@.connected ==> (result matches Err(e) && e@ == not_connected()),
    {
        if !self.connected {
            return Err(not_connected_error());
        }
        Ok(String::from_str(response))
    }
}

} // verus!
