//! The simulated instrument: a stand-in that answers like the hardware
//! without a serial line.
//!
//! The waveform itself is generated by the caller, who asks this session for
//! the active profile and the time since it was started, and hands each
//! sampled value back as text. The session decides everything else:
//! connection state, which of the profiles is active and since when, which
//! values it accepts, which commands it recognizes and how it phrases its
//! answers. Time comes in as the reading of a monotonic clock in
//! nanoseconds.

use crate::codec::{
    encode_measurement, encoded_measurement, lemma_encoded_measurement_decodes,
    measurement_payload, measurement_response_outcome,
};
use crate::number::{is_float_literal, is_float_text};
use crate::framing::{elapsed, normalized};
use crate::device::{
    DeviceInfo, DeviceInfoView, DeviceType, Measurement, MeasurementAttribute, MeasurementState,
    MeasurementView, Timestamp, Unit,
};
use crate::error::{agrees, Error, ErrorView};
use crate::fluke::{not_connected, not_connected_error};
use crate::text::{chars_of, same_text};
use rand::Rng;
use vstd::prelude::*;
use vstd::string::*;

verus! {

/// The waveforms the simulator can generate.
#[derive(Debug, Clone, Copy, PartialEq, Eq, Structural)]
pub enum MockProfile {
    /// A sine wave of DC voltage.
    VoltageSine,
    /// A slowly drifting temperature.
    TemperatureDrift,
    /// A triangular sweep of resistance.
    ResistanceSweep,
    /// A pulsed frequency.
    FrequencyPulse,
    /// A sine wave of DC current.
    CurrentSine,
}

/// How many profiles there are to draw from.
pub const PROFILE_COUNT: u32 = 5;

/// The unit in which a profile's samples are expressed.
pub open spec fn profile_unit(profile: MockProfile) -> Unit {
    match profile {
        MockProfile::VoltageSine => Unit::VoltDc,
        MockProfile::TemperatureDrift => Unit::Celsius,
        MockProfile::ResistanceSweep => Unit::Ohm,
        MockProfile::FrequencyPulse => Unit::Hertz,
        MockProfile::CurrentSine => Unit::AmpDc,
    }
}

/// The profile that a drawn number selects.
pub open spec fn profile_at(index: u32) -> MockProfile {
    if index == 0 {
        MockProfile::VoltageSine
    } else if index == 1 {
        MockProfile::TemperatureDrift
    } else if index == 2 {
        MockProfile::ResistanceSweep
    } else if index == 3 {
        MockProfile::FrequencyPulse
    } else {
        MockProfile::CurrentSine
    }
}

impl MockProfile {
    pub fn unit(&self) -> (unit: Unit)
        ensures
            unit == profile_unit(*self),
    {
        match self {
            MockProfile::VoltageSine => Unit::VoltDc,
            MockProfile::TemperatureDrift => Unit::Celsius,
            MockProfile::ResistanceSweep => Unit::Ohm,
            MockProfile::FrequencyPulse => Unit::Hertz,
            MockProfile::CurrentSine => Unit::AmpDc,
        }
    }

    pub fn from_index(index: u32) -> (profile: MockProfile)
        ensures
            profile == profile_at(index),
    {
        if index == 0 {
            MockProfile::VoltageSine
        } else if index == 1 {
            MockProfile::TemperatureDrift
        } else if index == 2 {
            MockProfile::ResistanceSweep
        } else if index == 3 {
            MockProfile::FrequencyPulse
        } else {
            MockProfile::CurrentSine
        }
    }
}

/// `rand::Rng::gen_range` on `rand::thread_rng()` with the range `0..bound`:
/// a number of that range, whichever the generator gives. An empty range
/// makes `gen_range` panic, so the bound is positive.
#[verifier::external_body]
fn draw_below(bound: u32) -> (number: u32)
    requires
        bound > 0,
    ensures
        number < bound,
{
    rand::thread_rng().gen_range(0..bound)
}

/// The result of `str::to_uppercase` on a text.
pub uninterp spec fn uppercase_text(text: Seq<char>) -> Seq<char>;

/// `str::to_uppercase`: the text with each character replaced by its
/// Unicode uppercase mapping.
#[verifier::external_body]
fn uppercase(text: &str) -> (upper: String)
    ensures
        upper@ == uppercase_text(text@),
{
    text.to_uppercase()
}

/// The state of a simulated session as contracts see it: the active profile
/// and the clock reading at which its generator was started. A session has
/// both exactly while it is connected.
pub struct MockView {
    pub profile: Option<MockProfile>,
    pub started_at: Option<nat>,
}

impl MockView {
    pub open spec fn connected(self) -> bool {
        self.profile is Some
    }
}

/// A session that is not connected.
pub open spec fn mock_idle() -> MockView {
    MockView { profile: None, started_at: None }
}

/// A session whose generator runs `profile` since clock reading `started_at`.
pub open spec fn mock_running(profile: MockProfile, started_at: nat) -> MockView {
    MockView { profile: Some(profile), started_at: Some(started_at) }
}

struct Generator {
    profile: MockProfile,
    started_at: u128,
}

/// A session with the simulated instrument.
pub struct MockDevice {
    generator: Option<Generator>,
}

impl View for MockDevice {
    type V = MockView;

    closed spec fn view(&self) -> MockView {
        match self.generator {
            Some(generator) => mock_running(generator.profile, generator.started_at as nat),
            None => mock_idle(),
        }
    }
}

/// A session has a profile exactly when it has a start instant.
pub proof fn lemma_mock_view(device: MockDevice)
    ensures
        device@.profile is Some <==> device@.started_at is Some,
{
}

/// How the simulator identifies itself.
pub open spec fn mock_identity() -> DeviceInfoView {
    DeviceInfoView {
        model: "MOCK-MULTIMETER"@,
        serial_number: "MOCK123456"@,
        software_version: "V1.0.0-MOCK"@,
    }
}

/// The reading that the simulator reports for a sampled value.
pub open spec fn mock_reading(
    profile: MockProfile,
    value: Seq<char>,
    timestamp: Option<Timestamp>,
) -> MeasurementView {
    MeasurementView {
        value,
        unit: profile_unit(profile),
        state: MeasurementState::Normal,
        attribute: MeasurementAttribute::NoAttribute,
        timestamp,
    }
}

/// The failure for a sampled value that is no floating-point literal.
pub open spec fn invalid_value(value: Seq<char>) -> ErrorView {
    ErrorView::Parse("Invalid measurement value: "@ + value)
}

/// What taking a reading from the simulator comes to: a session that is not
/// connected refuses, a value that is no floating-point literal is a parse
/// failure, and any other value is reported in the unit of the profile.
pub open spec fn mock_reading_outcome(
    mock: MockView,
    value: Seq<char>,
    timestamp: Option<Timestamp>,
) -> Result<MeasurementView, ErrorView> {
    match mock.profile {
        None => Err(not_connected()),
        Some(profile) => if is_float_literal(value) {
            Ok(mock_reading(profile, value, timestamp))
        } else {
            Err(invalid_value(value))
        },
    }
}

/// The simulator's answer to a command, given in capitals: its identity for
/// `ID`, a reading for `QM`, a bare acknowledgement for `RI`, `RMP` and `DS`,
/// and the syntax-error digit for anything else. Only `QM` looks at the
/// sampled value, and fails where it is no floating-point literal.
pub open spec fn mock_response(upper: Seq<char>, profile: MockProfile, value: Seq<char>) -> Result<
    Seq<char>,
    ErrorView,
> {
    if upper == "ID"@ {
        Ok("0\rMOCK-MULTIMETER,V1.0.0-MOCK,MOCK123456\r"@)
    } else if upper == "QM"@ {
        if is_float_literal(value) {
            Ok(encoded_measurement(mock_reading(profile, value, None)))
        } else {
            Err(invalid_value(value))
        }
    } else if upper == "RI"@ || upper == "RMP"@ || upper == "DS"@ {
        Ok("0\r"@)
    } else {
        Ok("1\r"@)
    }
}

/// What a command on the simulator comes to.
pub open spec fn mock_command_outcome(mock: MockView, upper: Seq<char>, value: Seq<char>) -> Result<
    Seq<char>,
    ErrorView,
> {
    match mock.profile {
        None => Err(not_connected()),
        Some(profile) => mock_response(upper, profile, value),
    }
}

/// To a reader of the wire the simulator is the hardware: whenever it
/// answers `QM` with a reading, that answer, normalized and decoded like a
/// response of the instrument, is the reading that it reports for the same
/// sample.
pub proof fn lemma_mock_answer_reads_as_reading(
    mock: MockView,
    value: Seq<char>,
    timestamp: Option<Timestamp>,
)
    requires
        mock_command_outcome(mock, "QM"@, value) is Ok,
    ensures
        mock_reading_outcome(mock, value, timestamp) is Ok,
        match normalized(mock_command_outcome(mock, "QM"@, value)->Ok_0) {
            Ok(response) => measurement_response_outcome(response, timestamp)
                == mock_reading_outcome(mock, value, timestamp),
            Err(_) => false,
        },
{
    reveal_strlit("ID");
    reveal_strlit("QM");
    assert("ID"@[0] == 'I' && "QM"@[0] == 'Q');
    let profile = mock.profile->0;
    lemma_encoded_measurement_decodes(mock_reading(profile, value, None), timestamp);
}

fn invalid_value_error(value: &str) -> (e: Error)
    ensures
        e@ == invalid_value(value@),
{
    Error::Parse(String::from_str("Invalid measurement value: ").concat(value))
}

fn is_float(value: &str) -> (b: bool)
    ensures
        b == is_float_literal(value@),
{
    let chars = chars_of(value);
    is_float_text(&chars)
}

impl MockDevice {
    /// A session that is not yet connected.
    pub fn new() -> (device: Self)
        ensures
            device@ == mock_idle(),
    {
        MockDevice { generator: None }
    }

    pub fn device_type(&self) -> (t: DeviceType)
        ensures
            t == DeviceType::Mock,
    {
        DeviceType::Mock
    }

    pub fn is_connected(&self) -> (connected: bool)
        ensures
            connected == self@.connected(),
    {
        self.generator.is_some()
    }

    /// The active profile, on a connected session.
    pub fn profile(&self) -> (profile: Option<MockProfile>)
        ensures
            profile == self@.profile,
    {
        match &self.generator {
            Some(generator) => Some(generator.profile),
            None => None,
        }
    }

    /// The clock reading at which the generator was started, on a connected
    /// session.
    pub fn started_at(&self) -> (instant: Option<u128>)
        ensures
            match instant {
                Some(at) => self@.started_at == Some(at as nat),
                None => self@.started_at is None,
            },
    {
        match &self.generator {
            Some(generator) => Some(generator.started_at),
            None => None,
        }
    }

    /// How long the generator has been running at clock reading `now`, on a
    /// connected session: the time from which a sample is computed.
    pub fn elapsed(&self, now: u128) -> (nanos: Option<u128>)
        ensures
            match nanos {
                Some(n) => self@.started_at is Some && n == elapsed(
                    now as nat,
                    self@.started_at->0,
                ),
                None => self@.started_at is None,
            },
    {
        match &self.generator {
            Some(generator) => Some(
                if now >= generator.started_at {
                    now - generator.started_at
                } else {
                    0
                },
            ),
            None => None,
        }
    }

    /// Connects at clock reading `now` with the profile that `index` selects,
    /// and starts the generator. A connected session stays as it is.
    pub fn connect_with(&mut self, index: u32, now: u128) -> (result: Result<(), Error>)
        ensures
            result is Ok,
            old(self)@.connected() ==> final(self)@ == old(self)@,
            !old(self)@.connected() ==> final(self)@ == mock_running(profile_at(index), now as nat),
    {
        if self.generator.is_none() {
            self.generator = Some(
                Generator { profile: MockProfile::from_index(index), started_at: now },
            );
        }
        Ok(())
    }

    /// Connects at clock reading `now`, drawing the profile at random, and
    /// starts the generator. A connected session stays as it is.
    pub fn connect(&mut self, now: u128) -> (result: Result<(), Error>)
        ensures
            result is Ok,
            final(self)@.connected(),
            old(self)@.connected() ==> final(self)@ == old(self)@,
            !old(self)@.connected() ==> final(self)@.started_at == Some(now as nat),
    {
        if self.generator.is_some() {
            return Ok(());
        }
        let index = draw_below(PROFILE_COUNT);
        self.connect_with(index, now)
    }

    /// Disconnects, forgetting the profile and the start instant. Always
    /// succeeds.
    pub fn disconnect(&mut self) -> (result: Result<(), Error>)
        ensures
            result is Ok,
            final(self)@ == mock_idle(),
    {
        self.generator = None;
        Ok(())
    }

    /// The simulator's identity, on a connected session.
    pub fn identify(&self) -> (result: Result<DeviceInfo, Error>)
        ensures
            self@.connected() ==> agrees(result, Ok(mock_identity())),
            !self@.connected() ==> agrees(result, Err(not_connected())),
    {
        if self.generator.is_none() {
            return Err(not_connected_error());
        }
        Ok(
            DeviceInfo {
                model: String::from_str("MOCK-MULTIMETER"),
                serial_number: String::from_str("MOCK123456"),
                software_version: String::from_str("V1.0.0-MOCK"),
            },
        )
    }

    /// The reading for the sampled `value`: in the unit of the active
    /// profile, in the normal state, without attribute. The value has to be
    /// a floating-point literal.
    pub fn get_measurement(&self, value: &str, timestamp: Option<Timestamp>) -> (result: Result<
        Measurement,
        Error,
    >)
        ensures
            agrees(result, mock_reading_outcome(self@, value@, timestamp)),
    {
        match &self.generator {
            None => Err(not_connected_error()),
            Some(generator) => {
                if !is_float(value) {
                    return Err(invalid_value_error(value));
                }
                Ok(
                    Measurement {
                        value: String::from_str(value),
                        unit: generator.profile.unit(),
                        state: MeasurementState::Normal,
                        attribute: MeasurementAttribute::NoAttribute,
                        timestamp,
                    },
                )
            },
        }
    }

    /// Restarts the generator at clock reading `now` with the profile that
    /// `index` selects, on a connected session.
    pub fn reset_with(&mut self, index: u32, now: u128) -> (result: Result<(), Error>)
        ensures
            old(self)@.connected() ==> result is Ok && final(self)@ == mock_running(
                profile_at(index),
                now as nat,
            ),
            !old(self)@.connected() ==> agrees(result, Err(not_connected())) && final(self)@
                == old(self)@,
    {
        if self.generator.is_none() {
            return Err(not_connected_error());
        }
        self.generator = Some(
            Generator { profile: MockProfile::from_index(index), started_at: now },
        );
        Ok(())
    }

    /// Restarts the generator at clock reading `now` with a profile drawn at
    /// random, on a connected session.
    pub fn reset(&mut self, now: u128) -> (result: Result<(), Error>)
        ensures
            old(self)@.connected() ==> {
                &&& result is Ok
                &&& final(self)@.connected()
                &&& final(self)@.started_at == Some(now as nat)
            },
            !old(self)@.connected() ==> agrees(result, Err(not_connected())) && final(self)@
                == old(self)@,
    {
        if self.generator.is_none() {
            return Err(not_connected_error());
        }
        let index = draw_below(PROFILE_COUNT);
        self.reset_with(index, now)
    }

    /// The answer to a command already put in capitals; `value` is the
    /// sampled value that a `QM` reports.
    pub fn respond(&self, upper: &str, value: &str) -> (result: Result<String, Error>)
        ensures
            agrees(result, mock_command_outcome(self@, upper@, value@)),
    {
        match &self.generator {
            None => Err(not_connected_error()),
            Some(generator) => {
                if same_text(upper, "ID") {
                    Ok(String::from_str("0\rMOCK-MULTIMETER,V1.0.0-MOCK,MOCK123456\r"))
                } else if same_text(upper, "QM") {
                    if !is_float(value) {
                        return Err(invalid_value_error(value));
                    }
                    let reading = Measurement {
                        value: String::from_str(value),
                        unit: generator.profile.unit(),
                        state: MeasurementState::Normal,
                        attribute: MeasurementAttribute::NoAttribute,
                        timestamp: None,
                    };
                    Ok(encode_measurement(&reading))
                } else if same_text(upper, "RI") || same_text(upper, "RMP") || same_text(
                    upper,
                    "DS",
                ) {
                    Ok(String::from_str("0\r"))
                } else {
                    Ok(String::from_str("1\r"))
                }
            },
        }
    }

    /// The answer to `command`, whatever its letter case; `value` is the
    /// sampled value that a `QM` reports.
    pub fn send_command(&self, command: &str, value: &str) -> (result: Result<String, Error>)
        ensures
            agrees(result, mock_command_outcome(self@, uppercase_text(command@), value@)),
    {
        if self.generator.is_none() {
            return Err(not_connected_error());
        }
        let upper = uppercase(command);
        self.respond(upper.as_str(), value)
    }
}

} // verus!
