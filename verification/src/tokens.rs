//! The instrument's vocabulary on the wire: the tokens of units, states and
//! attributes, each standing for exactly one value.

use crate::device::{MeasurementAttribute, MeasurementState, Unit};
use crate::error::{Error, ErrorView};
use crate::text::{chars_of, is_plain_text, matches_text};
use vstd::prelude::*;
use vstd::string::*;

verus! {

/// The wire token of a unit.
pub open spec fn unit_token(v: Unit) -> Seq<char> {
    match v {
        Unit::NoUnit => "NONE"@,
        Unit::VoltDc => "VDC"@,
        Unit::VoltAc => "VAC"@,
        Unit::AmpDc => "ADC"@,
        Unit::AmpAc => "AAC"@,
        Unit::VoltAcPlusDc => "VAC_PLUS_DC"@,
        Unit::AmpAcPlusDc => "AAC_PLUS_DC"@,
        Unit::Volt => "V"@,
        Unit::Amp => "A"@,
        Unit::Ohm => "OHM"@,
        Unit::Siemens => "S"@,
        Unit::Hertz => "Hz"@,
        Unit::Second => "SEC"@,
        Unit::Farad => "F"@,
        Unit::Celsius => "CEL"@,
        Unit::Fahrenheit => "FAR"@,
        Unit::Percent => "PCT"@,
        Unit::DecibelM => "dBm"@,
        Unit::DecibelV => "dBV"@,
        Unit::Decibel => "dB"@,
        Unit::CrestFactor => "CREST_FACTOR"@,
    }
}

/// The unit that a wire token stands for, if it is one of the table.
pub open spec fn decode_unit(token: Seq<char>) -> Option<Unit> {
    if token == "NONE"@ {
        Some(Unit::NoUnit)
    } else if token == "VDC"@ {
        Some(Unit::VoltDc)
    } else if token == "VAC"@ {
        Some(Unit::VoltAc)
    } else if token == "ADC"@ {
        Some(Unit::AmpDc)
    } else if token == "AAC"@ {
        Some(Unit::AmpAc)
    } else if token == "VAC_PLUS_DC"@ {
        Some(Unit::VoltAcPlusDc)
    } else if token == "AAC_PLUS_DC"@ {
        Some(Unit::AmpAcPlusDc)
    } else if token == "V"@ {
        Some(Unit::Volt)
    } else if token == "A"@ {
        Some(Unit::Amp)
    } else if token == "OHM"@ {
        Some(Unit::Ohm)
    } else if token == "S"@ {
        Some(Unit::Siemens)
    } else if token == "Hz"@ {
        Some(Unit::Hertz)
    } else if token == "SEC"@ {
        Some(Unit::Second)
    } else if token == "F"@ {
        Some(Unit::Farad)
    } else if token == "CEL"@ {
        Some(Unit::Celsius)
    } else if token == "FAR"@ {
        Some(Unit::Fahrenheit)
    } else if token == "PCT"@ {
        Some(Unit::Percent)
    } else if token == "dBm"@ {
        Some(Unit::DecibelM)
    } else if token == "dBV"@ {
        Some(Unit::DecibelV)
    } else if token == "dB"@ {
        Some(Unit::Decibel)
    } else if token == "CREST_FACTOR"@ {
        Some(Unit::CrestFactor)
    } else {
        None
    }
}

proof fn reveal_unit_tokens()
    ensures
        "NONE"@.len() == 4,
        "NONE"@[0] == 'N',
        "NONE"@[1] == 'O',
        "NONE"@[2] == 'N',
        "NONE"@[3] == 'E',
        "VDC"@.len() == 3,
        "VDC"@[0] == 'V',
        "VDC"@[1] == 'D',
        "VDC"@[2] == 'C',
        "VAC"@.len() == 3,
        "VAC"@[0] == 'V',
        "VAC"@[1] == 'A',
        "VAC"@[2] == 'C',
        "ADC"@.len() == 3,
        "ADC"@[0] == 'A',
        "ADC"@[1] == 'D',
        "ADC"@[2] == 'C',
        "AAC"@.len() == 3,
        "AAC"@[0] == 'A',
        "AAC"@[1] == 'A',
        "AAC"@[2] == 'C',
        "VAC_PLUS_DC"@.len() == 11,
        "VAC_PLUS_DC"@[0] == 'V',
        "VAC_PLUS_DC"@[1] == 'A',
        "VAC_PLUS_DC"@[2] == 'C',
        "VAC_PLUS_DC"@[3] == '_',
        "VAC_PLUS_DC"@[4] == 'P',
        "VAC_PLUS_DC"@[5] == 'L',
        "VAC_PLUS_DC"@[6] == 'U',
        "VAC_PLUS_DC"@[7] == 'S',
        "VAC_PLUS_DC"@[8] == '_',
        "VAC_PLUS_DC"@[9] == 'D',
        "VAC_PLUS_DC"@[10] == 'C',
        "AAC_PLUS_DC"@.len() == 11,
        "AAC_PLUS_DC"@[0] == 'A',
        "AAC_PLUS_DC"@[1] == 'A',
        "AAC_PLUS_DC"@[2] == 'C',
        "AAC_PLUS_DC"@[3] == '_',
        "AAC_PLUS_DC"@[4] == 'P',
        "AAC_PLUS_DC"@[5] == 'L',
        "AAC_PLUS_DC"@[6] == 'U',
        "AAC_PLUS_DC"@[7] == 'S',
        "AAC_PLUS_DC"@[8] == '_',
        "AAC_PLUS_DC"@[9] == 'D',
        "AAC_PLUS_DC"@[10] == 'C',
        "V"@.len() == 1,
        "V"@[0] == 'V',
        "A"@.len() == 1,
        "A"@[0] == 'A',
        "OHM"@.len() == 3,
        "OHM"@[0] == 'O',
        "OHM"@[1] == 'H',
        "OHM"@[2] == 'M',
        "S"@.len() == 1,
        "S"@[0] == 'S',
        "Hz"@.len() == 2,
        "Hz"@[0] == 'H',
        "Hz"@[1] == 'z',
        "SEC"@.len() == 3,
        "SEC"@[0] == 'S',
        "SEC"@[1] == 'E',
        "SEC"@[2] == 'C',
        "F"@.len() == 1,
        "F"@[0] == 'F',
        "CEL"@.len() == 3,
        "CEL"@[0] == 'C',
        "CEL"@[1] == 'E',
        "CEL"@[2] == 'L',
        "FAR"@.len() == 3,
        "FAR"@[0] == 'F',
        "FAR"@[1] == 'A',
        "FAR"@[2] == 'R',
        "PCT"@.len() == 3,
        "PCT"@[0] == 'P',
        "PCT"@[1] == 'C',
        "PCT"@[2] == 'T',
        "dBm"@.len() == 3,
        "dBm"@[0] == 'd',
        "dBm"@[1] == 'B',
        "dBm"@[2] == 'm',
        "dBV"@.len() == 3,
        "dBV"@[0] == 'd',
        "dBV"@[1] == 'B',
        "dBV"@[2] == 'V',
        "dB"@.len() == 2,
        "dB"@[0] == 'd',
        "dB"@[1] == 'B',
        "CREST_FACTOR"@.len() == 12,
        "CREST_FACTOR"@[0] == 'C',
        "CREST_FACTOR"@[1] == 'R',
        "CREST_FACTOR"@[2] == 'E',
        "CREST_FACTOR"@[3] == 'S',
        "CREST_FACTOR"@[4] == 'T',
        "CREST_FACTOR"@[5] == '_',
        "CREST_FACTOR"@[6] == 'F',
        "CREST_FACTOR"@[7] == 'A',
        "CREST_FACTOR"@[8] == 'C',
        "CREST_FACTOR"@[9] == 'T',
        "CREST_FACTOR"@[10] == 'O',
        "CREST_FACTOR"@[11] == 'R',
{
    reveal_strlit("NONE");
    reveal_strlit("VDC");
    reveal_strlit("VAC");
    reveal_strlit("ADC");
    reveal_strlit("AAC");
    reveal_strlit("VAC_PLUS_DC");
    reveal_strlit("AAC_PLUS_DC");
    reveal_strlit("V");
    reveal_strlit("A");
    reveal_strlit("OHM");
    reveal_strlit("S");
    reveal_strlit("Hz");
    reveal_strlit("SEC");
    reveal_strlit("F");
    reveal_strlit("CEL");
    reveal_strlit("FAR");
    reveal_strlit("PCT");
    reveal_strlit("dBm");
    reveal_strlit("dBV");
    reveal_strlit("dB");
    reveal_strlit("CREST_FACTOR");
}

impl Unit {
    /// The token under which this unit travels on the wire.
    pub fn token(&self) -> (text: &'static str)
        ensures
            text@ == unit_token(*self),
    {
        match self {
            Unit::NoUnit => "NONE",
            Unit::VoltDc => "VDC",
            Unit::VoltAc => "VAC",
            Unit::AmpDc => "ADC",
            Unit::AmpAc => "AAC",
            Unit::VoltAcPlusDc => "VAC_PLUS_DC",
            Unit::AmpAcPlusDc => "AAC_PLUS_DC",
            Unit::Volt => "V",
            Unit::Amp => "A",
            Unit::Ohm => "OHM",
            Unit::Siemens => "S",
            Unit::Hertz => "Hz",
            Unit::Second => "SEC",
            Unit::Farad => "F",
            Unit::Celsius => "CEL",
            Unit::Fahrenheit => "FAR",
            Unit::Percent => "PCT",
            Unit::DecibelM => "dBm",
            Unit::DecibelV => "dBV",
            Unit::Decibel => "dB",
            Unit::CrestFactor => "CREST_FACTOR",
        }
    }
}

pub(crate) fn unit_of_chars(token: &Vec<char>) -> (found: Option<Unit>)
    ensures
        found == decode_unit(token@),
{
    if matches_text(token, "NONE") {
        Some(Unit::NoUnit)
    } else if matches_text(token, "VDC") {
        Some(Unit::VoltDc)
    } else if matches_text(token, "VAC") {
        Some(Unit::VoltAc)
    } else if matches_text(token, "ADC") {
        Some(Unit::AmpDc)
    } else if matches_text(token, "AAC") {
        Some(Unit::AmpAc)
    } else if matches_text(token, "VAC_PLUS_DC") {
        Some(Unit::VoltAcPlusDc)
    } else if matches_text(token, "AAC_PLUS_DC") {
        Some(Unit::AmpAcPlusDc)
    } else if matches_text(token, "V") {
        Some(Unit::Volt)
    } else if matches_text(token, "A") {
        Some(Unit::Amp)
    } else if matches_text(token, "OHM") {
        Some(Unit::Ohm)
    } else if matches_text(token, "S") {
        Some(Unit::Siemens)
    } else if matches_text(token, "Hz") {
        Some(Unit::Hertz)
    } else if matches_text(token, "SEC") {
        Some(Unit::Second)
    } else if matches_text(token, "F") {
        Some(Unit::Farad)
    } else if matches_text(token, "CEL") {
        Some(Unit::Celsius)
    } else if matches_text(token, "FAR") {
        Some(Unit::Fahrenheit)
    } else if matches_text(token, "PCT") {
        Some(Unit::Percent)
    } else if matches_text(token, "dBm") {
        Some(Unit::DecibelM)
    } else if matches_text(token, "dBV") {
        Some(Unit::DecibelV)
    } else if matches_text(token, "dB") {
        Some(Unit::Decibel)
    } else if matches_text(token, "CREST_FACTOR") {
        Some(Unit::CrestFactor)
    } else {
        None
    }
}

/// Decodes a unit token; an unknown token is a parse failure that names it.
pub fn parse_unit(unit_str: &str) -> (result: Result<Unit, Error>)
    ensures
        match decode_unit(unit_str@) {
            Some(v) => result == Ok::<Unit, Error>(v),
            None => result matches Err(e) && e@ == ErrorView::Parse("Unknown unit: "@ + unit_str@),
        },
{
    let token = chars_of(unit_str);
    match unit_of_chars(&token) {
        Some(v) => Ok(v),
        None => Err(Error::Parse(String::from_str("Unknown unit: ").concat(unit_str))),
    }
}

/// Encoding a unit and decoding its token gives the unit back.
pub proof fn lemma_unit_round_trip(v: Unit)
    ensures
        decode_unit(unit_token(v)) == Some(v),
{
    reveal_unit_tokens();
}

/// A text decodes exactly when it is the token of some unit, and then to
/// that unit; every other text is refused.
pub proof fn lemma_unit_decode_exact(token: Seq<char>)
    ensures
        match decode_unit(token) {
            Some(v) => unit_token(v) == token,
            None => forall|v: Unit| unit_token(v) != token,
        },
{
    reveal_unit_tokens();
}

/// The wire token of a measurement state.
pub open spec fn state_token(v: MeasurementState) -> Seq<char> {
    match v {
        MeasurementState::Normal => "NORMAL"@,
        MeasurementState::Invalid => "INVALID"@,
        MeasurementState::Blank => "BLANK"@,
        MeasurementState::Overload => "OL"@,
        MeasurementState::OverloadNegative => "OL_MINUS"@,
        MeasurementState::OpenThermocouple => "OPEN_TC"@,
        MeasurementState::Discharge => "DISCHARGE"@,
    }
}

/// The measurement state that a wire token stands for, if it is one of the table.
pub open spec fn decode_state(token: Seq<char>) -> Option<MeasurementState> {
    if token == "NORMAL"@ {
        Some(MeasurementState::Normal)
    } else if token == "INVALID"@ {
        Some(MeasurementState::Invalid)
    } else if token == "BLANK"@ {
        Some(MeasurementState::Blank)
    } else if token == "OL"@ {
        Some(MeasurementState::Overload)
    } else if token == "OL_MINUS"@ {
        Some(MeasurementState::OverloadNegative)
    } else if token == "OPEN_TC"@ {
        Some(MeasurementState::OpenThermocouple)
    } else if token == "DISCHARGE"@ {
        Some(MeasurementState::Discharge)
    } else {
        None
    }
}

proof fn reveal_state_tokens()
    ensures
        "NORMAL"@.len() == 6,
        "NORMAL"@[0] == 'N',
        "NORMAL"@[1] == 'O',
        "NORMAL"@[2] == 'R',
        "NORMAL"@[3] == 'M',
        "NORMAL"@[4] == 'A',
        "NORMAL"@[5] == 'L',
        "INVALID"@.len() == 7,
        "INVALID"@[0] == 'I',
        "INVALID"@[1] == 'N',
        "INVALID"@[2] == 'V',
        "INVALID"@[3] == 'A',
        "INVALID"@[4] == 'L',
        "INVALID"@[5] == 'I',
        "INVALID"@[6] == 'D',
        "BLANK"@.len() == 5,
        "BLANK"@[0] == 'B',
        "BLANK"@[1] == 'L',
        "BLANK"@[2] == 'A',
        "BLANK"@[3] == 'N',
        "BLANK"@[4] == 'K',
        "OL"@.len() == 2,
        "OL"@[0] == 'O',
        "OL"@[1] == 'L',
        "OL_MINUS"@.len() == 8,
        "OL_MINUS"@[0] == 'O',
        "OL_MINUS"@[1] == 'L',
        "OL_MINUS"@[2] == '_',
        "OL_MINUS"@[3] == 'M',
        "OL_MINUS"@[4] == 'I',
        "OL_MINUS"@[5] == 'N',
        "OL_MINUS"@[6] == 'U',
        "OL_MINUS"@[7] == 'S',
        "OPEN_TC"@.len() == 7,
        "OPEN_TC"@[0] == 'O',
        "OPEN_TC"@[1] == 'P',
        "OPEN_TC"@[2] == 'E',
        "OPEN_TC"@[3] == 'N',
        "OPEN_TC"@[4] == '_',
        "OPEN_TC"@[5] == 'T',
        "OPEN_TC"@[6] == 'C',
        "DISCHARGE"@.len() == 9,
        "DISCHARGE"@[0] == 'D',
        "DISCHARGE"@[1] == 'I',
        "DISCHARGE"@[2] == 'S',
        "DISCHARGE"@[3] == 'C',
        "DISCHARGE"@[4] == 'H',
        "DISCHARGE"@[5] == 'A',
        "DISCHARGE"@[6] == 'R',
        "DISCHARGE"@[7] == 'G',
        "DISCHARGE"@[8] == 'E',
{
    reveal_strlit("NORMAL");
    reveal_strlit("INVALID");
    reveal_strlit("BLANK");
    reveal_strlit("OL");
    reveal_strlit("OL_MINUS");
    reveal_strlit("OPEN_TC");
    reveal_strlit("DISCHARGE");
}

impl MeasurementState {
    /// The token under which this measurement state travels on the wire.
    pub fn token(&self) -> (text: &'static str)
        ensures
            text@ == state_token(*self),
    {
        match self {
            MeasurementState::Normal => "NORMAL",
            MeasurementState::Invalid => "INVALID",
            MeasurementState::Blank => "BLANK",
            MeasurementState::Overload => "OL",
            MeasurementState::OverloadNegative => "OL_MINUS",
            MeasurementState::OpenThermocouple => "OPEN_TC",
            MeasurementState::Discharge => "DISCHARGE",
        }
    }
}

pub(crate) fn state_of_chars(token: &Vec<char>) -> (found: Option<MeasurementState>)
    ensures
        found == decode_state(token@),
{
    if matches_text(token, "NORMAL") {
        Some(MeasurementState::Normal)
    } else if matches_text(token, "INVALID") {
        Some(MeasurementState::Invalid)
    } else if matches_text(token, "BLANK") {
        Some(MeasurementState::Blank)
    } else if matches_text(token, "OL") {
        Some(MeasurementState::Overload)
    } else if matches_text(token, "OL_MINUS") {
        Some(MeasurementState::OverloadNegative)
    } else if matches_text(token, "OPEN_TC") {
        Some(MeasurementState::OpenThermocouple)
    } else if matches_text(token, "DISCHARGE") {
        Some(MeasurementState::Discharge)
    } else {
        None
    }
}

/// Decodes a measurement state token; an unknown token is a parse failure that names it.
pub fn parse_state(state_str: &str) -> (result: Result<MeasurementState, Error>)
    ensures
        match decode_state(state_str@) {
            Some(v) => result == Ok::<MeasurementState, Error>(v),
            None => result matches Err(e) && e@ == ErrorView::Parse("Unknown state: "@ + state_str@),
        },
{
    let token = chars_of(state_str);
    match state_of_chars(&token) {
        Some(v) => Ok(v),
        None => Err(Error::Parse(String::from_str("Unknown state: ").concat(state_str))),
    }
}

/// Encoding a measurement state and decoding its token gives the measurement state back.
pub proof fn lemma_state_round_trip(v: MeasurementState)
    ensures
        decode_state(state_token(v)) == Some(v),
{
    reveal_state_tokens();
}

/// A text decodes exactly when it is the token of some measurement state, and then to
/// that measurement state; every other text is refused.
pub proof fn lemma_state_decode_exact(token: Seq<char>)
    ensures
        match decode_state(token) {
            Some(v) => state_token(v) == token,
            None => forall|v: MeasurementState| state_token(v) != token,
        },
{
    reveal_state_tokens();
}

/// The wire token of a measurement attribute.
pub open spec fn attribute_token(v: MeasurementAttribute) -> Seq<char> {
    match v {
        MeasurementAttribute::NoAttribute => "NONE"@,
        MeasurementAttribute::OpenCircuit => "OPEN_CIRCUIT"@,
        MeasurementAttribute::ShortCircuit => "SHORT_CIRCUIT"@,
        MeasurementAttribute::GlitchCircuit => "GLITCH_CIRCUIT"@,
        MeasurementAttribute::GoodDiode => "GOOD_DIODE"@,
        MeasurementAttribute::LowOhms => "LEO_OHMS"@,
        MeasurementAttribute::NegativeEdge => "NEGATIVE_EDGE"@,
        MeasurementAttribute::PositiveEdge => "POSITIVE_EDGE"@,
        MeasurementAttribute::HighCurrent => "HIGH_CURRENT"@,
    }
}

/// The measurement attribute that a wire token stands for, if it is one of the table.
pub open spec fn decode_attribute(token: Seq<char>) -> Option<MeasurementAttribute> {
    if token == "NONE"@ {
        Some(MeasurementAttribute::NoAttribute)
    } else if token == "OPEN_CIRCUIT"@ {
        Some(MeasurementAttribute::OpenCircuit)
    } else if token == "SHORT_CIRCUIT"@ {
        Some(MeasurementAttribute::ShortCircuit)
    } else if token == "GLITCH_CIRCUIT"@ {
        Some(MeasurementAttribute::GlitchCircuit)
    } else if token == "GOOD_DIODE"@ {
        Some(MeasurementAttribute::GoodDiode)
    } else if token == "LEO_OHMS"@ {
        Some(MeasurementAttribute::LowOhms)
    } else if token == "NEGATIVE_EDGE"@ {
        Some(MeasurementAttribute::NegativeEdge)
    } else if token == "POSITIVE_EDGE"@ {
        Some(MeasurementAttribute::PositiveEdge)
    } else if token == "HIGH_CURRENT"@ {
        Some(MeasurementAttribute::HighCurrent)
    } else {
        None
    }
}

proof fn reveal_attribute_tokens()
    ensures
        "NONE"@.len() == 4,
        "NONE"@[0] == 'N',
        "NONE"@[1] == 'O',
        "NONE"@[2] == 'N',
        "NONE"@[3] == 'E',
        "OPEN_CIRCUIT"@.len() == 12,
        "OPEN_CIRCUIT"@[0] == 'O',
        "OPEN_CIRCUIT"@[1] == 'P',
        "OPEN_CIRCUIT"@[2] == 'E',
        "OPEN_CIRCUIT"@[3] == 'N',
        "OPEN_CIRCUIT"@[4] == '_',
        "OPEN_CIRCUIT"@[5] == 'C',
        "OPEN_CIRCUIT"@[6] == 'I',
        "OPEN_CIRCUIT"@[7] == 'R',
        "OPEN_CIRCUIT"@[8] == 'C',
        "OPEN_CIRCUIT"@[9] == 'U',
        "OPEN_CIRCUIT"@[10] == 'I',
        "OPEN_CIRCUIT"@[11] == 'T',
        "SHORT_CIRCUIT"@.len() == 13,
        "SHORT_CIRCUIT"@[0] == 'S',
        "SHORT_CIRCUIT"@[1] == 'H',
        "SHORT_CIRCUIT"@[2] == 'O',
        "SHORT_CIRCUIT"@[3] == 'R',
        "SHORT_CIRCUIT"@[4] == 'T',
        "SHORT_CIRCUIT"@[5] == '_',
        "SHORT_CIRCUIT"@[6] == 'C',
        "SHORT_CIRCUIT"@[7] == 'I',
        "SHORT_CIRCUIT"@[8] == 'R',
        "SHORT_CIRCUIT"@[9] == 'C',
        "SHORT_CIRCUIT"@[10] == 'U',
        "SHORT_CIRCUIT"@[11] == 'I',
        "SHORT_CIRCUIT"@[12] == 'T',
        "GLITCH_CIRCUIT"@.len() == 14,
        "GLITCH_CIRCUIT"@[0] == 'G',
        "GLITCH_CIRCUIT"@[1] == 'L',
        "GLITCH_CIRCUIT"@[2] == 'I',
        "GLITCH_CIRCUIT"@[3] == 'T',
        "GLITCH_CIRCUIT"@[4] == 'C',
        "GLITCH_CIRCUIT"@[5] == 'H',
        "GLITCH_CIRCUIT"@[6] == '_',
        "GLITCH_CIRCUIT"@[7] == 'C',
        "GLITCH_CIRCUIT"@[8] == 'I',
        "GLITCH_CIRCUIT"@[9] == 'R',
        "GLITCH_CIRCUIT"@[10] == 'C',
        "GLITCH_CIRCUIT"@[11] == 'U',
        "GLITCH_CIRCUIT"@[12] == 'I',
        "GLITCH_CIRCUIT"@[13] == 'T',
        "GOOD_DIODE"@.len() == 10,
        "GOOD_DIODE"@[0] == 'G',
        "GOOD_DIODE"@[1] == 'O',
        "GOOD_DIODE"@[2] == 'O',
        "GOOD_DIODE"@[3] == 'D',
        "GOOD_DIODE"@[4] == '_',
        "GOOD_DIODE"@[5] == 'D',
        "GOOD_DIODE"@[6] == 'I',
        "GOOD_DIODE"@[7] == 'O',
        "GOOD_DIODE"@[8] == 'D',
        "GOOD_DIODE"@[9] == 'E',
        "LEO_OHMS"@.len() == 8,
        "LEO_OHMS"@[0] == 'L',
        "LEO_OHMS"@[1] == 'E',
        "LEO_OHMS"@[2] == 'O',
        "LEO_OHMS"@[3] == '_',
        "LEO_OHMS"@[4] == 'O',
        "LEO_OHMS"@[5] == 'H',
        "LEO_OHMS"@[6] == 'M',
        "LEO_OHMS"@[7] == 'S',
        "NEGATIVE_EDGE"@.len() == 13,
        "NEGATIVE_EDGE"@[0] == 'N',
        "NEGATIVE_EDGE"@[1] == 'E',
        "NEGATIVE_EDGE"@[2] == 'G',
        "NEGATIVE_EDGE"@[3] == 'A',
        "NEGATIVE_EDGE"@[4] == 'T',
        "NEGATIVE_EDGE"@[5] == 'I',
        "NEGATIVE_EDGE"@[6] == 'V',
        "NEGATIVE_EDGE"@[7] == 'E',
        "NEGATIVE_EDGE"@[8] == '_',
        "NEGATIVE_EDGE"@[9] == 'E',
        "NEGATIVE_EDGE"@[10] == 'D',
        "NEGATIVE_EDGE"@[11] == 'G',
        "NEGATIVE_EDGE"@[12] == 'E',
        "POSITIVE_EDGE"@.len() == 13,
        "POSITIVE_EDGE"@[0] == 'P',
        "POSITIVE_EDGE"@[1] == 'O',
        "POSITIVE_EDGE"@[2] == 'S',
        "POSITIVE_EDGE"@[3] == 'I',
        "POSITIVE_EDGE"@[4] == 'T',
        "POSITIVE_EDGE"@[5] == 'I',
        "POSITIVE_EDGE"@[6] == 'V',
        "POSITIVE_EDGE"@[7] == 'E',
        "POSITIVE_EDGE"@[8] == '_',
        "POSITIVE_EDGE"@[9] == 'E',
        "POSITIVE_EDGE"@[10] == 'D',
        "POSITIVE_EDGE"@[11] == 'G',
        "POSITIVE_EDGE"@[12] == 'E',
        "HIGH_CURRENT"@.len() == 12,
        "HIGH_CURRENT"@[0] == 'H',
        "HIGH_CURRENT"@[1] == 'I',
        "HIGH_CURRENT"@[2] == 'G',
        "HIGH_CURRENT"@[3] == 'H',
        "HIGH_CURRENT"@[4] == '_',
        "HIGH_CURRENT"@[5] == 'C',
        "HIGH_CURRENT"@[6] == 'U',
        "HIGH_CURRENT"@[7] == 'R',
        "HIGH_CURRENT"@[8] == 'R',
        "HIGH_CURRENT"@[9] == 'E',
        "HIGH_CURRENT"@[10] == 'N',
        "HIGH_CURRENT"@[11] == 'T',
{
    reveal_strlit("NONE");
    reveal_strlit("OPEN_CIRCUIT");
    reveal_strlit("SHORT_CIRCUIT");
    reveal_strlit("GLITCH_CIRCUIT");
    reveal_strlit("GOOD_DIODE");
    reveal_strlit("LEO_OHMS");
    reveal_strlit("NEGATIVE_EDGE");
    reveal_strlit("POSITIVE_EDGE");
    reveal_strlit("HIGH_CURRENT");
}

impl MeasurementAttribute {
    /// The token under which this measurement attribute travels on the wire.
    pub fn token(&self) -> (text: &'static str)
        ensures
            text@ == attribute_token(*self),
    {
        match self {
            MeasurementAttribute::NoAttribute => "NONE",
            MeasurementAttribute::OpenCircuit => "OPEN_CIRCUIT",
            MeasurementAttribute::ShortCircuit => "SHORT_CIRCUIT",
            MeasurementAttribute::GlitchCircuit => "GLITCH_CIRCUIT",
            MeasurementAttribute::GoodDiode => "GOOD_DIODE",
            MeasurementAttribute::LowOhms => "LEO_OHMS",
            MeasurementAttribute::NegativeEdge => "NEGATIVE_EDGE",
            MeasurementAttribute::PositiveEdge => "POSITIVE_EDGE",
            MeasurementAttribute::HighCurrent => "HIGH_CURRENT",
        }
    }
}

pub(crate) fn attribute_of_chars(token: &Vec<char>) -> (found: Option<MeasurementAttribute>)
    ensures
        found == decode_attribute(token@),
{
    if matches_text(token, "NONE") {
        Some(MeasurementAttribute::NoAttribute)
    } else if matches_text(token, "OPEN_CIRCUIT") {
        Some(MeasurementAttribute::OpenCircuit)
    } else if matches_text(token, "SHORT_CIRCUIT") {
        Some(MeasurementAttribute::ShortCircuit)
    } else if matches_text(token, "GLITCH_CIRCUIT") {
        Some(MeasurementAttribute::GlitchCircuit)
    } else if matches_text(token, "GOOD_DIODE") {
        Some(MeasurementAttribute::GoodDiode)
    } else if matches_text(token, "LEO_OHMS") {
        Some(MeasurementAttribute::LowOhms)
    } else if matches_text(token, "NEGATIVE_EDGE") {
        Some(MeasurementAttribute::NegativeEdge)
    } else if matches_text(token, "POSITIVE_EDGE") {
        Some(MeasurementAttribute::PositiveEdge)
    } else if matches_text(token, "HIGH_CURRENT") {
        Some(MeasurementAttribute::HighCurrent)
    } else {
        None
    }
}

/// Decodes a measurement attribute token; an unknown token is a parse failure that names it.
pub fn parse_attribute(attribute_str: &str) -> (result: Result<MeasurementAttribute, Error>)
    ensures
        match decode_attribute(attribute_str@) {
            Some(v) => result == Ok::<MeasurementAttribute, Error>(v),
            None => result matches Err(e) && e@ == ErrorView::Parse("Unknown attribute: "@ + attribute_str@),
        },
{
    let token = chars_of(attribute_str);
    match attribute_of_chars(&token) {
        Some(v) => Ok(v),
        None => Err(Error::Parse(String::from_str("Unknown attribute: ").concat(attribute_str))),
    }
}

/// Encoding a measurement attribute and decoding its token gives the measurement attribute back.
pub proof fn lemma_attribute_round_trip(v: MeasurementAttribute)
    ensures
        decode_attribute(attribute_token(v)) == Some(v),
{
    reveal_attribute_tokens();
}

/// A text decodes exactly when it is the token of some measurement attribute, and then to
/// that measurement attribute; every other text is refused.
pub proof fn lemma_attribute_decode_exact(token: Seq<char>)
    ensures
        match decode_attribute(token) {
            Some(v) => attribute_token(v) == token,
            None => forall|v: MeasurementAttribute| attribute_token(v) != token,
        },
{
    reveal_attribute_tokens();
}

/// Every token of the three tables is a plain text.
pub proof fn lemma_tokens_are_plain(unit: Unit, state: MeasurementState, attribute: MeasurementAttribute)
    ensures
        is_plain_text(unit_token(unit)),
        is_plain_text(state_token(state)),
        is_plain_text(attribute_token(attribute)),
{
    reveal_unit_tokens();
    reveal_state_tokens();
    reveal_attribute_tokens();
}

} // verus!
