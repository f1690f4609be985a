//! The wire codec: acknowledgement codes, measurement and identification
//! payloads. Pure functions on text.

use crate::device::{DeviceInfo, DeviceInfoView, Measurement, MeasurementView, Timestamp};
use crate::error::{agrees, Error, ErrorView};
use crate::framing::{joined_lines, normalized, strip_line_feeds};
use crate::number::{is_float_literal, is_float_text, lemma_float_literal_is_plain};
use crate::text::{
    chars_of, is_plain_text, is_space, lemma_split_piece, lemma_trim_unpadded, slice_of, split,
    split_chars, string_of, trim, trim_chars, views,
};
use crate::tokens::{
    attribute_of_chars, attribute_token, decode_attribute, decode_state, decode_unit,
    lemma_attribute_round_trip, lemma_state_round_trip, lemma_tokens_are_plain,
    lemma_unit_round_trip, state_of_chars, state_token, unit_of_chars, unit_token,
};
use vstd::prelude::*;
use vstd::string::*;

verus! {

/// What the acknowledgement character of a response says: nothing when the
/// instrument accepted the command, else the failure it reports.
pub open spec fn ack_failure(response: Seq<char>) -> Option<ErrorView> {
    if response.len() == 0 {
        Some(ErrorView::Parse("Empty response"@))
    } else if response[0] == '0' {
        None
    } else if response[0] == '1' {
        Some(ErrorView::InvalidCommand("Syntax error"@))
    } else if response[0] == '2' {
        Some(ErrorView::Device("Execution error"@))
    } else if response[0] == '5' {
        Some(ErrorView::Device("No data available"@))
    } else {
        Some(ErrorView::Parse("Unknown ACK code: "@.push(response[0])))
    }
}

/// Reads the acknowledgement character that leads a normalized response.
pub fn parse_ack(response: &str) -> (result: Result<(), Error>)
    ensures
        match ack_failure(response@) {
            None => result is Ok,
            Some(failure) => result matches Err(e) && e@ == failure,
        },
{
    if response.is_empty() {
        return Err(Error::Parse(String::from_str("Empty response")));
    }
    let code = response.get_char(0);
    if code == '0' {
        Ok(())
    } else if code == '1' {
        Err(Error::InvalidCommand(String::from_str("Syntax error")))
    } else if code == '2' {
        Err(Error::Device(String::from_str("Execution error")))
    } else if code == '5' {
        Err(Error::Device(String::from_str("No data available")))
    } else {
        let mut text = String::from_str("Unknown ACK code: ");
        text.push(code);
        Err(Error::Parse(text))
    }
}

/// What a measurement payload decodes to: at least four comma-separated
/// fields, of which the first is the value and the next three are the unit,
/// state and attribute tokens, each taken without the white space around it.
/// The first field that is wrong decides the failure.
pub open spec fn measurement_outcome(payload: Seq<char>, timestamp: Option<Timestamp>) -> Result<
    MeasurementView,
    ErrorView,
> {
    let parts = split(payload, ',');
    if parts.len() < 4 {
        Err(ErrorView::Parse("Invalid measurement response format"@))
    } else if !is_float_literal(trim(parts[0])) {
        Err(ErrorView::Parse("Invalid measurement value: "@ + parts[0]))
    } else if decode_unit(trim(parts[1])) is None {
        Err(ErrorView::Parse("Unknown unit: "@ + trim(parts[1])))
    } else if decode_state(trim(parts[2])) is None {
        Err(ErrorView::Parse("Unknown state: "@ + trim(parts[2])))
    } else if decode_attribute(trim(parts[3])) is None {
        Err(ErrorView::Parse("Unknown attribute: "@ + trim(parts[3])))
    } else {
        Ok(
            MeasurementView {
                value: trim(parts[0]),
                unit: decode_unit(trim(parts[1]))->0,
                state: decode_state(trim(parts[2]))->0,
                attribute: decode_attribute(trim(parts[3]))->0,
                timestamp,
            },
        )
    }
}

fn labelled(label: &str, detail: &Vec<char>) -> (text: String)
    ensures
        text@ == label@ + detail@,
{
    let tail = string_of(detail, 0, detail.len());
    assert(detail@.subrange(0, detail@.len() as int) =~= detail@);
    String::from_str(label).concat(tail.as_str())
}

fn measurement_of_chars(payload: &Vec<char>, timestamp: Option<Timestamp>) -> (result: Result<
    Measurement,
    Error,
>)
    ensures
        agrees(result, measurement_outcome(payload@, timestamp)),
{
    let parts = split_chars(payload, ',');
    if parts.len() < 4 {
        return Err(Error::Parse(String::from_str("Invalid measurement response format")));
    }
    assert(views(parts@)[0] == parts@[0]@);
    assert(views(parts@)[1] == parts@[1]@);
    assert(views(parts@)[2] == parts@[2]@);
    assert(views(parts@)[3] == parts@[3]@);
    let value = trim_chars(&parts[0]);
    if !is_float_text(&value) {
        return Err(Error::Parse(labelled("Invalid measurement value: ", &parts[0])));
    }
    let unit_text = trim_chars(&parts[1]);
    let unit = match unit_of_chars(&unit_text) {
        Some(unit) => unit,
        None => {
            return Err(Error::Parse(labelled("Unknown unit: ", &unit_text)));
        },
    };
    let state_text = trim_chars(&parts[2]);
    let state = match state_of_chars(&state_text) {
        Some(state) => state,
        None => {
            return Err(Error::Parse(labelled("Unknown state: ", &state_text)));
        },
    };
    let attribute_text = trim_chars(&parts[3]);
    let attribute = match attribute_of_chars(&attribute_text) {
        Some(attribute) => attribute,
        None => {
            return Err(Error::Parse(labelled("Unknown attribute: ", &attribute_text)));
        },
    };
    let text = string_of(&value, 0, value.len());
    assert(value@.subrange(0, value@.len() as int) =~= value@);
    Ok(Measurement { value: text, unit, state, attribute, timestamp })
}

/// Decodes the payload of a measurement query, stamping the reading with
/// `timestamp`.
pub fn parse_measurement_at(payload: &str, timestamp: Option<Timestamp>) -> (result: Result<
    Measurement,
    Error,
>)
    ensures
        agrees(result, measurement_outcome(payload@, timestamp)),
{
    let chars = chars_of(payload);
    measurement_of_chars(&chars, timestamp)
}

/// Decodes the payload of a measurement query and stamps the reading with
/// the current time.
pub fn parse_measurement(payload: &str) -> (result: Result<Measurement, Error>)
    ensures
        exists|instant: Timestamp| #[trigger]
            agrees(result, measurement_outcome(payload@, Some(instant))),
{
    let instant = crate::clock::now();
    let result = parse_measurement_at(payload, Some(instant));
    assert(agrees(result, measurement_outcome(payload@, Some(instant))));
    result
}

/// What a whole response to a measurement query decodes to: the
/// acknowledgement first, then the payload that follows it.
pub open spec fn measurement_response_outcome(
    response: Seq<char>,
    timestamp: Option<Timestamp>,
) -> Result<MeasurementView, ErrorView> {
    match ack_failure(response) {
        Some(failure) => Err(failure),
        None => measurement_outcome(response.skip(1), timestamp),
    }
}

/// Decodes a normalized response to a measurement query.
pub fn parse_measurement_response(response: &str, timestamp: Option<Timestamp>) -> (result: Result<
    Measurement,
    Error,
>)
    ensures
        agrees(result, measurement_response_outcome(response@, timestamp)),
{
    match parse_ack(response) {
        Err(e) => Err(e),
        Ok(_) => {
            let chars = chars_of(response);
            let payload = slice_of(&chars, 1, chars.len());
            assert(payload@ =~= response@.skip(1));
            measurement_of_chars(&payload, timestamp)
        },
    }
}

/// The wire form of a reading: the success digit and a carriage return, then
/// value, unit, state and attribute separated by commas, then a carriage
/// return.
pub open spec fn encoded_measurement(m: MeasurementView) -> Seq<char> {
    "0\r"@ + m.value + ","@ + unit_token(m.unit) + ","@ + state_token(m.state) + ","@
        + attribute_token(m.attribute) + "\r"@
}

/// Encodes a reading as the instrument would send it.
pub fn encode_measurement(m: &Measurement) -> (text: String)
    ensures
        text@ == encoded_measurement(m@),
{
    let mut text = String::from_str("0\r");
    text.append(m.value.as_str());
    text.append(",");
    text.append(m.unit.token());
    text.append(",");
    text.append(m.state.token());
    text.append(",");
    text.append(m.attribute.token());
    text.append("\r");
    text
}

/// What a response to an identification query decodes to: after the
/// acknowledgement, at least three comma-separated fields: model, software
/// version and serial number, each without the white space around it.
pub open spec fn identification_outcome(response: Seq<char>) -> Result<DeviceInfoView, ErrorView> {
    match ack_failure(response) {
        Some(failure) => Err(failure),
        None => {
            let parts = split(response.skip(1), ',');
            if parts.len() < 3 {
                Err(ErrorView::Parse("Invalid identification response"@))
            } else {
                Ok(
                    DeviceInfoView {
                        model: trim(parts[0]),
                        software_version: trim(parts[1]),
                        serial_number: trim(parts[2]),
                    },
                )
            }
        },
    }
}

fn trimmed_string(field: &Vec<char>) -> (text: String)
    ensures
        text@ == trim(field@),
{
    let kept = trim_chars(field);
    assert(kept@.subrange(0, kept@.len() as int) =~= kept@);
    string_of(&kept, 0, kept.len())
}

/// Decodes a normalized response to an identification query.
pub fn parse_identification(response: &str) -> (result: Result<DeviceInfo, Error>)
    ensures
        agrees(result, identification_outcome(response@)),
{
    match parse_ack(response) {
        Err(e) => Err(e),
        Ok(_) => {
            let chars = chars_of(response);
            let payload = slice_of(&chars, 1, chars.len());
            assert(payload@ =~= response@.skip(1));
            let parts = split_chars(&payload, ',');
            if parts.len() < 3 {
                return Err(Error::Parse(String::from_str("Invalid identification response")));
            }
            assert(views(parts@)[0] == parts@[0]@);
            assert(views(parts@)[1] == parts@[1]@);
            assert(views(parts@)[2] == parts@[2]@);
            let model = trimmed_string(&parts[0]);
            let software_version = trimmed_string(&parts[1]);
            let serial_number = trimmed_string(&parts[2]);
            Ok(DeviceInfo { model, serial_number, software_version })
        },
    }
}

/// The payload of a reading: value, unit, state and attribute with commas
/// between them.
pub open spec fn measurement_payload(m: MeasurementView) -> Seq<char> {
    m.value + ","@ + unit_token(m.unit) + ","@ + state_token(m.state) + ","@ + attribute_token(
        m.attribute,
    )
}

/// A response that leads with the syntax-error digit fails every typed
/// decoder with `InvalidCommand`, whatever follows the digit.
pub proof fn lemma_syntax_error_fails_every_decoder(
    response: Seq<char>,
    timestamp: Option<Timestamp>,
)
    requires
        response.len() > 0,
        response[0] == '1',
    ensures
        ack_failure(response) == Some(ErrorView::InvalidCommand("Syntax error"@)),
        identification_outcome(response) == Err::<DeviceInfoView, ErrorView>(
            ErrorView::InvalidCommand("Syntax error"@),
        ),
        measurement_response_outcome(response, timestamp) == Err::<MeasurementView, ErrorView>(
            ErrorView::InvalidCommand("Syntax error"@),
        ),
{
}

proof fn lemma_plain_line(s: Seq<char>)
    requires
        s.len() > 0 ==> !is_space(s.last()),
    ensures
        strip_line_feeds(s) == s,
{
}

/// Four plain fields joined by commas split into those fields again, and
/// the whole holds no white space.
proof fn lemma_payload_fields(a: Seq<char>, b: Seq<char>, c: Seq<char>, d: Seq<char>)
    requires
        is_plain_text(a),
        is_plain_text(b),
        is_plain_text(c),
        is_plain_text(d),
    ensures
        split(a + ","@ + b + ","@ + c + ","@ + d, ',') == seq![a, b, c, d],
        trim(a) == a,
        trim(b) == b,
        trim(c) == c,
        trim(d) == d,
        (a + ","@ + b + ","@ + c + ","@ + d).len() > 0,
        forall|i: int|
            0 <= i < (a + ","@ + b + ","@ + c + ","@ + d).len() ==> !is_space(
                #[trigger] (a + ","@ + b + ","@ + c + ","@ + d)[i],
            ),
{
    reveal_strlit(",");
    assert(","@ =~= seq![',']);
    let none = Seq::<char>::empty();
    let ab = a + ","@ + b;
    let abc = ab + ","@ + c;
    let all = abc + ","@ + d;
    lemma_split_piece(none, a, ',');
    lemma_split_piece(a, b, ',');
    assert(ab =~= a.push(',') + b);
    lemma_split_piece(ab, c, ',');
    assert(abc =~= ab.push(',') + c);
    lemma_split_piece(abc, d, ',');
    assert(all =~= abc.push(',') + d);
    assert(split(all, ',') =~= seq![a, b, c, d]);
    lemma_trim_unpadded(a);
    lemma_trim_unpadded(b);
    lemma_trim_unpadded(c);
    lemma_trim_unpadded(d);
    assert forall|i: int| 0 <= i < all.len() implies !is_space(#[trigger] all[i]) by {
        let x = a.len();
        let y = x + 1 + b.len();
        let z = y + 1 + c.len();
        if i < x {
            assert(all[i] == a[i]);
        } else if i == x {
        } else if i < y {
            assert(all[i] == b[i - x - 1]);
        } else if i == y {
        } else if i < z {
            assert(all[i] == c[i - y - 1]);
        } else if i == z {
        } else {
            assert(all[i] == d[i - z - 1]);
        }
    }
}

/// A body without white space, sent after the success digit with a
/// carriage return behind each, is normalized to the digit and the body.
proof fn lemma_framed_body(body: Seq<char>)
    requires
        body.len() > 0,
        forall|i: int| 0 <= i < body.len() ==> !is_space(#[trigger] body[i]),
    ensures
        normalized("0\r"@ + body + "\r"@) == Ok::<Seq<char>, ErrorView>(seq!['0'] + body),
{
    reveal_strlit("0\r");
    reveal_strlit("\r");
    let ack = seq!['0'];
    let none = Seq::<char>::empty();
    assert("0\r"@ =~= ack.push('\r'));
    assert("\r"@ =~= seq!['\r']);
    let wire = "0\r"@ + body + "\r"@;
    assert(wire =~= (ack.push('\r') + body).push('\r') + none);
    assert forall|i: int| 0 <= i < body.len() implies body[i] != '\r' by {
        assert(!is_space(body[i]));
    }
    lemma_split_piece(none, ack, '\r');
    lemma_split_piece(ack, body, '\r');
    lemma_split_piece(ack.push('\r') + body, none, '\r');
    let lines = split(wire, '\r');
    assert(lines =~= seq![ack, body, none]);
    lemma_plain_line(ack);
    assert(!is_space(body[body.len() - 1]));
    lemma_plain_line(body);
    lemma_plain_line(none);
    assert(lines.drop_last() =~= seq![ack, body]);
    assert(lines.drop_last().drop_last() =~= seq![ack]);
    assert(lines.drop_last().drop_last().drop_last() =~= Seq::<Seq<char>>::empty());
    assert(joined_lines(Seq::<Seq<char>>::empty()) =~= none);
    assert(joined_lines(seq![ack]) =~= ack);
    assert(joined_lines(seq![ack, body]) =~= ack + body);
    assert(joined_lines(lines) =~= ack + body);
}

/// The wire form of a reading whose value is a floating-point literal is
/// read back as that reading: framing reduces it to the success digit
/// followed by the payload, and decoding that gives the value, unit, state
/// and attribute that were encoded.
pub proof fn lemma_encoded_measurement_decodes(m: MeasurementView, timestamp: Option<Timestamp>)
    requires
        is_float_literal(m.value),
    ensures
        normalized(encoded_measurement(m)) == Ok::<Seq<char>, ErrorView>(
            seq!['0'] + measurement_payload(m),
        ),
        measurement_response_outcome(seq!['0'] + measurement_payload(m), timestamp) == Ok::<
            MeasurementView,
            ErrorView,
        >(MeasurementView { timestamp, ..m }),
{
    lemma_float_literal_is_plain(m.value);
    lemma_tokens_are_plain(m.unit, m.state, m.attribute);
    lemma_unit_round_trip(m.unit);
    lemma_state_round_trip(m.state);
    lemma_attribute_round_trip(m.attribute);
    let payload = measurement_payload(m);
    lemma_payload_fields(
        m.value,
        unit_token(m.unit),
        state_token(m.state),
        attribute_token(m.attribute),
    );
    lemma_framed_body(payload);
    assert(encoded_measurement(m) =~= "0\r"@ + payload + "\r"@);
    assert((seq!['0'] + payload).skip(1) =~= payload);
    assert((seq!['0'] + payload)[0] == '0');
}

} // verus!
