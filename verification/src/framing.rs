//! Framing of one command exchange: how a command is put on the wire, when
//! the instrument's answer is complete, when waiting for it has to stop, and
//! what text remains of the answer once it is complete.
//!
//! The reader is driven from outside: whoever owns the transport reports each
//! read attempt, with the reading of a monotonic clock in nanoseconds, and is
//! told whether to go on reading.

use crate::error::{agrees, Error, ErrorView};
use crate::text::{chars_of, split, split_chars, views};
use vstd::prelude::*;
use vstd::string::*;

verus! {

/// How long a silent instrument is waited for before any carriage return,
/// unless the caller chooses otherwise.
pub const ACK_TIMEOUT_NANOS: u128 = 5_000_000_000;

/// How long a payload is waited for once the acknowledgement line is in,
/// unless the caller chooses otherwise.
pub const PAYLOAD_IDLE_TIMEOUT_NANOS: u128 = 750_000_000;

/// The pause between two read attempts, in milliseconds.
pub const READ_BACKOFF_MILLIS: u64 = 10;

/// The pause between writing a command and the first read, in milliseconds.
pub const SETTLE_DELAY_MILLIS: u64 = 50;

/// The result of decoding `bytes` as UTF-8 with every malformed sequence
/// replaced by U+FFFD.
pub uninterp spec fn lossy_text(bytes: Seq<u8>) -> Seq<char>;

/// `String::from_utf8_lossy`: the text of the bytes, where malformed UTF-8 is
/// replaced by U+FFFD; well-formed UTF-8 comes back as the text it encodes.
#[verifier::external_body]
fn decode_lossy(bytes: &[u8]) -> (text: String)
    ensures
        text@ == lossy_text(bytes@),
        vstd::utf8::valid_utf8(bytes@) ==> text@ == vstd::utf8::decode_utf8(bytes@),
{
    String::from_utf8_lossy(bytes).into_owned()
}

/// The bytes that put `command` on the wire: its text, then one carriage
/// return.
pub fn frame_command(command: &str) -> (bytes: Vec<u8>)
    ensures
        bytes@ == command.spec_bytes().push(13u8),
{
    let mut bytes = command.as_bytes_vec();
    bytes.push(13u8);
    bytes
}

/// How often `c` occurs in `s`.
pub open spec fn occurrences(s: Seq<char>, c: char) -> nat
    decreases s.len(),
{
    if s.len() == 0 {
        0
    } else {
        occurrences(s.drop_last(), c) + if s.last() == c {
            1nat
        } else {
            0nat
        }
    }
}

/// `s` without the line feeds at its end.
pub open spec fn strip_line_feeds(s: Seq<char>) -> Seq<char>
    decreases s.len(),
{
    if s.len() > 0 && s.last() == '\n' {
        strip_line_feeds(s.drop_last())
    } else {
        s
    }
}

/// The lines one after the other, each without the line feeds at its end.
pub open spec fn joined_lines(lines: Seq<Seq<char>>) -> Seq<char>
    decreases lines.len(),
{
    if lines.len() == 0 {
        Seq::<char>::empty()
    } else {
        joined_lines(lines.drop_last()) + strip_line_feeds(lines.last())
    }
}

/// What remains of a complete response: its carriage-return-separated lines,
/// stripped of trailing line feeds and joined with nothing between them, so
/// that the acknowledgement character is followed directly by the payload.
/// Nothing received at all is a timeout; nothing but line ends is a response
/// without acknowledgement.
pub open spec fn normalized(response: Seq<char>) -> Result<Seq<char>, ErrorView> {
    if response.len() == 0 {
        Err(ErrorView::Timeout)
    } else {
        let text = joined_lines(split(response, '\r'));
        if text.len() == 0 {
            Err(ErrorView::Parse("Missing ACK"@))
        } else {
            Ok(text)
        }
    }
}

fn normalize_chars(response: &Vec<char>) -> (result: Result<String, Error>)
    ensures
        agrees(result, normalized(response@)),
{
    if response.len() == 0 {
        return Err(Error::Timeout);
    }
    let lines = split_chars(response, '\r');
    let mut text = String::new();
    let mut empty = true;
    let mut k: usize = 0;
    while k < lines.len()
        invariant
            k <= lines@.len(),
            text@ == joined_lines(views(lines@).take(k as int)),
            empty == (text@.len() == 0),
        decreases lines@.len() - k,
    {
        let line = &lines[k];
        let mut end: usize = line.len();
        assert(line@.take(end as int) =~= line@);
        while end > 0 && line[end - 1] == '\n'
            invariant
                end <= line@.len(),
                strip_line_feeds(line@) == strip_line_feeds(line@.take(end as int)),
            decreases end,
        {
            assert(line@.take(end as int).drop_last() =~= line@.take(end as int - 1));
            end -= 1;
        }
        let ghost before = text@;
        let mut i: usize = 0;
        while i < end
            invariant
                i <= end <= line@.len(),
                text@ == before + line@.take(i as int),
            decreases end - i,
        {
            assert(line@.take(i as int + 1) =~= line@.take(i as int).push(line@[i as int]));
            text.push(line[i]);
            i += 1;
        }
        if end > 0 {
            empty = false;
        }
        proof {
            let shown = views(lines@);
            assert(shown.take(k as int + 1).drop_last() =~= shown.take(k as int));
            assert(shown.take(k as int + 1).last() == line@);
        }
        k += 1;
    }
    assert(views(lines@).take(k as int) =~= views(lines@));
    if empty {
        Err(Error::Parse(String::from_str("Missing ACK")))
    } else {
        Ok(text)
    }
}

/// Normalizes the accumulated text of a complete response.
pub fn normalize_response(response: &str) -> (result: Result<String, Error>)
    ensures
        agrees(result, normalized(response@)),
{
    let chars = chars_of(response);
    normalize_chars(&chars)
}

/// What to do after a read attempt.
#[derive(Debug, Clone, Copy, PartialEq, Eq, Structural)]
pub enum ReadStep {
    /// Pause for the backoff, then read again.
    Continue,
    /// The response is complete: stop reading and normalize it.
    Complete,
    /// The instrument never answered: the exchange fails with a timeout.
    TimedOut,
}

/// The two waits of an exchange, in nanoseconds.
#[derive(Debug, Clone, Copy, PartialEq, Eq, Structural)]
pub struct Timeouts {
    /// How long a silent instrument is waited for before any carriage return.
    pub ack_nanos: u128,
    /// How long a payload is waited for once the acknowledgement line is in.
    pub payload_idle_nanos: u128,
}

/// The waits that suit the instrument: five seconds for the acknowledgement,
/// three quarters of a second for the payload.
pub open spec fn standard_timeouts() -> Timeouts {
    Timeouts { ack_nanos: ACK_TIMEOUT_NANOS, payload_idle_nanos: PAYLOAD_IDLE_TIMEOUT_NANOS }
}

impl Timeouts {
    pub fn standard() -> (timeouts: Timeouts)
        ensures
            timeouts == standard_timeouts(),
    {
        Timeouts { ack_nanos: ACK_TIMEOUT_NANOS, payload_idle_nanos: PAYLOAD_IDLE_TIMEOUT_NANOS }
    }
}

/// The state of one exchange as contracts see it.
pub struct ReaderView {
    /// The waits that the exchange was started with.
    pub timeouts: Timeouts,
    /// Everything received so far.
    pub response: Seq<char>,
    /// The clock reading at the last read that brought data, or at the start.
    pub last_activity: nat,
}

/// The difference `now - since`, or zero where the clock reading is older.
pub open spec fn elapsed(now: nat, since: nat) -> nat {
    if now >= since {
        (now - since) as nat
    } else {
        0
    }
}

/// The step after a chunk of text has been appended to `response`.
pub open spec fn step_after_data(response: Seq<char>) -> ReadStep {
    if occurrences(response, '\r') >= 2 {
        ReadStep::Complete
    } else {
        ReadStep::Continue
    }
}

/// The step after a read attempt that brought nothing by clock reading
/// `now`, be it that it timed out or that it returned no bytes.
pub open spec fn step_after_timeout(reader: ReaderView, now: nat) -> ReadStep {
    let waited = elapsed(now, reader.last_activity);
    if occurrences(reader.response, '\r') == 0 {
        if waited > reader.timeouts.ack_nanos {
            ReadStep::TimedOut
        } else {
            ReadStep::Continue
        }
    } else if waited > reader.timeouts.payload_idle_nanos {
        ReadStep::Complete
    } else {
        ReadStep::Continue
    }
}

/// While no carriage return has been seen the response is never complete:
/// data asks for more, and a read that timed out or brought nothing gives
/// the instrument up exactly when it has been silent for longer than the
/// acknowledgement timeout.
pub proof fn lemma_without_carriage_return(reader: ReaderView, now: nat)
    requires
        occurrences(reader.response, '\r') == 0,
    ensures
        step_after_data(reader.response) == ReadStep::Continue,
        step_after_timeout(reader, now) == if elapsed(now, reader.last_activity)
            > reader.timeouts.ack_nanos {
            ReadStep::TimedOut
        } else {
            ReadStep::Continue
        },
{
}

/// After the acknowledgement line no silence fails the exchange: a read that
/// timed out or brought nothing either waits on or lets the response stand
/// as it is.
pub proof fn lemma_after_acknowledgement(reader: ReaderView, now: nat)
    requires
        occurrences(reader.response, '\r') >= 1,
    ensures
        step_after_timeout(reader, now) != ReadStep::TimedOut,
        step_after_timeout(reader, now) == ReadStep::Complete <==> elapsed(
            now,
            reader.last_activity,
        ) > reader.timeouts.payload_idle_nanos,
{
}

/// Accumulates the response to one command.
pub struct ResponseReader {
    response: Vec<char>,
    carriage_returns: usize,
    last_activity: u128,
    timeouts: Timeouts,
}

impl View for ResponseReader {
    type V = ReaderView;

    closed spec fn view(&self) -> ReaderView {
        ReaderView {
            timeouts: self.timeouts,
            response: self.response@,
            last_activity: self.last_activity as nat,
        }
    }
}

/// Appending a character adds one occurrence when it is the one counted.
proof fn lemma_occurrences_push(s: Seq<char>, x: char, c: char)
    ensures
        occurrences(s.push(x), c) == occurrences(s, c) + if x == c {
            1nat
        } else {
            0nat
        },
        occurrences(s, c) <= s.len(),
    decreases s.len(),
{
    assert(s.push(x).drop_last() =~= s);
    if s.len() > 0 {
        lemma_occurrences_push(s.drop_last(), s.last(), c);
        assert(s.drop_last().push(s.last()) =~= s);
    }
}

impl ResponseReader {
    #[verifier::type_invariant]
    spec fn counted(&self) -> bool {
        self.carriage_returns == occurrences(self.response@, '\r')
    }

    /// A reader for an exchange that starts at clock reading `now`, with the
    /// standard waits.
    pub fn new(now: u128) -> (reader: Self)
        ensures
            reader@ == (ReaderView {
                timeouts: standard_timeouts(),
                response: Seq::<char>::empty(),
                last_activity: now as nat,
            }),
    {
        ResponseReader::with_timeouts(now, Timeouts::standard())
    }

    /// A reader for an exchange that starts at clock reading `now`, with
    /// waits of the caller's choice.
    pub fn with_timeouts(now: u128, timeouts: Timeouts) -> (reader: Self)
        ensures
            reader@ == (ReaderView {
                timeouts,
                response: Seq::<char>::empty(),
                last_activity: now as nat,
            }),
    {
        ResponseReader { response: Vec::new(), carriage_returns: 0, last_activity: now, timeouts }
    }

    /// A read brought no bytes at clock reading `now`. Nothing was received,
    /// so the silence is judged as after a read that timed out.
    pub fn on_empty_read(&self, now: u128) -> (step: ReadStep)
        ensures
            step == step_after_timeout(self@, now as nat),
    {
        self.on_timeout(now)
    }

    /// A read brought the text `chunk` at clock reading `now`: the text joins
    /// the response, and two carriage returns in all complete it.
    pub fn on_text(&mut self, chunk: &str, now: u128) -> (step: ReadStep)
        ensures
            final(self)@ == (ReaderView {
                timeouts: old(self)@.timeouts,
                response: old(self)@.response + chunk@,
                last_activity: now as nat,
            }),
            step == step_after_data(final(self)@.response),
    {
        proof {
            use_type_invariant(&*self);
        }
        let text = chars_of(chunk);
        let mut taken = ResponseReader::new(now);
        core::mem::swap(self, &mut taken);
        proof {
            use_type_invariant(&taken);
        }
        let ResponseReader { response, carriage_returns, last_activity: _, timeouts } = taken;
        let mut response = response;
        let mut count = carriage_returns;
        let ghost before = response@;
        let mut i: usize = 0;
        while i < text.len()
            invariant
                i <= text@.len(),
                response@ == before + text@.take(i as int),
                count == occurrences(response@, '\r'),
            decreases text@.len() - i,
        {
            let c = text[i];
            proof {
                lemma_occurrences_push(response@, c, '\r');
                assert(text@.take(i as int + 1) =~= text@.take(i as int).push(c));
                assert(before + text@.take(i as int + 1) =~= (before + text@.take(i as int)).push(
                    c,
                ));
            }
            response.push(c);
            let len = response.len();
            proof {
                lemma_occurrences_push(response@, c, '\r');
            }
            if c == '\r' {
                count += 1;
            }
            i += 1;
        }
        assert(text@.take(i as int) =~= text@);
        *self = ResponseReader { response, carriage_returns: count, last_activity: now, timeouts };
        if count >= 2 {
            ReadStep::Complete
        } else {
            ReadStep::Continue
        }
    }

    /// A read brought the bytes `chunk` at clock reading `now`. No bytes is an
    /// empty read, judged like a read that timed out; otherwise the bytes are
    /// decoded leniently and join the response as text.
    pub fn on_data(&mut self, chunk: &[u8], now: u128) -> (step: ReadStep)
        ensures
            chunk@.len() == 0 ==> final(self)@ == old(self)@ && step == step_after_timeout(
                old(self)@,
                now as nat,
            ),
            chunk@.len() > 0 ==> final(self)@ == (ReaderView {
                timeouts: old(self)@.timeouts,
                response: old(self)@.response + lossy_text(chunk@),
                last_activity: now as nat,
            }) && step == step_after_data(final(self)@.response),
            chunk@.len() > 0 && vstd::utf8::valid_utf8(chunk@) ==> final(self)@.response
                == old(self)@.response + vstd::utf8::decode_utf8(chunk@),
    {
        if chunk.len() == 0 {
            self.on_empty_read(now)
        } else {
            let text = decode_lossy(chunk);
            self.on_text(text.as_str(), now)
        }
    }

    /// Ends the exchange and hands out the normalized response.
    pub fn finish(self) -> (result: Result<String, Error>)
        ensures
            agrees(result, normalized(self@.response)),
    {
        normalize_chars(&self.response)
    }

    /// A read timed out at clock reading `now`. Before any carriage return
    /// the instrument is given the acknowledgement timeout and then given
    /// up; after one, a payload is waited for only for the idle timeout, and
    /// the response then stands as it is.
    pub fn on_timeout(&self, now: u128) -> (step: ReadStep)
        ensures
            step == step_after_timeout(self@, now as nat),
    {
        proof {
            use_type_invariant(self);
        }
        let waited: u128 = if now >= self.last_activity {
            now - self.last_activity
        } else {
            0
        };
        if self.carriage_returns == 0 {
            if waited > self.timeouts.ack_nanos {
                ReadStep::TimedOut
            } else {
                ReadStep::Continue
            }
        } else if waited > self.timeouts.payload_idle_nanos {
            ReadStep::Complete
        } else {
            ReadStep::Continue
        }
    }
}

} // verus!
