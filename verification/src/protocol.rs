//! Framing of replies: lines, status lines and the payloads between them.
//!
//! A reply is zero or more continuation lines `NNN-payload` and one status
//! line `NNN message`. Every line ends with CR LF.

use crate::constants::{is_error, is_error_code, ReturnCode};
use crate::error::{
    invalid_data_failure, protocol_failure, ClientError, ClientErrorView, ClientResult,
    ClientStatus,
};
use crate::stream::{next_line, push_all, InputBuffer, OutputBuffer, CR, LF};
use crate::text::{
    chars_of, digit_value, is_digit, lemma_position_bounds, lemma_views_push, parse_u32,
    parse_unsigned, substring, views_of,
};
use crate::types::{
    history_client_of, result_view, voice_of, EventId, EventIdView, HistoryClientStatus,
    HistoryClientStatusView, StatusLine, StatusLineView, SynthesisVoice, SynthesisVoiceView,
};
use vstd::prelude::*;
use vstd::utf8::*;

verus! {

/// The bytes that end a line.
pub open spec fn line_end() -> Seq<u8> {
    seq![CR, LF]
}

/// The bytes that carry `lines`: each line in UTF-8, followed by CR LF.
pub open spec fn wire_bytes(lines: Seq<Seq<char>>) -> Seq<u8>
    decreases lines.len(),
{
    if lines.len() == 0 {
        Seq::empty()
    } else {
        wire_bytes(lines.drop_last()) + encode_utf8(lines.last()) + line_end()
    }
}

/// Writes `lines`, each followed by CR LF: all of them or, where they do
/// not fit, none.
pub fn write_lines(output: &mut OutputBuffer, lines: &Vec<String>) -> (result: ClientResult<()>)
    ensures
        wire_bytes(views_of(lines@)).len() <= old(output)@.room() ==> result is Ok
            && final(output)@ == old(output)@.write(wire_bytes(views_of(lines@))),
        wire_bytes(views_of(lines@)).len() > old(output)@.room() ==> result is Err
            && result->Err_0 == ClientError::NotReady && final(output)@ == old(output)@,
{
    let mut bytes: Vec<u8> = Vec::new();
    let ghost texts = views_of(lines@);
    let mut i: usize = 0;
    while i < lines.len()
        invariant
            i <= lines.len(),
            texts == views_of(lines@),
            bytes@ == wire_bytes(texts.subrange(0, i as int)),
        decreases lines.len() - i,
    {
        let ghost done = texts.subrange(0, i as int);
        let ghost next = texts.subrange(0, i + 1);
        assert(next.drop_last() =~= done);
        assert(next.last() == lines@[i as int]@);
        push_all(&mut bytes, lines[i].as_str().as_bytes());
        bytes.push(CR);
        bytes.push(LF);
        assert(bytes@ =~= wire_bytes(next));
        i += 1;
    }
    assert(texts.subrange(0, i as int) =~= texts);
    output.write_all(bytes.as_slice())
}

/// Writes `lines` as [`write_lines`] does, then releases to the transport
/// all that was written.
pub fn flush_lines(output: &mut OutputBuffer, lines: &Vec<String>) -> (result: ClientResult<()>)
    ensures
        wire_bytes(views_of(lines@)).len() <= old(output)@.room() ==> result is Ok
            && final(output)@ == old(output)@.write(wire_bytes(views_of(lines@))).flush(),
        wire_bytes(views_of(lines@)).len() > old(output)@.room() ==> result is Err
            && result->Err_0 == ClientError::NotReady && final(output)@ == old(output)@,
{
    match write_lines(output, lines) {
        Ok(()) => {
            output.flush();
            Ok(())
        },
        Err(error) => Err(error),
    }
}

/// `line` without `prefix` in front, or `line` itself where it does not
/// begin with `prefix`.
pub open spec fn without_prefix(line: Seq<char>, prefix: Seq<char>) -> Seq<char> {
    if prefix.is_prefix_of(line) {
        line.skip(prefix.len() as int)
    } else {
        line
    }
}

/// Removes `prefix` from the front of `line`, where it is there.
pub fn strip_prefix(line: &str, prefix: &str) -> (stripped: String)
    ensures
        stripped@ == without_prefix(line@, prefix@),
{
    let text = chars_of(line);
    let head = chars_of(prefix);
    if head.len() > text.len() {
        return line.to_string();
    }
    let mut i: usize = 0;
    while i < head.len()
        invariant
            text@ == line@,
            head@ == prefix@,
            head.len() <= text.len(),
            i <= head.len(),
            forall|j: int| 0 <= j < i ==> text@[j] == head@[j],
        decreases head.len() - i,
    {
        if text[i] != head[i] {
            assert(line@[i as int] != prefix@[i as int]);
            return line.to_string();
        }
        i += 1;
    }
    assert(prefix@ =~= line@.subrange(0, prefix@.len() as int));
    let stripped = substring(line, head.len(), text.len());
    assert(stripped@ =~= line@.skip(prefix@.len() as int));
    stripped
}

/// What a status line means: a code in `[300, 700)` reports a failure,
/// with the message less a leading `ERR `; any other code a success, with
/// the message less a leading `OK `.
pub open spec fn status_of(code: ReturnCode, text: Seq<char>) -> Result<
    StatusLineView,
    ClientErrorView,
> {
    if is_error_code(code) {
        Err(
            ClientErrorView::Ssip(
                StatusLineView { code, message: without_prefix(text, "ERR "@) },
            ),
        )
    } else {
        Ok(StatusLineView { code, message: without_prefix(text, "OK "@) })
    }
}

/// Reads what follows the code on a status line.
pub fn parse_status_line(code: ReturnCode, line: &str) -> (status: ClientStatus)
    ensures
        result_view(status) == status_of(code, line@),
{
    if is_error(code) {
        let message = strip_prefix(line, "ERR ");
        Err(ClientError::Ssip(StatusLine { code, message }))
    } else {
        let message = strip_prefix(line, "OK ");
        Ok(StatusLine { code, message })
    }
}

/// A line of a reply, taken apart.
#[derive(Debug, Clone, PartialEq, Eq)]
pub struct Line {
    /// The three-digit code.
    pub code: ReturnCode,
    /// Whether this is the status line, which ends the reply.
    pub last: bool,
    /// What follows the code and the space or dash.
    pub text: String,
}

/// Mathematical value of a [`Line`].
pub struct LineView {
    pub code: ReturnCode,
    pub last: bool,
    pub text: Seq<char>,
}

impl View for Line {
    type V = LineView;

    open spec fn view(&self) -> LineView {
        LineView { code: self.code, last: self.last, text: self.text@ }
    }
}

/// The number that three digits denote.
pub open spec fn code_of(hundreds: char, tens: char, units: char) -> ReturnCode {
    (digit_value(hundreds) * 100 + digit_value(tens) * 10 + digit_value(units)) as ReturnCode
}

/// A line of a reply, taken apart: three digits, then a space on the
/// status line or a dash on a continuation line, then the text.
pub open spec fn line_of(line: Seq<char>) -> Result<LineView, ClientErrorView> {
    if line.len() == 0 {
        Err(protocol_failure("empty line"@))
    } else if line.len() < 4 {
        Err(protocol_failure("line too short"@))
    } else if !(is_digit(line[0]) && is_digit(line[1]) && is_digit(line[2])) {
        Err(protocol_failure("invalid return code"@))
    } else if line[3] == ' ' {
        Ok(LineView { code: code_of(line[0], line[1], line[2]), last: true, text: line.skip(4) })
    } else if line[3] == '-' {
        Ok(LineView { code: code_of(line[0], line[1], line[2]), last: false, text: line.skip(4) })
    } else {
        Err(protocol_failure("expecting space or dash"@))
    }
}

/// The value of an ASCII digit.
fn digit_of(c: char) -> (value: u16)
    requires
        is_digit(c),
    ensures
        value == digit_value(c),
        value <= 9,
{
    (c as u32 - '0' as u32) as u16
}

/// Takes a line of a reply apart.
pub fn parse_line(line: &str) -> (result: Result<Line, ClientError>)
    ensures
        result_view(result) == line_of(line@),
{
    let chars = chars_of(line);
    if chars.len() == 0 {
        return Err(ClientError::invalid_input("empty line"));
    }
    if chars.len() < 4 {
        return Err(ClientError::invalid_input("line too short"));
    }
    let (c0, c1, c2, c3) = (chars[0], chars[1], chars[2], chars[3]);
    if !('0' <= c0 && c0 <= '9' && '0' <= c1 && c1 <= '9' && '0' <= c2 && c2 <= '9') {
        return Err(ClientError::invalid_input("invalid return code"));
    }
    let code: ReturnCode = digit_of(c0) * 100 + digit_of(c1) * 10 + digit_of(c2);
    if c3 == ' ' || c3 == '-' {
        let text = substring(line, 4, chars.len());
        assert(text@ =~= line@.skip(4));
        Ok(Line { code, last: c3 == ' ', text })
    } else {
        Err(ClientError::invalid_input("expecting space or dash"))
    }
}

/// The only line of a payload.
pub open spec fn single_value(lines: Seq<Seq<char>>) -> Result<Seq<char>, ClientErrorView> {
    if lines.len() == 0 {
        Err(ClientErrorView::TooFewLines)
    } else if lines.len() == 1 {
        Ok(lines[0])
    } else {
        Err(ClientErrorView::TooManyLines)
    }
}

/// Returns the only line of a payload: an error where there is none, or
/// more than one.
pub fn parse_single_value(lines: &[String]) -> (value: ClientResult<String>)
    ensures
        result_view(value) == single_value(views_of(lines@)),
{
    if lines.len() == 0 {
        Err(ClientError::TooFewLines)
    } else if lines.len() == 1 {
        Ok(lines[0].clone())
    } else {
        Err(ClientError::TooManyLines)
    }
}

/// The identifier that the two lines of an event payload hold: the
/// message, then the client.
pub open spec fn event_id_of(lines: Seq<Seq<char>>) -> Result<EventIdView, ClientErrorView> {
    if lines.len() < 2 {
        Err(ClientErrorView::TooFewLines)
    } else if lines.len() == 2 {
        Ok(EventIdView { message: lines[0], client: lines[1] })
    } else {
        Err(ClientErrorView::TooManyLines)
    }
}

/// Reads the two lines of an event payload.
pub fn parse_event_id(lines: &[String]) -> (id: ClientResult<EventId>)
    ensures
        result_view(id) == event_id_of(views_of(lines@)),
{
    if lines.len() < 2 {
        Err(ClientError::TooFewLines)
    } else if lines.len() == 2 {
        Ok(EventId::new(lines[0].as_str(), lines[1].as_str()))
    } else {
        Err(ClientError::TooManyLines)
    }
}

/// The number that `text` denotes, where it is an unsigned decimal number
/// no larger than `max`.
pub open spec fn integer_of(text: Seq<char>, max: nat, msg: Seq<char>) -> Result<
    nat,
    ClientErrorView,
> {
    match parse_unsigned(text, max) {
        Some(n) => Ok(n),
        None => Err(invalid_data_failure(msg)),
    }
}

/// The number that the only line of a payload denotes.
pub open spec fn single_integer(lines: Seq<Seq<char>>) -> Result<u32, ClientErrorView> {
    match single_value(lines) {
        Err(error) => Err(error),
        Ok(text) => match integer_of(text, u32::MAX as nat, "invalid integer value"@) {
            Ok(n) => Ok(n as u32),
            Err(error) => Err(error),
        },
    }
}

/// Reads the only line of a payload as a number.
pub fn parse_single_integer(lines: &[String]) -> (value: ClientResult<u32>)
    ensures
        match single_integer(views_of(lines@)) {
            Ok(n) => value == Ok::<u32, ClientError>(n),
            Err(error) => value is Err && value->Err_0@ == error,
        },
{
    match parse_single_value(lines) {
        Err(error) => Err(error),
        Ok(text) => match parse_u32(text.as_str()) {
            Some(n) => Ok(n),
            None => Err(ClientError::invalid_data("invalid integer value")),
        },
    }
}

/// A value that one line of a payload describes.
pub trait FromLine: Sized + View {
    /// The value that `line` describes.
    spec fn line_value(line: Seq<char>) -> Result<Self::V, ClientErrorView>;

    /// Reads the value that `line` describes.
    fn from_line(line: &str) -> (result: Result<Self, ClientError>)
        ensures
            result_view(result) == Self::line_value(line@),
    ;
}

impl FromLine for SynthesisVoice {
    open spec fn line_value(line: Seq<char>) -> Result<SynthesisVoiceView, ClientErrorView> {
        Ok(voice_of(line))
    }

    fn from_line(line: &str) -> (result: Result<SynthesisVoice, ClientError>) {
        SynthesisVoice::from_str(line)
    }
}

impl FromLine for HistoryClientStatus {
    open spec fn line_value(line: Seq<char>) -> Result<HistoryClientStatusView, ClientErrorView> {
        history_client_of(line)
    }

    fn from_line(line: &str) -> (result: Result<HistoryClientStatus, ClientError>) {
        HistoryClientStatus::from_str(line)
    }
}

/// The values that the lines of a payload describe, or the error of the
/// first line that describes none.
pub open spec fn typed_lines<T: FromLine>(lines: Seq<Seq<char>>) -> Result<
    Seq<T::V>,
    ClientErrorView,
>
    decreases lines.len(),
{
    if lines.len() == 0 {
        Ok(Seq::empty())
    } else {
        match typed_lines::<T>(lines.drop_last()) {
            Err(error) => Err(error),
            Ok(values) => match T::line_value(lines.last()) {
                Err(error) => Err(error),
                Ok(value) => Ok(values.push(value)),
            },
        }
    }
}

/// The mathematical value of a list of values, or of the error in its
/// place.
pub open spec fn list_view<T: View>(result: ClientResult<Vec<T>>) -> Result<
    Seq<T::V>,
    ClientErrorView,
> {
    match result {
        Ok(values) => Ok(views_of(values@)),
        Err(error) => Err(error@),
    }
}

/// Reads each line of a payload as a value.
pub fn parse_typed_lines<T: FromLine>(lines: &[String]) -> (values: ClientResult<Vec<T>>)
    ensures
        list_view(values) == typed_lines::<T>(views_of(lines@)),
{
    let mut values: Vec<T> = Vec::new();
    let ghost texts = views_of(lines@);
    let mut i: usize = 0;
    assert(views_of(values@) =~= Seq::<T::V>::empty());
    while i < lines.len()
        invariant
            i <= lines.len(),
            texts == views_of(lines@),
            typed_lines::<T>(texts.subrange(0, i as int)) == Ok::<Seq<T::V>, ClientErrorView>(
                views_of(values@),
            ),
        decreases lines.len() - i,
    {
        let ghost done = texts.subrange(0, i as int);
        let ghost next = texts.subrange(0, i + 1);
        assert(next.drop_last() =~= done);
        assert(next.last() == lines@[i as int]@);
        match T::from_line(lines[i].as_str()) {
            Err(error) => {
                proof {
                    lemma_typed_lines_fail::<T>(texts, i + 1);
                }
                return Err(error);
            },
            Ok(value) => {
                proof {
                    lemma_views_push(values@, value);
                }
                values.push(value);
            },
        }
        i += 1;
    }
    assert(texts.subrange(0, i as int) =~= texts);
    Ok(values)
}

/// Once the lines up to `k` hold one that describes no value, so do all
/// the lines, and the error is the same.
pub proof fn lemma_typed_lines_fail<T: FromLine>(lines: Seq<Seq<char>>, k: int)
    requires
        0 <= k <= lines.len(),
        typed_lines::<T>(lines.subrange(0, k)) is Err,
    ensures
        typed_lines::<T>(lines) == typed_lines::<T>(lines.subrange(0, k)),
    decreases lines.len(),
{
    if k == lines.len() {
        assert(lines.subrange(0, k) =~= lines);
    } else {
        assert(lines.drop_last().subrange(0, k) =~= lines.subrange(0, k));
        lemma_typed_lines_fail::<T>(lines.drop_last(), k);
    }
}

/// What the reading of one reply from `input` gives.
pub enum Frame {
    /// The reply has not arrived in full.
    Incomplete,
    /// The reply was read to its status line, or to the line that breaks
    /// the protocol.
    Complete {
        /// The status line, or what went wrong.
        outcome: Result<StatusLineView, ClientErrorView>,
        /// The payload lines, after those that the caller held before.
        lines: Seq<Seq<char>>,
        /// The bytes that follow what was read.
        rest: Seq<u8>,
    },
}

/// Reads one reply from `input`: lines are taken until the status line.
/// With `keep`, the texts of continuation lines are added to `lines`;
/// without it, a continuation line breaks the protocol.
pub open spec fn frame_of(input: Seq<u8>, keep: bool, lines: Seq<Seq<char>>) -> Frame
    decreases input.len(),
    via frame_of_decreases
{
    match next_line(input) {
        None => Frame::Incomplete,
        Some((Err(error), rest)) => Frame::Complete { outcome: Err(error), lines, rest },
        Some((Ok(text), rest)) => match line_of(text) {
            Err(error) => Frame::Complete { outcome: Err(error), lines, rest },
            Ok(line) => if line.last {
                Frame::Complete { outcome: status_of(line.code, line.text), lines, rest }
            } else if keep {
                frame_of(rest, keep, lines.push(line.text))
            } else {
                Frame::Complete { outcome: Err(protocol_failure("unexpected line"@)), lines, rest }
            },
        },
    }
}

#[via_fn]
proof fn frame_of_decreases(input: Seq<u8>, keep: bool, lines: Seq<Seq<char>>) {
    lemma_position_bounds(input, LF);
}

/// Reads one reply from `input`, up to its status line. With `lines`, the
/// texts of continuation lines are added to it; without, a continuation
/// line breaks the protocol. Where the reply has not arrived in full,
/// nothing is read and the transport is reported as not ready.
pub fn receive_answer(input: &mut InputBuffer, lines: Option<&mut Vec<String>>) -> (status:
    ClientStatus)
    ensures
        match frame_of(
            old(input)@,
            lines is Some,
            match lines {
                Some(held) => views_of(held@),
                None => Seq::empty(),
            },
        ) {
            Frame::Incomplete => status == Err::<StatusLine, ClientError>(ClientError::NotReady)
                && final(input)@ == old(input)@ && match lines {
                Some(held) => final(held)@ == held@,
                None => true,
            },
            Frame::Complete { outcome, lines: texts, rest } => result_view(status) == outcome
                && final(input)@ == rest && match lines {
                Some(held) => views_of(final(held)@) == texts,
                None => true,
            },
        },
{
    let keep = lines.is_some();
    let ghost held_before: Seq<Seq<char>> = match &lines {
        Some(held) => views_of(held@),
        None => Seq::empty(),
    };
    let mut found: Vec<String> = Vec::new();
    let mut at: usize = 0;
    let mut outcome: ClientStatus = Err(ClientError::NotReady);
    let mut complete: bool = true;
    proof {
        assert(input@.skip(0) =~= input@);
        assert(held_before + views_of(found@) =~= held_before);
    }
    loop
        invariant_except_break
            complete,
            frame_of(old(input)@, keep, held_before) == frame_of(
                input@.skip(at as int),
                keep,
                held_before + views_of(found@),
            ),
        invariant
            at <= input@.len(),
            input@ == old(input)@,
        ensures
            complete ==> frame_of(old(input)@, keep, held_before) == (Frame::Complete {
                outcome: result_view(outcome),
                lines: held_before + views_of(found@),
                rest: input@.skip(at as int),
            }),
            !complete ==> frame_of(old(input)@, keep, held_before) == Frame::Incomplete,
        decreases input@.len() - at,
    {
        let ghost texts = held_before + views_of(found@);
        match input.line_at(at) {
            None => {
                complete = false;
                break ;
            },
            Some((text, next)) => {
                at = next;
                match text {
                    Err(error) => {
                        outcome = Err(error);
                        break ;
                    },
                    Ok(text) => match parse_line(text.as_str()) {
                        Err(error) => {
                            outcome = Err(error);
                            break ;
                        },
                        Ok(line) => {
                            if line.last {
                                outcome = parse_status_line(line.code, line.text.as_str());
                                break ;
                            } else if keep {
                                proof {
                                    lemma_views_push(found@, line.text);
                                    assert(texts.push(line.text@) =~= held_before + views_of(
                                        found@.push(line.text),
                                    ));
                                }
                                found.push(line.text);
                            } else {
                                outcome = Err(ClientError::invalid_input("unexpected line"));
                                break ;
                            }
                        },
                    },
                }
            },
        }
    }
    if !complete {
        return Err(ClientError::NotReady);
    }
    input.consume(at);
    match lines {
        Some(held) => {
            proof {
                assert(views_of(held@ + found@) =~= views_of(held@) + views_of(found@));
            }
            held.append(&mut found);
        },
        None => {},
    }
    outcome
}

} // verus!
