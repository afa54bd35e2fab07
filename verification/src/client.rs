//! The client: commands out, replies in.
//!
//! A [`Client`] turns requests into the bytes of their command lines and
//! the bytes of replies into responses. It holds both ends of the
//! connection in memory: whoever drives the transport feeds it what arrives
//! and carries away what it has written.
//!
//! There are two ways to talk to the server: with [`Client::send`] and
//! [`Client::receive`], or with one method for each command, such as
//! [`Client::set_rate`], followed by the method that reads its reply, such
//! as [`Client::check_status`].

use crate::constants::{
    ReturnCode, EVENT_BEGIN, EVENT_CANCELED, EVENT_END, EVENT_INDEX_MARK, EVENT_PAUSED,
    EVENT_RESUMED, OK_CLIENTS_LIST_SENT, OK_CLIENT_ID_SENT, OK_CLIENT_NAME_SET, OK_CUR_POS_RET,
    OK_GET, OK_LAST_MSG, OK_MESSAGE_QUEUED, OK_RECEIVING_DATA, OK_VOICES_LIST_SENT,
};
use crate::error::{
    invalid_data_failure, unexpected_eof_failure, ClientError, ClientErrorView, ClientResult,
};
use crate::protocol::{
    flush_lines, frame_of, integer_of, list_view, parse_single_integer, parse_single_value,
    parse_typed_lines, receive_answer, single_integer, single_value, typed_lines, wire_bytes,
    Frame,
};
use crate::request::{set_command, Request, END_OF_DATA};
use crate::response::{response_of, Response};
use crate::stream::{InputBuffer, OutputBuffer, OutputView};
use crate::text::{
    lemma_views_push, parse_i8, parse_signed, parse_u16, parse_u32, parse_u8, views_of,
};
use crate::types::{
    event_of, result_view, CapitalLettersRecognitionMode, ClientId, ClientName, ClientScope,
    CursorDirection, Event, EventTypeView, EventView, HistoryClientStatus,
    HistoryClientStatusView, HistoryPosition, KeyName, MessageId, MessageOrdering, MessageScope,
    NotificationType, Priority, PunctuationMode, SortDirection, SortKey, StatusLine,
    StatusLineView, SynthesisVoice, SynthesisVoiceView,
};
use vstd::prelude::*;

verus! {

/// A client of the speech server.
#[derive(Debug, Clone, PartialEq, Eq)]
pub struct Client {
    input: InputBuffer,
    output: OutputBuffer,
}

/// Mathematical value of a [`Client`].
pub struct ClientView {
    /// The bytes that have arrived and were not read yet.
    pub input: Seq<u8>,
    /// The bytes that were written and not carried away yet.
    pub output: OutputView,
}

impl ClientView {
    /// Whether the bytes of `lines` fit into what the write side holds.
    pub open spec fn can_write(self, lines: Seq<Seq<char>>) -> bool {
        wire_bytes(lines).len() <= self.output.room()
    }

    /// The value after `lines` were written and released to the
    /// transport.
    pub open spec fn written(self, lines: Seq<Seq<char>>) -> ClientView {
        ClientView { output: self.output.write(wire_bytes(lines)).flush(), ..self }
    }

    /// The value after the transport has carried away the first `count`
    /// released bytes: all of them where there are fewer.
    pub open spec fn consumed(self, count: nat) -> ClientView {
        ClientView { output: self.output.consumed(count), ..self }
    }

    /// The value after the transport has carried away all the released
    /// bytes.
    pub open spec fn drained(self) -> ClientView {
        ClientView { output: self.output.drained(), ..self }
    }

    /// The value after `bytes` have arrived.
    pub open spec fn fed(self, bytes: Seq<u8>) -> ClientView {
        ClientView { input: self.input + bytes, ..self }
    }

    /// The reply at the front of what has arrived. With `keep`, it may
    /// hold a payload.
    pub open spec fn reply(self, keep: bool) -> Frame {
        frame_of(self.input, keep, Seq::empty())
    }

    /// The value after the reply at the front was read: where it has not
    /// arrived in full, nothing is read.
    pub open spec fn read(self, keep: bool) -> ClientView {
        match self.reply(keep) {
            Frame::Incomplete => self,
            Frame::Complete { rest, .. } => ClientView { input: rest, ..self },
        }
    }
}

/// What is made of a reply: where it has not arrived in full, the
/// transport is not ready; where it reports a failure, that failure; else
/// what `read` makes of its status line and payload.
pub open spec fn reply_then<T>(
    frame: Frame,
    read: spec_fn(StatusLineView, Seq<Seq<char>>) -> Result<T, ClientErrorView>,
) -> Result<T, ClientErrorView> {
    match frame {
        Frame::Incomplete => Err(ClientErrorView::NotReady),
        Frame::Complete { outcome: Err(error), .. } => Err(error),
        Frame::Complete { outcome: Ok(status), lines, .. } => read(status, lines),
    }
}

/// A reply is accepted where its code is `expected`.
pub open spec fn expect_code(status: StatusLineView, expected: ReturnCode) -> Result<
    (),
    ClientErrorView,
> {
    if status.code == expected {
        Ok(())
    } else {
        Err(ClientErrorView::UnexpectedStatus(status.code))
    }
}

/// The payload of a reply with the code `expected`.
pub open spec fn lines_of(
    status: StatusLineView,
    lines: Seq<Seq<char>>,
    expected: ReturnCode,
) -> Result<Seq<Seq<char>>, ClientErrorView> {
    match expect_code(status, expected) {
        Ok(()) => Ok(lines),
        Err(error) => Err(error),
    }
}

/// The only line of the payload of a reply with the code `expected`.
pub open spec fn string_of(
    status: StatusLineView,
    lines: Seq<Seq<char>>,
    expected: ReturnCode,
) -> Result<Seq<char>, ClientErrorView> {
    match expect_code(status, expected) {
        Ok(()) => single_value(lines),
        Err(error) => Err(error),
    }
}

/// The unsigned number, no larger than `max`, that the only line of the
/// payload of a reply with the code `expected` denotes.
pub open spec fn number_of(
    status: StatusLineView,
    lines: Seq<Seq<char>>,
    expected: ReturnCode,
    max: nat,
    msg: Seq<char>,
) -> Result<nat, ClientErrorView> {
    match string_of(status, lines, expected) {
        Ok(text) => integer_of(text, max, msg),
        Err(error) => Err(error),
    }
}

/// The signed 8-bit number that the only line of the payload of a reply
/// to a `GET` denotes.
pub open spec fn signed_of(status: StatusLineView, lines: Seq<Seq<char>>) -> Result<
    int,
    ClientErrorView,
> {
    match string_of(status, lines, OK_GET) {
        Ok(text) => match parse_signed(text, i8::MIN as int, i8::MAX as int) {
            Some(n) => Ok(n),
            None => Err(invalid_data_failure("invalid signed integer"@)),
        },
        Err(error) => Err(error),
    }
}

/// The identifier of a message: the payload of a reply that a message was
/// queued, or of a reply that names the last message.
pub open spec fn message_id_of(status: StatusLineView, lines: Seq<Seq<char>>) -> Result<
    u32,
    ClientErrorView,
> {
    if status.code == OK_MESSAGE_QUEUED || status.code == OK_LAST_MSG {
        single_integer(lines)
    } else {
        Err(invalid_data_failure("not a message id"@))
    }
}

/// The voices that a voice list holds.
pub open spec fn voices_of(status: StatusLineView, lines: Seq<Seq<char>>) -> Result<
    Seq<SynthesisVoiceView>,
    ClientErrorView,
> {
    match expect_code(status, OK_VOICES_LIST_SENT) {
        Ok(()) => typed_lines::<SynthesisVoice>(lines),
        Err(error) => Err(error),
    }
}

/// The clients that a client list holds.
pub open spec fn clients_of(status: StatusLineView, lines: Seq<Seq<char>>) -> Result<
    Seq<HistoryClientStatusView>,
    ClientErrorView,
> {
    match expect_code(status, OK_CLIENTS_LIST_SENT) {
        Ok(()) => typed_lines::<HistoryClientStatus>(lines),
        Err(error) => Err(error),
    }
}

/// The kind of event that `code` announces, where it announces one.
/// `mark` is the name of the index mark.
pub open spec fn event_kind(code: ReturnCode, mark: Seq<char>) -> Option<EventTypeView> {
    if code == EVENT_INDEX_MARK {
        Some(EventTypeView::IndexMark(mark))
    } else if code == EVENT_BEGIN {
        Some(EventTypeView::Begin)
    } else if code == EVENT_END {
        Some(EventTypeView::End)
    } else if code == EVENT_CANCELED {
        Some(EventTypeView::Cancel)
    } else if code == EVENT_PAUSED {
        Some(EventTypeView::Pause)
    } else if code == EVENT_RESUMED {
        Some(EventTypeView::Resume)
    } else {
        None
    }
}

/// How many lines the payload of the event that `code` announces holds:
/// the message, the client and, for an index mark, the mark.
pub open spec fn event_lines(code: ReturnCode) -> nat {
    if code == EVENT_INDEX_MARK {
        3
    } else {
        2
    }
}

/// The event that a reply announces.
pub open spec fn event_of_reply(status: StatusLineView, lines: Seq<Seq<char>>) -> Result<
    EventView,
    ClientErrorView,
> {
    if event_kind(status.code, Seq::empty()) is None {
        Err(invalid_data_failure("wrong status code for event"@))
    } else if lines.len() < event_lines(status.code) {
        Err(unexpected_eof_failure("event truncated"@))
    } else if lines.len() > event_lines(status.code) {
        Err(ClientErrorView::TooManyLines)
    } else {
        let mark = if status.code == EVENT_INDEX_MARK {
            lines[2]
        } else {
            Seq::empty()
        };
        Ok(event_of(event_kind(status.code, mark)->Some_0, lines[0], lines[1]))
    }
}

impl View for Client {
    type V = ClientView;

    closed spec fn view(&self) -> ClientView {
        ClientView { input: self.input@, output: self.output@ }
    }
}

impl Client {
    /// A client on the two ends of a connection.
    pub fn new(input: InputBuffer, output: OutputBuffer) -> (client: Client)
        ensures
            client@ == (ClientView { input: input@, output: output@ }),
    {
        Client { input, output }
    }

    /// The read side: what has arrived and was not read yet.
    pub fn input_source(&self) -> (input: &InputBuffer)
        ensures
            input@ == self@.input,
    {
        &self.input
    }

    /// The write side: what was written and not carried away yet.
    pub fn output_source(&self) -> (output: &OutputBuffer)
        ensures
            output@ == self@.output,
    {
        &self.output
    }

    /// Hands the client bytes that have arrived.
    pub fn feed(&mut self, bytes: &[u8])
        ensures
            final(self)@ == old(self)@.fed(bytes@),
    {
        self.input.feed(bytes);
    }

    /// Takes the bytes that the transport is to carry away.
    pub fn take_output(&mut self) -> (bytes: Vec<u8>)
        ensures
            bytes@ == old(self)@.output.flushed,
            final(self)@ == old(self)@.drained(),
    {
        self.output.take()
    }

    /// Drops the first `count` bytes of what the transport is to carry
    /// away, once it has done so: all of them where there are fewer.
    pub fn consume_output(&mut self, count: usize)
        ensures
            final(self)@ == old(self)@.consumed(count as nat),
    {
        self.output.consume(count);
    }

    /// Writes `lines` and releases them to the transport: all of them or,
    /// where they do not fit, none.
    fn write(&mut self, lines: &Vec<String>) -> (result: ClientResult<()>)
        ensures
            result is Ok <==> old(self)@.can_write(views_of(lines@)),
            result is Ok ==> final(self)@ == old(self)@.written(views_of(lines@)),
            result is Err ==> result->Err_0 == ClientError::NotReady,
            result is Err ==> final(self)@ == old(self)@,
    {
        flush_lines(&mut self.output, lines)
    }

    /// Sends the text of a message in several lines, and the line that
    /// ends it.
    pub fn send_lines(&mut self, lines: &[String]) -> (result: ClientResult<&mut Self>)
        ensures
            result is Ok <==> old(self)@.can_write(views_of(lines@).push(END_OF_DATA@)),
            result is Ok ==> result->Ok_0@ == old(self)@.written(
                views_of(lines@).push(END_OF_DATA@),
            ),
            result is Ok ==> *final(self) == *final(result->Ok_0),
            result is Err ==> result->Err_0 == ClientError::NotReady,
            result is Err ==> final(self)@ == old(self)@,
    {
        let mut text: Vec<String> = Vec::new();
        let mut i: usize = 0;
        while i < lines.len()
            invariant
                i <= lines.len(),
                views_of(text@) == views_of(lines@).subrange(0, i as int),
            decreases lines.len() - i,
        {
            proof {
                lemma_views_push(text@, lines@[i as int]);
            }
            text.push(lines[i].clone());
            i += 1;
            assert(views_of(text@) =~= views_of(lines@).subrange(0, i as int));
        }
        proof {
            assert(views_of(lines@).subrange(0, i as int) =~= views_of(lines@));
        }
        self.send(Request::SendLines(text))
    }

    /// Sends the text of a message in one line, and the line that ends
    /// it.
    pub fn send_line(&mut self, line: &str) -> (result: ClientResult<&mut Self>)
        ensures
            result is Ok <==> old(self)@.can_write(seq![line@, END_OF_DATA@]),
            result is Ok ==> result->Ok_0@ == old(self)@.written(seq![line@, END_OF_DATA@]),
            result is Ok ==> *final(self) == *final(result->Ok_0),
            result is Err ==> result->Err_0 == ClientError::NotReady,
            result is Err ==> final(self)@ == old(self)@,
    {
        self.send(Request::SendLine(line.to_string()))
    }

    /// Sends a request: its lines are written and released to the
    /// transport, all of them or, where they do not fit, none.
    pub fn send(&mut self, request: Request) -> (result: ClientResult<&mut Self>)
        ensures
            result is Ok <==> old(self)@.can_write(request.wire_lines()),
            result is Ok ==> result->Ok_0@ == old(self)@.written(request.wire_lines()),
            result is Ok ==> *final(self) == *final(result->Ok_0),
            result is Err ==> result->Err_0 == ClientError::NotReady,
            result is Err ==> final(self)@ == old(self)@,
    {
        let lines = request.to_lines();
        match self.write(&lines) {
            Ok(()) => Ok(self),
            Err(error) => Err(error),
        }
    }

    /// Sends a request that the caller keeps.
    pub fn send_request(&mut self, request: &Request) -> (result: ClientResult<()>)
        ensures
            result is Ok <==> old(self)@.can_write(request.wire_lines()),
            result is Ok ==> final(self)@ == old(self)@.written(request.wire_lines()),
            result is Err ==> result->Err_0 == ClientError::NotReady,
            result is Err ==> final(self)@ == old(self)@,
    {
        let lines = request.to_lines();
        self.write(&lines)
    }

    /// Registers the client under a name. This is the first command of a
    /// connection.
    pub fn set_client_name(&mut self, client_name: ClientName) -> (result: ClientResult<&mut Self>)
        ensures
            result is Ok <==> old(self)@.can_write(Request::SetName(client_name).wire_lines()),
            result is Ok ==> result->Ok_0@ == old(self)@.written(
                Request::SetName(client_name).wire_lines(),
            ),
            result is Ok ==> *final(self) == *final(result->Ok_0),
            result is Err ==> result->Err_0 == ClientError::NotReady,
            result is Err ==> final(self)@ == old(self)@,
    {
        self.send(Request::SetName(client_name))
    }

    /// Announces the text of a message.
    pub fn speak(&mut self) -> (result: ClientResult<&mut Self>)
        ensures
            result is Ok <==> old(self)@.can_write(Request::Speak.wire_lines()),
            result is Ok ==> result->Ok_0@ == old(self)@.written(Request::Speak.wire_lines()),
            result is Ok ==> *final(self) == *final(result->Ok_0),
            result is Err ==> result->Err_0 == ClientError::NotReady,
            result is Err ==> final(self)@ == old(self)@,
    {
        self.send(Request::Speak)
    }

    /// Speaks one character.
    pub fn speak_char(&mut self, ch: char) -> (result: ClientResult<&mut Self>)
        ensures
            result is Ok <==> old(self)@.can_write(Request::SpeakChar(ch).wire_lines()),
            result is Ok ==> result->Ok_0@ == old(self)@.written(
                Request::SpeakChar(ch).wire_lines(),
            ),
            result is Ok ==> *final(self) == *final(result->Ok_0),
            result is Err ==> result->Err_0 == ClientError::NotReady,
            result is Err ==> final(self)@ == old(self)@,
    {
        self.send(Request::SpeakChar(ch))
    }

    /// Speaks the name of a key.
    pub fn speak_key(&mut self, key_name: KeyName) -> (result: ClientResult<&mut Self>)
        ensures
            result is Ok <==> old(self)@.can_write(Request::SpeakKey(key_name).wire_lines()),
            result is Ok ==> result->Ok_0@ == old(self)@.written(
                Request::SpeakKey(key_name).wire_lines(),
            ),
            result is Ok ==> *final(self) == *final(result->Ok_0),
            result is Err ==> result->Err_0 == ClientError::NotReady,
            result is Err ==> final(self)@ == old(self)@,
    {
        self.send(Request::SpeakKey(key_name))
    }

    /// Stops the message that is spoken.
    pub fn stop(&mut self, scope: MessageScope) -> (result: ClientResult<&mut Self>)
        ensures
            result is Ok <==> old(self)@.can_write(Request::Stop(scope).wire_lines()),
            result is Ok ==> result->Ok_0@ == old(self)@.written(Request::Stop(scope).wire_lines()),
            result is Ok ==> *final(self) == *final(result->Ok_0),
            result is Err ==> result->Err_0 == ClientError::NotReady,
            result is Err ==> final(self)@ == old(self)@,
    {
        self.send(Request::Stop(scope))
    }

    /// Stops and drops the queued messages.
    pub fn cancel(&mut self, scope: MessageScope) -> (result: ClientResult<&mut Self>)
        ensures
            result is Ok <==> old(self)@.can_write(Request::Cancel(scope).wire_lines()),
            result is Ok ==> result->Ok_0@ == old(self)@.written(
                Request::Cancel(scope).wire_lines(),
            ),
            result is Ok ==> *final(self) == *final(result->Ok_0),
            result is Err ==> result->Err_0 == ClientError::NotReady,
            result is Err ==> final(self)@ == old(self)@,
    {
        self.send(Request::Cancel(scope))
    }

    /// Pauses the messages.
    pub fn pause(&mut self, scope: MessageScope) -> (result: ClientResult<&mut Self>)
        ensures
            result is Ok <==> old(self)@.can_write(Request::Pause(scope).wire_lines()),
            result is Ok ==> result->Ok_0@ == old(self)@.written(
                Request::Pause(scope).wire_lines(),
            ),
            result is Ok ==> *final(self) == *final(result->Ok_0),
            result is Err ==> result->Err_0 == ClientError::NotReady,
            result is Err ==> final(self)@ == old(self)@,
    {
        self.send(Request::Pause(scope))
    }

    /// Resumes the paused messages.
    pub fn resume(&mut self, scope: MessageScope) -> (result: ClientResult<&mut Self>)
        ensures
            result is Ok <==> old(self)@.can_write(Request::Resume(scope).wire_lines()),
            result is Ok ==> result->Ok_0@ == old(self)@.written(
                Request::Resume(scope).wire_lines(),
            ),
            result is Ok ==> *final(self) == *final(result->Ok_0),
            result is Err ==> result->Err_0 == ClientError::NotReady,
            result is Err ==> final(self)@ == old(self)@,
    {
        self.send(Request::Resume(scope))
    }

    /// Sets the priority of the next messages.
    pub fn set_priority(&mut self, prio: Priority) -> (result: ClientResult<&mut Self>)
        ensures
            result is Ok <==> old(self)@.can_write(Request::SetPriority(prio).wire_lines()),
            result is Ok ==> result->Ok_0@ == old(self)@.written(
                Request::SetPriority(prio).wire_lines(),
            ),
            result is Ok ==> *final(self) == *final(result->Ok_0),
            result is Err ==> result->Err_0 == ClientError::NotReady,
            result is Err ==> final(self)@ == old(self)@,
    {
        self.send(Request::SetPriority(prio))
    }

    /// Turns the debugging output of the server on or off. The reply holds the place of the log.
    pub fn set_debug(&mut self, value: bool) -> (result: ClientResult<&mut Self>)
        ensures
            result is Ok <==> old(self)@.can_write(Request::SetDebug(value).wire_lines()),
            result is Ok ==> result->Ok_0@ == old(self)@.written(
                Request::SetDebug(value).wire_lines(),
            ),
            result is Ok ==> *final(self) == *final(result->Ok_0),
            result is Err ==> result->Err_0 == ClientError::NotReady,
            result is Err ==> final(self)@ == old(self)@,
    {
        self.send(Request::SetDebug(value))
    }

    /// Chooses the output module.
    pub fn set_output_module(
        &mut self,
        scope: ClientScope,
        value: &str,
    ) -> (result: ClientResult<&mut Self>)
        ensures
            result is Ok <==> old(self)@.can_write(
                seq![set_command(scope.token(), "OUTPUT_MODULE"@, value@)],
            ),
            result is Ok ==> result->Ok_0@ == old(self)@.written(
                seq![set_command(scope.token(), "OUTPUT_MODULE"@, value@)],
            ),
            result is Ok ==> *final(self) == *final(result->Ok_0),
            result is Err ==> result->Err_0 == ClientError::NotReady,
            result is Err ==> final(self)@ == old(self)@,
    {
        self.send(Request::SetOutputModule(scope, value.to_string()))
    }

    /// Asks for the output module.
    pub fn get_output_module(&mut self) -> (result: ClientResult<&mut Self>)
        ensures
            result is Ok <==> old(self)@.can_write(Request::GetOutputModule.wire_lines()),
            result is Ok ==> result->Ok_0@ == old(self)@.written(
                Request::GetOutputModule.wire_lines(),
            ),
            result is Ok ==> *final(self) == *final(result->Ok_0),
            result is Err ==> result->Err_0 == ClientError::NotReady,
            result is Err ==> final(self)@ == old(self)@,
    {
        self.send(Request::GetOutputModule)
    }

    /// Asks for the output modules that exist.
    pub fn list_output_modules(&mut self) -> (result: ClientResult<&mut Self>)
        ensures
            result is Ok <==> old(self)@.can_write(Request::ListOutputModules.wire_lines()),
            result is Ok ==> result->Ok_0@ == old(self)@.written(
                Request::ListOutputModules.wire_lines(),
            ),
            result is Ok ==> *final(self) == *final(result->Ok_0),
            result is Err ==> result->Err_0 == ClientError::NotReady,
            result is Err ==> final(self)@ == old(self)@,
    {
        self.send(Request::ListOutputModules)
    }

    /// Chooses the language, by its code.
    pub fn set_language(
        &mut self,
        scope: ClientScope,
        value: &str,
    ) -> (result: ClientResult<&mut Self>)
        ensures
            result is Ok <==> old(self)@.can_write(
                seq![set_command(scope.token(), "LANGUAGE"@, value@)],
            ),
            result is Ok ==> result->Ok_0@ == old(self)@.written(
                seq![set_command(scope.token(), "LANGUAGE"@, value@)],
            ),
            result is Ok ==> *final(self) == *final(result->Ok_0),
            result is Err ==> result->Err_0 == ClientError::NotReady,
            result is Err ==> final(self)@ == old(self)@,
    {
        self.send(Request::SetLanguage(scope, value.to_string()))
    }

    /// Asks for the language.
    pub fn get_language(&mut self) -> (result: ClientResult<&mut Self>)
        ensures
            result is Ok <==> old(self)@.can_write(Request::GetLanguage.wire_lines()),
            result is Ok ==> result->Ok_0@ == old(self)@.written(Request::GetLanguage.wire_lines()),
            result is Ok ==> *final(self) == *final(result->Ok_0),
            result is Err ==> result->Err_0 == ClientError::NotReady,
            result is Err ==> final(self)@ == old(self)@,
    {
        self.send(Request::GetLanguage)
    }

    /// Turns the reading of markup on or off.
    pub fn set_ssml_mode(&mut self, mode: bool) -> (result: ClientResult<&mut Self>)
        ensures
            result is Ok <==> old(self)@.can_write(Request::SetSsmlMode(mode).wire_lines()),
            result is Ok ==> result->Ok_0@ == old(self)@.written(
                Request::SetSsmlMode(mode).wire_lines(),
            ),
            result is Ok ==> *final(self) == *final(result->Ok_0),
            result is Err ==> result->Err_0 == ClientError::NotReady,
            result is Err ==> final(self)@ == old(self)@,
    {
        self.send(Request::SetSsmlMode(mode))
    }

    /// Chooses which punctuation is spoken.
    pub fn set_punctuation_mode(
        &mut self,
        scope: ClientScope,
        mode: PunctuationMode,
    ) -> (result: ClientResult<&mut Self>)
        ensures
            result is Ok <==> old(self)@.can_write(
                Request::SetPunctuationMode(scope, mode).wire_lines(),
            ),
            result is Ok ==> result->Ok_0@ == old(self)@.written(
                Request::SetPunctuationMode(scope, mode).wire_lines(),
            ),
            result is Ok ==> *final(self) == *final(result->Ok_0),
            result is Err ==> result->Err_0 == ClientError::NotReady,
            result is Err ==> final(self)@ == old(self)@,
    {
        self.send(Request::SetPunctuationMode(scope, mode))
    }

    /// Turns spelling on or off.
    pub fn set_spelling(
        &mut self,
        scope: ClientScope,
        value: bool,
    ) -> (result: ClientResult<&mut Self>)
        ensures
            result is Ok <==> old(self)@.can_write(Request::SetSpelling(scope, value).wire_lines()),
            result is Ok ==> result->Ok_0@ == old(self)@.written(
                Request::SetSpelling(scope, value).wire_lines(),
            ),
            result is Ok ==> *final(self) == *final(result->Ok_0),
            result is Err ==> result->Err_0 == ClientError::NotReady,
            result is Err ==> final(self)@ == old(self)@,
    {
        self.send(Request::SetSpelling(scope, value))
    }

    /// Chooses how capital letters are signalled.
    pub fn set_capital_letter_recogn(
        &mut self,
        scope: ClientScope,
        mode: CapitalLettersRecognitionMode,
    ) -> (result: ClientResult<&mut Self>)
        ensures
            result is Ok <==> old(self)@.can_write(
                Request::SetCapitalLettersRecognitionMode(scope, mode).wire_lines(),
            ),
            result is Ok ==> result->Ok_0@ == old(self)@.written(
                Request::SetCapitalLettersRecognitionMode(scope, mode).wire_lines(),
            ),
            result is Ok ==> *final(self) == *final(result->Ok_0),
            result is Err ==> result->Err_0 == ClientError::NotReady,
            result is Err ==> final(self)@ == old(self)@,
    {
        self.send(Request::SetCapitalLettersRecognitionMode(scope, mode))
    }

    /// Chooses one of the symbolic voices, such as `MALE1` or `FEMALE1`.
    pub fn set_voice_type(
        &mut self,
        scope: ClientScope,
        value: &str,
    ) -> (result: ClientResult<&mut Self>)
        ensures
            result is Ok <==> old(self)@.can_write(
                seq![set_command(scope.token(), "VOICE_TYPE"@, value@)],
            ),
            result is Ok ==> result->Ok_0@ == old(self)@.written(
                seq![set_command(scope.token(), "VOICE_TYPE"@, value@)],
            ),
            result is Ok ==> *final(self) == *final(result->Ok_0),
            result is Err ==> result->Err_0 == ClientError::NotReady,
            result is Err ==> final(self)@ == old(self)@,
    {
        self.send(Request::SetVoiceType(scope, value.to_string()))
    }

    /// Asks for the symbolic voice.
    pub fn get_voice_type(&mut self) -> (result: ClientResult<&mut Self>)
        ensures
            result is Ok <==> old(self)@.can_write(Request::GetVoiceType.wire_lines()),
            result is Ok ==> result->Ok_0@ == old(self)@.written(
                Request::GetVoiceType.wire_lines(),
            ),
            result is Ok ==> *final(self) == *final(result->Ok_0),
            result is Err ==> result->Err_0 == ClientError::NotReady,
            result is Err ==> final(self)@ == old(self)@,
    {
        self.send(Request::GetVoiceType)
    }

    /// Asks for the symbolic voices that exist.
    pub fn list_voice_types(&mut self) -> (result: ClientResult<&mut Self>)
        ensures
            result is Ok <==> old(self)@.can_write(Request::ListVoiceTypes.wire_lines()),
            result is Ok ==> result->Ok_0@ == old(self)@.written(
                Request::ListVoiceTypes.wire_lines(),
            ),
            result is Ok ==> *final(self) == *final(result->Ok_0),
            result is Err ==> result->Err_0 == ClientError::NotReady,
            result is Err ==> final(self)@ == old(self)@,
    {
        self.send(Request::ListVoiceTypes)
    }

    /// Chooses a voice of the synthesizer.
    pub fn set_synthesis_voice(
        &mut self,
        scope: ClientScope,
        value: &str,
    ) -> (result: ClientResult<&mut Self>)
        ensures
            result is Ok <==> old(self)@.can_write(
                seq![set_command(scope.token(), "SYNTHESIS_VOICE"@, value@)],
            ),
            result is Ok ==> result->Ok_0@ == old(self)@.written(
                seq![set_command(scope.token(), "SYNTHESIS_VOICE"@, value@)],
            ),
            result is Ok ==> *final(self) == *final(result->Ok_0),
            result is Err ==> result->Err_0 == ClientError::NotReady,
            result is Err ==> final(self)@ == old(self)@,
    {
        self.send(Request::SetSynthesisVoice(scope, value.to_string()))
    }

    /// Asks for the voices of the synthesizer.
    pub fn list_synthesis_voices(&mut self) -> (result: ClientResult<&mut Self>)
        ensures
            result is Ok <==> old(self)@.can_write(Request::ListSynthesisVoices.wire_lines()),
            result is Ok ==> result->Ok_0@ == old(self)@.written(
                Request::ListSynthesisVoices.wire_lines(),
            ),
            result is Ok ==> *final(self) == *final(result->Ok_0),
            result is Err ==> result->Err_0 == ClientError::NotReady,
            result is Err ==> final(self)@ == old(self)@,
    {
        self.send(Request::ListSynthesisVoices)
    }

    /// Sets the rate of speech: the value is kept within `[-100, 100]`, lower
    /// values meaning slower speech.
    pub fn set_rate(&mut self, scope: ClientScope, value: i8) -> (result: ClientResult<&mut Self>)
        ensures
            result is Ok <==> old(self)@.can_write(Request::SetRate(scope, value).wire_lines()),
            result is Ok ==> result->Ok_0@ == old(self)@.written(
                Request::SetRate(scope, value).wire_lines(),
            ),
            result is Ok ==> *final(self) == *final(result->Ok_0),
            result is Err ==> result->Err_0 == ClientError::NotReady,
            result is Err ==> final(self)@ == old(self)@,
    {
        self.send(Request::SetRate(scope, value))
    }

    /// Asks for the rate of speech.
    pub fn get_rate(&mut self) -> (result: ClientResult<&mut Self>)
        ensures
            result is Ok <==> old(self)@.can_write(Request::GetRate.wire_lines()),
            result is Ok ==> result->Ok_0@ == old(self)@.written(Request::GetRate.wire_lines()),
            result is Ok ==> *final(self) == *final(result->Ok_0),
            result is Err ==> result->Err_0 == ClientError::NotReady,
            result is Err ==> final(self)@ == old(self)@,
    {
        self.send(Request::GetRate)
    }

    /// Sets the pitch of speech: the value is kept within `[-100, 100]`.
    pub fn set_pitch(&mut self, scope: ClientScope, value: i8) -> (result: ClientResult<&mut Self>)
        ensures
            result is Ok <==> old(self)@.can_write(Request::SetPitch(scope, value).wire_lines()),
            result is Ok ==> result->Ok_0@ == old(self)@.written(
                Request::SetPitch(scope, value).wire_lines(),
            ),
            result is Ok ==> *final(self) == *final(result->Ok_0),
            result is Err ==> result->Err_0 == ClientError::NotReady,
            result is Err ==> final(self)@ == old(self)@,
    {
        self.send(Request::SetPitch(scope, value))
    }

    /// Asks for the pitch of speech.
    pub fn get_pitch(&mut self) -> (result: ClientResult<&mut Self>)
        ensures
            result is Ok <==> old(self)@.can_write(Request::GetPitch.wire_lines()),
            result is Ok ==> result->Ok_0@ == old(self)@.written(Request::GetPitch.wire_lines()),
            result is Ok ==> *final(self) == *final(result->Ok_0),
            result is Err ==> result->Err_0 == ClientError::NotReady,
            result is Err ==> final(self)@ == old(self)@,
    {
        self.send(Request::GetPitch)
    }

    /// Sets the volume of speech: the value is kept within `[-100, 100]`.
    pub fn set_volume(&mut self, scope: ClientScope, value: i8) -> (result: ClientResult<&mut Self>)
        ensures
            result is Ok <==> old(self)@.can_write(Request::SetVolume(scope, value).wire_lines()),
            result is Ok ==> result->Ok_0@ == old(self)@.written(
                Request::SetVolume(scope, value).wire_lines(),
            ),
            result is Ok ==> *final(self) == *final(result->Ok_0),
            result is Err ==> result->Err_0 == ClientError::NotReady,
            result is Err ==> final(self)@ == old(self)@,
    {
        self.send(Request::SetVolume(scope, value))
    }

    /// Asks for the volume of speech.
    pub fn get_volume(&mut self) -> (result: ClientResult<&mut Self>)
        ensures
            result is Ok <==> old(self)@.can_write(Request::GetVolume.wire_lines()),
            result is Ok ==> result->Ok_0@ == old(self)@.written(Request::GetVolume.wire_lines()),
            result is Ok ==> *final(self) == *final(result->Ok_0),
            result is Err ==> result->Err_0 == ClientError::NotReady,
            result is Err ==> final(self)@ == old(self)@,
    {
        self.send(Request::GetVolume)
    }

    /// Sets how many sentences are repeated when a paused text is resumed.
    pub fn set_pause_context(
        &mut self,
        scope: ClientScope,
        value: u32,
    ) -> (result: ClientResult<&mut Self>)
        ensures
            result is Ok <==> old(self)@.can_write(
                Request::SetPauseContext(scope, value).wire_lines(),
            ),
            result is Ok ==> result->Ok_0@ == old(self)@.written(
                Request::SetPauseContext(scope, value).wire_lines(),
            ),
            result is Ok ==> *final(self) == *final(result->Ok_0),
            result is Err ==> result->Err_0 == ClientError::NotReady,
            result is Err ==> final(self)@ == old(self)@,
    {
        self.send(Request::SetPauseContext(scope, value))
    }

    /// Turns the notification of a kind of event on or off.
    pub fn set_notification(
        &mut self,
        ntype: NotificationType,
        value: bool,
    ) -> (result: ClientResult<&mut Self>)
        ensures
            result is Ok <==> old(self)@.can_write(
                Request::SetNotification(ntype, value).wire_lines(),
            ),
            result is Ok ==> result->Ok_0@ == old(self)@.written(
                Request::SetNotification(ntype, value).wire_lines(),
            ),
            result is Ok ==> *final(self) == *final(result->Ok_0),
            result is Err ==> result->Err_0 == ClientError::NotReady,
            result is Err ==> final(self)@ == old(self)@,
    {
        self.send(Request::SetNotification(ntype, value))
    }

    /// Opens a block of messages.
    pub fn block_begin(&mut self) -> (result: ClientResult<&mut Self>)
        ensures
            result is Ok <==> old(self)@.can_write(Request::Begin.wire_lines()),
            result is Ok ==> result->Ok_0@ == old(self)@.written(Request::Begin.wire_lines()),
            result is Ok ==> *final(self) == *final(result->Ok_0),
            result is Err ==> result->Err_0 == ClientError::NotReady,
            result is Err ==> final(self)@ == old(self)@,
    {
        self.send(Request::Begin)
    }

    /// Closes the block of messages.
    pub fn block_end(&mut self) -> (result: ClientResult<&mut Self>)
        ensures
            result is Ok <==> old(self)@.can_write(Request::End.wire_lines()),
            result is Ok ==> result->Ok_0@ == old(self)@.written(Request::End.wire_lines()),
            result is Ok ==> *final(self) == *final(result->Ok_0),
            result is Err ==> result->Err_0 == ClientError::NotReady,
            result is Err ==> final(self)@ == old(self)@,
    {
        self.send(Request::End)
    }

    /// Turns the recording of messages on or off.
    pub fn set_history(
        &mut self,
        scope: ClientScope,
        value: bool,
    ) -> (result: ClientResult<&mut Self>)
        ensures
            result is Ok <==> old(self)@.can_write(Request::SetHistory(scope, value).wire_lines()),
            result is Ok ==> result->Ok_0@ == old(self)@.written(
                Request::SetHistory(scope, value).wire_lines(),
            ),
            result is Ok ==> *final(self) == *final(result->Ok_0),
            result is Err ==> result->Err_0 == ClientError::NotReady,
            result is Err ==> final(self)@ == old(self)@,
    {
        self.send(Request::SetHistory(scope, value))
    }

    /// Asks for the clients of the history.
    pub fn history_get_clients(&mut self) -> (result: ClientResult<&mut Self>)
        ensures
            result is Ok <==> old(self)@.can_write(Request::HistoryGetClients.wire_lines()),
            result is Ok ==> result->Ok_0@ == old(self)@.written(
                Request::HistoryGetClients.wire_lines(),
            ),
            result is Ok ==> *final(self) == *final(result->Ok_0),
            result is Err ==> result->Err_0 == ClientError::NotReady,
            result is Err ==> final(self)@ == old(self)@,
    {
        self.send(Request::HistoryGetClients)
    }

    /// Asks for the identifier of this client.
    pub fn history_get_client_id(&mut self) -> (result: ClientResult<&mut Self>)
        ensures
            result is Ok <==> old(self)@.can_write(Request::HistoryGetClientId.wire_lines()),
            result is Ok ==> result->Ok_0@ == old(self)@.written(
                Request::HistoryGetClientId.wire_lines(),
            ),
            result is Ok ==> *final(self) == *final(result->Ok_0),
            result is Err ==> result->Err_0 == ClientError::NotReady,
            result is Err ==> final(self)@ == old(self)@,
    {
        self.send(Request::HistoryGetClientId)
    }

    /// Asks for the last message that was spoken.
    pub fn history_get_last(&mut self) -> (result: ClientResult<&mut Self>)
        ensures
            result is Ok <==> old(self)@.can_write(Request::HistoryGetLastMsgId.wire_lines()),
            result is Ok ==> result->Ok_0@ == old(self)@.written(
                Request::HistoryGetLastMsgId.wire_lines(),
            ),
            result is Ok ==> *final(self) == *final(result->Ok_0),
            result is Err ==> result->Err_0 == ClientError::NotReady,
            result is Err ==> final(self)@ == old(self)@,
    {
        self.send(Request::HistoryGetLastMsgId)
    }

    /// Asks for `number` messages of a client, from the message `start` on.
    pub fn history_get_client_messages(
        &mut self,
        scope: ClientScope,
        start: u32,
        number: u32,
    ) -> (result: ClientResult<&mut Self>)
        ensures
            result is Ok <==> old(self)@.can_write(
                Request::HistoryGetClientMsgs(scope, start, number).wire_lines(),
            ),
            result is Ok ==> result->Ok_0@ == old(self)@.written(
                Request::HistoryGetClientMsgs(scope, start, number).wire_lines(),
            ),
            result is Ok ==> *final(self) == *final(result->Ok_0),
            result is Err ==> result->Err_0 == ClientError::NotReady,
            result is Err ==> final(self)@ == old(self)@,
    {
        self.send(Request::HistoryGetClientMsgs(scope, start, number))
    }

    /// Asks for the identifier of the last message of this client.
    pub fn history_get_last_message_id(&mut self) -> (result: ClientResult<&mut Self>)
        ensures
            result is Ok <==> old(self)@.can_write(Request::HistoryGetLastMsgId.wire_lines()),
            result is Ok ==> result->Ok_0@ == old(self)@.written(
                Request::HistoryGetLastMsgId.wire_lines(),
            ),
            result is Ok ==> *final(self) == *final(result->Ok_0),
            result is Err ==> result->Err_0 == ClientError::NotReady,
            result is Err ==> final(self)@ == old(self)@,
    {
        self.send(Request::HistoryGetLastMsgId)
    }

    /// Asks for the text of a message.
    pub fn history_get_message(&mut self, msg_id: MessageId) -> (result: ClientResult<&mut Self>)
        ensures
            result is Ok <==> old(self)@.can_write(Request::HistoryGetMsg(msg_id).wire_lines()),
            result is Ok ==> result->Ok_0@ == old(self)@.written(
                Request::HistoryGetMsg(msg_id).wire_lines(),
            ),
            result is Ok ==> *final(self) == *final(result->Ok_0),
            result is Err ==> result->Err_0 == ClientError::NotReady,
            result is Err ==> final(self)@ == old(self)@,
    {
        self.send(Request::HistoryGetMsg(msg_id))
    }

    /// Asks for the message on which the cursor stands.
    pub fn history_get_cursor(&mut self) -> (result: ClientResult<&mut Self>)
        ensures
            result is Ok <==> old(self)@.can_write(Request::HistoryCursorGet.wire_lines()),
            result is Ok ==> result->Ok_0@ == old(self)@.written(
                Request::HistoryCursorGet.wire_lines(),
            ),
            result is Ok ==> *final(self) == *final(result->Ok_0),
            result is Err ==> result->Err_0 == ClientError::NotReady,
            result is Err ==> final(self)@ == old(self)@,
    {
        self.send(Request::HistoryCursorGet)
    }

    /// Moves the cursor to a position.
    pub fn history_set_cursor(
        &mut self,
        scope: ClientScope,
        pos: HistoryPosition,
    ) -> (result: ClientResult<&mut Self>)
        ensures
            result is Ok <==> old(self)@.can_write(
                Request::HistoryCursorSet(scope, pos).wire_lines(),
            ),
            result is Ok ==> result->Ok_0@ == old(self)@.written(
                Request::HistoryCursorSet(scope, pos).wire_lines(),
            ),
            result is Ok ==> *final(self) == *final(result->Ok_0),
            result is Err ==> result->Err_0 == ClientError::NotReady,
            result is Err ==> final(self)@ == old(self)@,
    {
        self.send(Request::HistoryCursorSet(scope, pos))
    }

    /// Moves the cursor by one message.
    pub fn history_move_cursor(
        &mut self,
        direction: CursorDirection,
    ) -> (result: ClientResult<&mut Self>)
        ensures
            result is Ok <==> old(self)@.can_write(
                Request::HistoryCursorMove(direction).wire_lines(),
            ),
            result is Ok ==> result->Ok_0@ == old(self)@.written(
                Request::HistoryCursorMove(direction).wire_lines(),
            ),
            result is Ok ==> *final(self) == *final(result->Ok_0),
            result is Err ==> result->Err_0 == ClientError::NotReady,
            result is Err ==> final(self)@ == old(self)@,
    {
        self.send(Request::HistoryCursorMove(direction))
    }

    /// Speaks a message of the history.
    pub fn history_speak(&mut self, msg_id: MessageId) -> (result: ClientResult<&mut Self>)
        ensures
            result is Ok <==> old(self)@.can_write(Request::HistorySpeak(msg_id).wire_lines()),
            result is Ok ==> result->Ok_0@ == old(self)@.written(
                Request::HistorySpeak(msg_id).wire_lines(),
            ),
            result is Ok ==> *final(self) == *final(result->Ok_0),
            result is Err ==> result->Err_0 == ClientError::NotReady,
            result is Err ==> final(self)@ == old(self)@,
    {
        self.send(Request::HistorySpeak(msg_id))
    }

    /// Sorts the history.
    pub fn history_sort(
        &mut self,
        direction: SortDirection,
        key: SortKey,
    ) -> (result: ClientResult<&mut Self>)
        ensures
            result is Ok <==> old(self)@.can_write(
                Request::HistorySort(direction, key).wire_lines(),
            ),
            result is Ok ==> result->Ok_0@ == old(self)@.written(
                Request::HistorySort(direction, key).wire_lines(),
            ),
            result is Ok ==> *final(self) == *final(result->Ok_0),
            result is Err ==> result->Err_0 == ClientError::NotReady,
            result is Err ==> final(self)@ == old(self)@,
    {
        self.send(Request::HistorySort(direction, key))
    }

    /// Sets the length of the short form of a message.
    pub fn history_set_short_message_length(
        &mut self,
        length: u32,
    ) -> (result: ClientResult<&mut Self>)
        ensures
            result is Ok <==> old(self)@.can_write(
                Request::HistorySetShortMsgLength(length).wire_lines(),
            ),
            result is Ok ==> result->Ok_0@ == old(self)@.written(
                Request::HistorySetShortMsgLength(length).wire_lines(),
            ),
            result is Ok ==> *final(self) == *final(result->Ok_0),
            result is Err ==> result->Err_0 == ClientError::NotReady,
            result is Err ==> final(self)@ == old(self)@,
    {
        self.send(Request::HistorySetShortMsgLength(length))
    }

    /// Ranks the types of message, from the lowest to the highest.
    pub fn history_set_ordering(
        &mut self,
        ordering: Vec<MessageOrdering>,
    ) -> (result: ClientResult<&mut Self>)
        ensures
            result is Ok <==> old(self)@.can_write(
                Request::HistorySetMsgTypeOrdering(ordering).wire_lines(),
            ),
            result is Ok ==> result->Ok_0@ == old(self)@.written(
                Request::HistorySetMsgTypeOrdering(ordering).wire_lines(),
            ),
            result is Ok ==> *final(self) == *final(result->Ok_0),
            result is Err ==> result->Err_0 == ClientError::NotReady,
            result is Err ==> final(self)@ == old(self)@,
    {
        self.send(Request::HistorySetMsgTypeOrdering(ordering))
    }

    /// Searches the history.
    pub fn history_search(
        &mut self,
        scope: ClientScope,
        condition: &str,
    ) -> (result: ClientResult<&mut Self>)
        ensures
            result is Ok <==> old(self)@.can_write(
                seq!["HISTORY SEARCH "@ + scope.token() + " \""@ + condition@ + "\""@],
            ),
            result is Ok ==> result->Ok_0@ == old(self)@.written(
                seq!["HISTORY SEARCH "@ + scope.token() + " \""@ + condition@ + "\""@],
            ),
            result is Ok ==> *final(self) == *final(result->Ok_0),
            result is Err ==> result->Err_0 == ClientError::NotReady,
            result is Err ==> final(self)@ == old(self)@,
    {
        self.send(Request::HistorySearch(scope, condition.to_string()))
    }

    /// Closes the connection.
    pub fn quit(&mut self) -> (result: ClientResult<&mut Self>)
        ensures
            result is Ok <==> old(self)@.can_write(Request::Quit.wire_lines()),
            result is Ok ==> result->Ok_0@ == old(self)@.written(Request::Quit.wire_lines()),
            result is Ok ==> *final(self) == *final(result->Ok_0),
            result is Err ==> result->Err_0 == ClientError::NotReady,
            result is Err ==> final(self)@ == old(self)@,
    {
        self.send(Request::Quit)
    }

    /// Reads the reply at the front of what has arrived. With `keep`, it
    /// may hold a payload.
    fn receive_frame(&mut self, keep: bool) -> (result: ClientResult<(StatusLine, Vec<String>)>)
        ensures
            final(self)@ == old(self)@.read(keep),
            match old(self)@.reply(keep) {
                Frame::Incomplete => result is Err && result->Err_0 == ClientError::NotReady,
                Frame::Complete { outcome: Err(error), .. } => result is Err && result->Err_0@
                    == error,
                Frame::Complete { outcome: Ok(status), lines, .. } => result is Ok
                    && result->Ok_0.0@ == status && views_of(result->Ok_0.1@) == lines,
            },
    {
        let mut lines: Vec<String> = Vec::new();
        assert(views_of(lines@) =~= Seq::<Seq<char>>::empty());
        let answer = if keep {
            receive_answer(&mut self.input, Some(&mut lines))
        } else {
            receive_answer(&mut self.input, None)
        };
        match answer {
            Ok(status) => Ok((status, lines)),
            Err(error) => Err(error),
        }
    }

    /// Receives one response.
    pub fn receive(&mut self) -> (response: ClientResult<Response>)
        ensures
            final(self)@ == old(self)@.read(true),
            result_view(response) == reply_then(
                old(self)@.reply(true),
                |status: StatusLineView, lines: Seq<Seq<char>>| response_of(status, lines),
            ),
    {
        match self.receive_frame(true) {
            Ok((status, lines)) => Response::decode(&status, lines),
            Err(error) => Err(error),
        }
    }

    /// Reads a reply and checks its code. The payload, where there is one,
    /// is dropped.
    pub fn check_status(&mut self, expected_code: ReturnCode) -> (result: ClientResult<&mut Self>)
        ensures
            match reply_then(
                old(self)@.reply(true),
                |status: StatusLineView, lines: Seq<Seq<char>>| expect_code(status, expected_code),
            ) {
                Ok(()) => result is Ok && result->Ok_0@ == old(self)@.read(true)
                    && *final(self) == *final(result->Ok_0),
                Err(error) => result is Err && result->Err_0@ == error
                    && final(self)@ == old(self)@.read(true),
            },
    {
        match self.receive_frame(true) {
            Ok((status, _)) => {
                if status.code == expected_code {
                    Ok(self)
                } else {
                    Err(ClientError::UnexpectedStatus(status.code))
                }
            },
            Err(error) => Err(error),
        }
    }

    /// Receives the payload of a reply, and checks its code.
    pub fn receive_lines(&mut self, expected_code: ReturnCode) -> (lines: ClientResult<
        Vec<String>,
    >)
        ensures
            final(self)@ == old(self)@.read(true),
            list_view(lines) == reply_then(
                old(self)@.reply(true),
                |status: StatusLineView, lines: Seq<Seq<char>>|
                    lines_of(status, lines, expected_code),
            ),
    {
        match self.receive_frame(true) {
            Ok((status, lines)) => {
                if status.code == expected_code {
                    Ok(lines)
                } else {
                    Err(ClientError::UnexpectedStatus(status.code))
                }
            },
            Err(error) => Err(error),
        }
    }

    /// Receives the only line of the payload of a reply, and checks its
    /// code.
    pub fn receive_string(&mut self, expected_code: ReturnCode) -> (text: ClientResult<String>)
        ensures
            final(self)@ == old(self)@.read(true),
            result_view(text) == reply_then(
                old(self)@.reply(true),
                |status: StatusLineView, lines: Seq<Seq<char>>|
                    string_of(status, lines, expected_code),
            ),
    {
        match self.receive_lines(expected_code) {
            Ok(lines) => parse_single_value(lines.as_slice()),
            Err(error) => Err(error),
        }
    }

    /// Receives a signed 8-bit number: the value of rate, pitch or
    /// volume.
    pub fn receive_i8(&mut self) -> (value: ClientResult<i8>)
        ensures
            final(self)@ == old(self)@.read(true),
            match reply_then(
                old(self)@.reply(true),
                |status: StatusLineView, lines: Seq<Seq<char>>| signed_of(status, lines),
            ) {
                Ok(n) => value is Ok && value->Ok_0 == n,
                Err(error) => value is Err && value->Err_0@ == error,
            },
    {
        match self.receive_string(OK_GET) {
            Ok(text) => match parse_i8(text.as_str()) {
                Some(n) => Ok(n),
                None => Err(ClientError::invalid_data("invalid signed integer")),
            },
            Err(error) => Err(error),
        }
    }

    /// Receives an unsigned 8-bit number.
    pub fn receive_u8(&mut self) -> (value: ClientResult<u8>)
        ensures
            final(self)@ == old(self)@.read(true),
            match reply_then(
                old(self)@.reply(true),
                |status: StatusLineView, lines: Seq<Seq<char>>|
                    number_of(
                        status,
                        lines,
                        OK_GET,
                        u8::MAX as nat,
                        "invalid unsigned 8-bit integer"@,
                    ),
            ) {
                Ok(n) => value is Ok && value->Ok_0 == n,
                Err(error) => value is Err && value->Err_0@ == error,
            },
    {
        match self.receive_string(OK_GET) {
            Ok(text) => match parse_u8(text.as_str()) {
                Some(n) => Ok(n),
                None => Err(ClientError::invalid_data("invalid unsigned 8-bit integer")),
            },
            Err(error) => Err(error),
        }
    }

    /// Receives the position of the cursor in the history.
    pub fn receive_cursor_pos(&mut self) -> (value: ClientResult<u16>)
        ensures
            final(self)@ == old(self)@.read(true),
            match reply_then(
                old(self)@.reply(true),
                |status: StatusLineView, lines: Seq<Seq<char>>|
                    number_of(
                        status,
                        lines,
                        OK_CUR_POS_RET,
                        u16::MAX as nat,
                        "invalid unsigned 16-bit integer"@,
                    ),
            ) {
                Ok(n) => value is Ok && value->Ok_0 == n,
                Err(error) => value is Err && value->Err_0@ == error,
            },
    {
        match self.receive_string(OK_CUR_POS_RET) {
            Ok(text) => match parse_u16(text.as_str()) {
                Some(n) => Ok(n),
                None => Err(ClientError::invalid_data("invalid unsigned 16-bit integer")),
            },
            Err(error) => Err(error),
        }
    }

    /// Receives the identifier of a message: of the one that was queued,
    /// or of the last one of the history.
    pub fn receive_message_id(&mut self) -> (id: ClientResult<MessageId>)
        ensures
            final(self)@ == old(self)@.read(true),
            match reply_then(
                old(self)@.reply(true),
                |status: StatusLineView, lines: Seq<Seq<char>>| message_id_of(status, lines),
            ) {
                Ok(n) => id is Ok && id->Ok_0 == n,
                Err(error) => id is Err && id->Err_0@ == error,
            },
    {
        match self.receive_frame(true) {
            Ok((status, lines)) => {
                if status.code == OK_MESSAGE_QUEUED || status.code == OK_LAST_MSG {
                    parse_single_integer(lines.as_slice())
                } else {
                    Err(ClientError::invalid_data("not a message id"))
                }
            },
            Err(error) => Err(error),
        }
    }

    /// Receives the identifier of this client.
    pub fn receive_client_id(&mut self) -> (id: ClientResult<ClientId>)
        ensures
            final(self)@ == old(self)@.read(true),
            match reply_then(
                old(self)@.reply(true),
                |status: StatusLineView, lines: Seq<Seq<char>>|
                    number_of(
                        status,
                        lines,
                        OK_CLIENT_ID_SENT,
                        u32::MAX as nat,
                        "invalid client id"@,
                    ),
            ) {
                Ok(n) => id is Ok && id->Ok_0 == n,
                Err(error) => id is Err && id->Err_0@ == error,
            },
    {
        match self.receive_string(OK_CLIENT_ID_SENT) {
            Ok(text) => match parse_u32(text.as_str()) {
                Some(n) => Ok(n),
                None => Err(ClientError::invalid_data("invalid client id")),
            },
            Err(error) => Err(error),
        }
    }

    /// Receives a list of voices of the synthesizer.
    pub fn receive_synthesis_voices(&mut self) -> (voices: ClientResult<Vec<SynthesisVoice>>)
        ensures
            final(self)@ == old(self)@.read(true),
            list_view(voices) == reply_then(
                old(self)@.reply(true),
                |status: StatusLineView, lines: Seq<Seq<char>>| voices_of(status, lines),
            ),
    {
        match self.receive_lines(OK_VOICES_LIST_SENT) {
            Ok(lines) => parse_typed_lines::<SynthesisVoice>(lines.as_slice()),
            Err(error) => Err(error),
        }
    }

    /// Receives a notification event.
    pub fn receive_event(&mut self) -> (event: ClientResult<Event>)
        ensures
            final(self)@ == old(self)@.read(true),
            result_view(event) == reply_then(
                old(self)@.reply(true),
                |status: StatusLineView, lines: Seq<Seq<char>>| event_of_reply(status, lines),
            ),
    {
        match self.receive_frame(true) {
            Ok((status, lines)) => read_event(status.code, &lines),
            Err(error) => Err(error),
        }
    }

    /// Receives the list of the clients of the history.
    pub fn receive_history_clients(&mut self) -> (clients: ClientResult<Vec<HistoryClientStatus>>)
        ensures
            final(self)@ == old(self)@.read(true),
            list_view(clients) == reply_then(
                old(self)@.reply(true),
                |status: StatusLineView, lines: Seq<Seq<char>>| clients_of(status, lines),
            ),
    {
        match self.receive_lines(OK_CLIENTS_LIST_SENT) {
            Ok(lines) => parse_typed_lines::<HistoryClientStatus>(lines.as_slice()),
            Err(error) => Err(error),
        }
    }

    /// Checks that the server has taken the name of the client.
    pub fn check_client_name_set(&mut self) -> (result: ClientResult<&mut Self>)
        ensures
            match reply_then(
                old(self)@.reply(true),
                |status: StatusLineView, lines: Seq<Seq<char>>|
                    expect_code(status, OK_CLIENT_NAME_SET),
            ) {
                Ok(()) => result is Ok && result->Ok_0@ == old(self)@.read(true)
                    && *final(self) == *final(result->Ok_0),
                Err(error) => result is Err && result->Err_0@ == error
                    && final(self)@ == old(self)@.read(true),
            },
    {
        self.check_status(OK_CLIENT_NAME_SET)
    }

    /// Checks that the server waits for the text of a message.
    pub fn check_receiving_data(&mut self) -> (result: ClientResult<&mut Self>)
        ensures
            match reply_then(
                old(self)@.reply(true),
                |status: StatusLineView, lines: Seq<Seq<char>>|
                    expect_code(status, OK_RECEIVING_DATA),
            ) {
                Ok(()) => result is Ok && result->Ok_0@ == old(self)@.read(true)
                    && *final(self) == *final(result->Ok_0),
                Err(error) => result is Err && result->Err_0@ == error
                    && final(self)@ == old(self)@.read(true),
            },
    {
        self.check_status(OK_RECEIVING_DATA)
    }
}

/// Reads the payload of the event that `code` announces.
pub fn read_event(code: ReturnCode, lines: &Vec<String>) -> (event: ClientResult<Event>)
    ensures
        result_view(event) == event_of_reply(
            StatusLineView { code, message: Seq::empty() },
            views_of(lines@),
        ),
{
    let expected: usize = match code {
        EVENT_INDEX_MARK => 3,
        EVENT_BEGIN | EVENT_END | EVENT_CANCELED | EVENT_PAUSED | EVENT_RESUMED => 2,
        _ => {
            return Err(ClientError::invalid_data("wrong status code for event"));
        },
    };
    if lines.len() < expected {
        return Err(ClientError::unexpected_eof("event truncated"));
    }
    if lines.len() > expected {
        return Err(ClientError::TooManyLines);
    }
    let message = lines[0].as_str();
    let client = lines[1].as_str();
    match code {
        EVENT_INDEX_MARK => Ok(Event::index_mark(lines[2].clone(), message, client)),
        EVENT_BEGIN => Ok(Event::begin(message, client)),
        EVENT_END => Ok(Event::end(message, client)),
        EVENT_CANCELED => Ok(Event::cancel(message, client)),
        EVENT_PAUSED => Ok(Event::pause(message, client)),
        _ => Ok(Event::resume(message, client)),
    }
}

} // verus!
