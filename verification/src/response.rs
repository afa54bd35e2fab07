//! Responses, and how a reply is read as one.

use crate::constants::{
    ReturnCode, EVENT_BEGIN, EVENT_CANCELED, EVENT_END, EVENT_INDEX_MARK, EVENT_PAUSED,
    EVENT_RESUMED, OK_BYE, OK_CANCELED, OK_CAP_LET_RECOGN_SET, OK_CLIENTS_LIST_SENT,
    OK_CLIENT_ID_SENT, OK_CLIENT_NAME_SET, OK_CUR_MOV_BACK, OK_CUR_MOV_FOR, OK_CUR_POS_RET,
    OK_CUR_SET_LAST, OK_CUR_SET_POS, OK_DEBUG_SET, OK_GET, OK_HELP_SENT, OK_INSIDE_BLOCK,
    OK_LANGUAGE_SET, OK_LAST_MSG, OK_MESSAGE_QUEUED, OK_MSGS_LIST_SENT, OK_MSG_CANCELED,
    OK_MSG_TEXT_SENT, OK_NOTIFICATION_SET, OK_NOT_IMPLEMENTED, OK_OUTPUT_MODULES_LIST_SENT,
    OK_OUTPUT_MODULE_SET, OK_OUTSIDE_BLOCK, OK_PAUSED, OK_PAUSE_CONTEXT_SET, OK_PITCH_RANGE_SET,
    OK_PITCH_SET, OK_PRIORITY_SET, OK_PUNCTUATION_SET, OK_RATE_SET, OK_RECEIVING_DATA,
    OK_RESUMED, OK_SND_ICON_QUEUED, OK_SPELLING_SET, OK_SSML_MODE_SET, OK_STOPPED,
    OK_TABLE_LIST_SENT, OK_TABLE_SET, OK_VOICES_LIST_SENT, OK_VOICE_SET, OK_VOLUME_SET,
};
use crate::error::{protocol_failure, ClientError, ClientErrorView, ClientResult};
use crate::protocol::{
    event_id_of, parse_event_id, parse_single_integer, parse_single_value, parse_typed_lines,
    single_integer, single_value, typed_lines,
};
use crate::text::{same_text, views_of};
use crate::types::{
    result_view, ClientId, EventId, EventIdView, HistoryClientStatus, HistoryClientStatusView,
    MessageId, StatusLine, StatusLineView, SynthesisVoice, SynthesisVoiceView,
};
use vstd::prelude::*;

verus! {

/// A response of the server.
#[derive(Debug, Clone, PartialEq, Eq, Hash)]
pub enum Response {
    /// The language was set.
    LanguageSet,
    /// The priority was set.
    PrioritySet,
    /// The rate was set.
    RateSet,
    /// The pitch was set.
    PitchSet,
    /// The punctuation mode was set.
    PunctuationSet,
    /// The recognition of capital letters was set.
    CapLetRecognSet,
    /// Spelling was set.
    SpellingSet,
    /// The client name was set.
    ClientNameSet,
    /// The voice was set.
    VoiceSet,
    /// The message was stopped.
    Stopped,
    /// The message was paused.
    Paused,
    /// The message was resumed.
    Resumed,
    /// The message was canceled.
    Canceled,
    /// The table was set.
    TableSet,
    /// The output module was set.
    OutputModuleSet,
    /// The pause context was set.
    PauseContextSet,
    /// The volume was set.
    VolumeSet,
    /// The reading of markup was set.
    SsmlModeSet,
    /// The notification of events was set.
    NotificationSet,
    /// The range of the pitch was set.
    PitchRangeSet,
    /// Debugging was set.
    DebugSet,
    /// The cursor stands on the first message.
    HistoryCurSetFirst,
    /// The cursor stands on the last message.
    HistoryCurSetLast,
    /// The cursor stands on the chosen message.
    HistoryCurSetPos,
    /// The cursor moved forward.
    HistoryCurMoveFor,
    /// The cursor moved backward.
    HistoryCurMoveBack,
    /// The message was queued: its identifier.
    MessageQueued(MessageId),
    /// The sound icon was queued.
    SoundIconQueued,
    /// The message was canceled before it was spoken.
    MessageCanceled,
    /// The server waits for the text of a message.
    ReceivingData,
    /// The server closes the connection.
    Bye,
    /// The clients of the history.
    HistoryClientListSent(Vec<HistoryClientStatus>),
    /// Messages of the history.
    HistoryMsgsListSent(Vec<String>),
    /// The last message of the history.
    HistoryLastMsg(String),
    /// The message on which the cursor stands.
    HistoryCurPosRet(String),
    /// The tables that exist.
    TableListSent(Vec<String>),
    /// The identifier of this client.
    HistoryClientIdSent(ClientId),
    /// The text of a message was sent.
    MessageTextSent,
    /// The lines of the help.
    HelpSent(Vec<String>),
    /// The voices that exist.
    VoicesListSent(Vec<SynthesisVoice>),
    /// The output modules that exist.
    OutputModulesListSent(Vec<String>),
    /// The value of a parameter.
    Get(String),
    /// A block was opened.
    InsideBlock,
    /// The block was closed.
    OutsideBlock,
    /// The command is accepted and does nothing.
    NotImplemented,
    /// An index mark was reached: the message and the mark.
    EventIndexMark(EventId, String),
    /// The server began to speak a message.
    EventBegin(EventId),
    /// The server spoke a message to its end.
    EventEnd(EventId),
    /// A message was canceled.
    EventCanceled(EventId),
    /// A message was paused.
    EventPaused(EventId),
    /// A message was resumed.
    EventResumed(EventId),
}

/// Mathematical value of a [`Response`].
pub enum ResponseView {
    LanguageSet,
    PrioritySet,
    RateSet,
    PitchSet,
    PunctuationSet,
    CapLetRecognSet,
    SpellingSet,
    ClientNameSet,
    VoiceSet,
    Stopped,
    Paused,
    Resumed,
    Canceled,
    TableSet,
    OutputModuleSet,
    PauseContextSet,
    VolumeSet,
    SsmlModeSet,
    NotificationSet,
    PitchRangeSet,
    DebugSet,
    HistoryCurSetFirst,
    HistoryCurSetLast,
    HistoryCurSetPos,
    HistoryCurMoveFor,
    HistoryCurMoveBack,
    MessageQueued(MessageId),
    SoundIconQueued,
    MessageCanceled,
    ReceivingData,
    Bye,
    HistoryClientListSent(Seq<HistoryClientStatusView>),
    HistoryMsgsListSent(Seq<Seq<char>>),
    HistoryLastMsg(Seq<char>),
    HistoryCurPosRet(Seq<char>),
    TableListSent(Seq<Seq<char>>),
    HistoryClientIdSent(ClientId),
    MessageTextSent,
    HelpSent(Seq<Seq<char>>),
    VoicesListSent(Seq<SynthesisVoiceView>),
    OutputModulesListSent(Seq<Seq<char>>),
    Get(Seq<char>),
    InsideBlock,
    OutsideBlock,
    NotImplemented,
    EventIndexMark(EventIdView, Seq<char>),
    EventBegin(EventIdView),
    EventEnd(EventIdView),
    EventCanceled(EventIdView),
    EventPaused(EventIdView),
    EventResumed(EventIdView),
}

impl View for Response {
    type V = ResponseView;

    open spec fn view(&self) -> ResponseView {
        match self {
            Response::LanguageSet => ResponseView::LanguageSet,
            Response::PrioritySet => ResponseView::PrioritySet,
            Response::RateSet => ResponseView::RateSet,
            Response::PitchSet => ResponseView::PitchSet,
            Response::PunctuationSet => ResponseView::PunctuationSet,
            Response::CapLetRecognSet => ResponseView::CapLetRecognSet,
            Response::SpellingSet => ResponseView::SpellingSet,
            Response::ClientNameSet => ResponseView::ClientNameSet,
            Response::VoiceSet => ResponseView::VoiceSet,
            Response::Stopped => ResponseView::Stopped,
            Response::Paused => ResponseView::Paused,
            Response::Resumed => ResponseView::Resumed,
            Response::Canceled => ResponseView::Canceled,
            Response::TableSet => ResponseView::TableSet,
            Response::OutputModuleSet => ResponseView::OutputModuleSet,
            Response::PauseContextSet => ResponseView::PauseContextSet,
            Response::VolumeSet => ResponseView::VolumeSet,
            Response::SsmlModeSet => ResponseView::SsmlModeSet,
            Response::NotificationSet => ResponseView::NotificationSet,
            Response::PitchRangeSet => ResponseView::PitchRangeSet,
            Response::DebugSet => ResponseView::DebugSet,
            Response::HistoryCurSetFirst => ResponseView::HistoryCurSetFirst,
            Response::HistoryCurSetLast => ResponseView::HistoryCurSetLast,
            Response::HistoryCurSetPos => ResponseView::HistoryCurSetPos,
            Response::HistoryCurMoveFor => ResponseView::HistoryCurMoveFor,
            Response::HistoryCurMoveBack => ResponseView::HistoryCurMoveBack,
            Response::MessageQueued(a) => ResponseView::MessageQueued(*a),
            Response::SoundIconQueued => ResponseView::SoundIconQueued,
            Response::MessageCanceled => ResponseView::MessageCanceled,
            Response::ReceivingData => ResponseView::ReceivingData,
            Response::Bye => ResponseView::Bye,
            Response::HistoryClientListSent(a) => ResponseView::HistoryClientListSent(views_of(a@)),
            Response::HistoryMsgsListSent(a) => ResponseView::HistoryMsgsListSent(views_of(a@)),
            Response::HistoryLastMsg(a) => ResponseView::HistoryLastMsg(a@),
            Response::HistoryCurPosRet(a) => ResponseView::HistoryCurPosRet(a@),
            Response::TableListSent(a) => ResponseView::TableListSent(views_of(a@)),
            Response::HistoryClientIdSent(a) => ResponseView::HistoryClientIdSent(*a),
            Response::MessageTextSent => ResponseView::MessageTextSent,
            Response::HelpSent(a) => ResponseView::HelpSent(views_of(a@)),
            Response::VoicesListSent(a) => ResponseView::VoicesListSent(views_of(a@)),
            Response::OutputModulesListSent(a) => ResponseView::OutputModulesListSent(views_of(a@)),
            Response::Get(a) => ResponseView::Get(a@),
            Response::InsideBlock => ResponseView::InsideBlock,
            Response::OutsideBlock => ResponseView::OutsideBlock,
            Response::NotImplemented => ResponseView::NotImplemented,
            Response::EventIndexMark(a, b) => ResponseView::EventIndexMark(a@, b@),
            Response::EventBegin(a) => ResponseView::EventBegin(a@),
            Response::EventEnd(a) => ResponseView::EventEnd(a@),
            Response::EventCanceled(a) => ResponseView::EventCanceled(a@),
            Response::EventPaused(a) => ResponseView::EventPaused(a@),
            Response::EventResumed(a) => ResponseView::EventResumed(a@),
        }
    }
}

/// The message that tells the cursor of the history apart from the
/// notification of events, which share the code 220: as the server sends
/// it, or less its leading `OK `.
pub open spec fn is_cursor_set_first(message: Seq<char>) -> bool {
    message == "OK CURSOR SET FIRST"@ || message == "CURSOR SET FIRST"@
}

/// Whether a reply with `code` holds nothing but its status line.
pub open spec fn is_plain_code(code: ReturnCode) -> bool {
    code == OK_LANGUAGE_SET
        || code == OK_PRIORITY_SET
        || code == OK_RATE_SET
        || code == OK_PITCH_SET
        || code == OK_PUNCTUATION_SET
        || code == OK_CAP_LET_RECOGN_SET
        || code == OK_SPELLING_SET
        || code == OK_CLIENT_NAME_SET
        || code == OK_VOICE_SET
        || code == OK_STOPPED
        || code == OK_PAUSED
        || code == OK_RESUMED
        || code == OK_CANCELED
        || code == OK_TABLE_SET
        || code == OK_OUTPUT_MODULE_SET
        || code == OK_PAUSE_CONTEXT_SET
        || code == OK_VOLUME_SET
        || code == OK_SSML_MODE_SET
        || code == OK_PITCH_RANGE_SET
        || code == OK_DEBUG_SET
        || code == OK_CUR_SET_LAST
        || code == OK_CUR_SET_POS
        || code == OK_CUR_MOV_FOR
        || code == OK_CUR_MOV_BACK
        || code == OK_SND_ICON_QUEUED
        || code == OK_MSG_CANCELED
        || code == OK_RECEIVING_DATA
        || code == OK_BYE
        || code == OK_MSG_TEXT_SENT
        || code == OK_INSIDE_BLOCK
        || code == OK_OUTSIDE_BLOCK
        || code == OK_NOT_IMPLEMENTED
        || code == OK_NOTIFICATION_SET
}

/// The response that a reply with nothing but its status line stands
/// for.
pub open spec fn plain_response(code: ReturnCode, message: Seq<char>) -> ResponseView
    recommends
        is_plain_code(code),
{
    if code == OK_LANGUAGE_SET {
        ResponseView::LanguageSet
    } else if code == OK_PRIORITY_SET {
        ResponseView::PrioritySet
    } else if code == OK_RATE_SET {
        ResponseView::RateSet
    } else if code == OK_PITCH_SET {
        ResponseView::PitchSet
    } else if code == OK_PUNCTUATION_SET {
        ResponseView::PunctuationSet
    } else if code == OK_CAP_LET_RECOGN_SET {
        ResponseView::CapLetRecognSet
    } else if code == OK_SPELLING_SET {
        ResponseView::SpellingSet
    } else if code == OK_CLIENT_NAME_SET {
        ResponseView::ClientNameSet
    } else if code == OK_VOICE_SET {
        ResponseView::VoiceSet
    } else if code == OK_STOPPED {
        ResponseView::Stopped
    } else if code == OK_PAUSED {
        ResponseView::Paused
    } else if code == OK_RESUMED {
        ResponseView::Resumed
    } else if code == OK_CANCELED {
        ResponseView::Canceled
    } else if code == OK_TABLE_SET {
        ResponseView::TableSet
    } else if code == OK_OUTPUT_MODULE_SET {
        ResponseView::OutputModuleSet
    } else if code == OK_PAUSE_CONTEXT_SET {
        ResponseView::PauseContextSet
    } else if code == OK_VOLUME_SET {
        ResponseView::VolumeSet
    } else if code == OK_SSML_MODE_SET {
        ResponseView::SsmlModeSet
    } else if code == OK_PITCH_RANGE_SET {
        ResponseView::PitchRangeSet
    } else if code == OK_DEBUG_SET {
        ResponseView::DebugSet
    } else if code == OK_CUR_SET_LAST {
        ResponseView::HistoryCurSetLast
    } else if code == OK_CUR_SET_POS {
        ResponseView::HistoryCurSetPos
    } else if code == OK_CUR_MOV_FOR {
        ResponseView::HistoryCurMoveFor
    } else if code == OK_CUR_MOV_BACK {
        ResponseView::HistoryCurMoveBack
    } else if code == OK_SND_ICON_QUEUED {
        ResponseView::SoundIconQueued
    } else if code == OK_MSG_CANCELED {
        ResponseView::MessageCanceled
    } else if code == OK_RECEIVING_DATA {
        ResponseView::ReceivingData
    } else if code == OK_BYE {
        ResponseView::Bye
    } else if code == OK_MSG_TEXT_SENT {
        ResponseView::MessageTextSent
    } else if code == OK_INSIDE_BLOCK {
        ResponseView::InsideBlock
    } else if code == OK_OUTSIDE_BLOCK {
        ResponseView::OutsideBlock
    } else if code == OK_NOT_IMPLEMENTED {
        ResponseView::NotImplemented
    } else if is_cursor_set_first(message) {
        ResponseView::HistoryCurSetFirst
    } else {
        ResponseView::NotificationSet
    }
}

/// The response whose payload is a list of values of one kind.
pub open spec fn wrap<T, U>(
    values: Result<T, ClientErrorView>,
    make: spec_fn(T) -> U,
) -> Result<U, ClientErrorView> {
    match values {
        Ok(value) => Ok(make(value)),
        Err(error) => Err(error),
    }
}

/// The mark of an index mark event: the third of three lines.
pub open spec fn index_mark_of(lines: Seq<Seq<char>>) -> Result<ResponseView, ClientErrorView> {
    if lines.len() < 3 {
        Err(ClientErrorView::TooFewLines)
    } else if lines.len() == 3 {
        Ok(
            ResponseView::EventIndexMark(
                EventIdView { message: lines[0], client: lines[1] },
                lines[2],
            ),
        )
    } else {
        Err(ClientErrorView::TooManyLines)
    }
}

/// The response that a reply stands for: its status line and the lines of
/// its payload.
pub open spec fn response_of(status: StatusLineView, lines: Seq<Seq<char>>) -> Result<
    ResponseView,
    ClientErrorView,
> {
    let code = status.code;
    if is_plain_code(code) {
        Ok(plain_response(code, status.message))
    } else if code == OK_MESSAGE_QUEUED {
        wrap(single_integer(lines), |id: u32| ResponseView::MessageQueued(id))
    } else if code == OK_CLIENTS_LIST_SENT {
        wrap(
            typed_lines::<HistoryClientStatus>(lines),
            |clients: Seq<HistoryClientStatusView>| ResponseView::HistoryClientListSent(clients),
        )
    } else if code == OK_MSGS_LIST_SENT {
        Ok(ResponseView::HistoryMsgsListSent(lines))
    } else if code == OK_LAST_MSG {
        wrap(single_value(lines), |text: Seq<char>| ResponseView::HistoryLastMsg(text))
    } else if code == OK_CUR_POS_RET {
        wrap(single_value(lines), |text: Seq<char>| ResponseView::HistoryCurPosRet(text))
    } else if code == OK_TABLE_LIST_SENT {
        Ok(ResponseView::TableListSent(lines))
    } else if code == OK_CLIENT_ID_SENT {
        wrap(single_integer(lines), |id: u32| ResponseView::HistoryClientIdSent(id))
    } else if code == OK_HELP_SENT {
        Ok(ResponseView::HelpSent(lines))
    } else if code == OK_VOICES_LIST_SENT {
        wrap(
            typed_lines::<SynthesisVoice>(lines),
            |voices: Seq<SynthesisVoiceView>| ResponseView::VoicesListSent(voices),
        )
    } else if code == OK_OUTPUT_MODULES_LIST_SENT {
        Ok(ResponseView::OutputModulesListSent(lines))
    } else if code == OK_GET {
        wrap(single_value(lines), |text: Seq<char>| ResponseView::Get(text))
    } else if code == EVENT_INDEX_MARK {
        index_mark_of(lines)
    } else if code == EVENT_BEGIN {
        wrap(event_id_of(lines), |id: EventIdView| ResponseView::EventBegin(id))
    } else if code == EVENT_END {
        wrap(event_id_of(lines), |id: EventIdView| ResponseView::EventEnd(id))
    } else if code == EVENT_CANCELED {
        wrap(event_id_of(lines), |id: EventIdView| ResponseView::EventCanceled(id))
    } else if code == EVENT_PAUSED {
        wrap(event_id_of(lines), |id: EventIdView| ResponseView::EventPaused(id))
    } else if code == EVENT_RESUMED {
        wrap(event_id_of(lines), |id: EventIdView| ResponseView::EventResumed(id))
    } else {
        Err(protocol_failure("unknown return code"@))
    }
}

/// Reads a reply with nothing but its status line.
fn decode_plain(code: ReturnCode, message: &str) -> (response: Option<Response>)
    ensures
        is_plain_code(code) ==> response is Some && response->Some_0@ == plain_response(
            code,
            message@,
        ),
        !is_plain_code(code) ==> response is None,
{
    match code {
        OK_LANGUAGE_SET => Some(Response::LanguageSet),
        OK_PRIORITY_SET => Some(Response::PrioritySet),
        OK_RATE_SET => Some(Response::RateSet),
        OK_PITCH_SET => Some(Response::PitchSet),
        OK_PUNCTUATION_SET => Some(Response::PunctuationSet),
        OK_CAP_LET_RECOGN_SET => Some(Response::CapLetRecognSet),
        OK_SPELLING_SET => Some(Response::SpellingSet),
        OK_CLIENT_NAME_SET => Some(Response::ClientNameSet),
        OK_VOICE_SET => Some(Response::VoiceSet),
        OK_STOPPED => Some(Response::Stopped),
        OK_PAUSED => Some(Response::Paused),
        OK_RESUMED => Some(Response::Resumed),
        OK_CANCELED => Some(Response::Canceled),
        OK_TABLE_SET => Some(Response::TableSet),
        OK_OUTPUT_MODULE_SET => Some(Response::OutputModuleSet),
        OK_PAUSE_CONTEXT_SET => Some(Response::PauseContextSet),
        OK_VOLUME_SET => Some(Response::VolumeSet),
        OK_SSML_MODE_SET => Some(Response::SsmlModeSet),
        OK_PITCH_RANGE_SET => Some(Response::PitchRangeSet),
        OK_DEBUG_SET => Some(Response::DebugSet),
        OK_CUR_SET_LAST => Some(Response::HistoryCurSetLast),
        OK_CUR_SET_POS => Some(Response::HistoryCurSetPos),
        OK_CUR_MOV_FOR => Some(Response::HistoryCurMoveFor),
        OK_CUR_MOV_BACK => Some(Response::HistoryCurMoveBack),
        OK_SND_ICON_QUEUED => Some(Response::SoundIconQueued),
        OK_MSG_CANCELED => Some(Response::MessageCanceled),
        OK_RECEIVING_DATA => Some(Response::ReceivingData),
        OK_BYE => Some(Response::Bye),
        OK_MSG_TEXT_SENT => Some(Response::MessageTextSent),
        OK_INSIDE_BLOCK => Some(Response::InsideBlock),
        OK_OUTSIDE_BLOCK => Some(Response::OutsideBlock),
        OK_NOT_IMPLEMENTED => Some(Response::NotImplemented),
        OK_NOTIFICATION_SET => {
            if same_text(message, "OK CURSOR SET FIRST") || same_text(message, "CURSOR SET FIRST") {
                Some(Response::HistoryCurSetFirst)
            } else {
                Some(Response::NotificationSet)
            }
        },
        _ => None,
    }
}

/// Reads the payload of an index mark event.
fn decode_index_mark(lines: &Vec<String>) -> (response: ClientResult<Response>)
    ensures
        result_view(response) == index_mark_of(views_of(lines@)),
{
    if lines.len() < 3 {
        Err(ClientError::TooFewLines)
    } else if lines.len() == 3 {
        Ok(
            Response::EventIndexMark(
                EventId::new(lines[0].as_str(), lines[1].as_str()),
                lines[2].clone(),
            ),
        )
    } else {
        Err(ClientError::TooManyLines)
    }
}

impl Response {
    /// Reads a reply as a response: `status` is its status line and
    /// `lines` are the lines of its payload.
    pub fn decode(status: &StatusLine, lines: Vec<String>) -> (response: ClientResult<Response>)
        ensures
            result_view(response) == response_of(status@, views_of(lines@)),
    {
        let code = status.code;
        match decode_plain(code, status.message.as_str()) {
            Some(response) => {
                return Ok(response);
            },
            None => {},
        }
        match code {
            OK_MESSAGE_QUEUED => match parse_single_integer(lines.as_slice()) {
                Ok(id) => Ok(Response::MessageQueued(id)),
                Err(error) => Err(error),
            },
            OK_CLIENTS_LIST_SENT => match parse_typed_lines::<HistoryClientStatus>(
                lines.as_slice(),
            ) {
                Ok(clients) => Ok(Response::HistoryClientListSent(clients)),
                Err(error) => Err(error),
            },
            OK_MSGS_LIST_SENT => Ok(Response::HistoryMsgsListSent(lines)),
            OK_LAST_MSG => match parse_single_value(lines.as_slice()) {
                Ok(text) => Ok(Response::HistoryLastMsg(text)),
                Err(error) => Err(error),
            },
            OK_CUR_POS_RET => match parse_single_value(lines.as_slice()) {
                Ok(text) => Ok(Response::HistoryCurPosRet(text)),
                Err(error) => Err(error),
            },
            OK_TABLE_LIST_SENT => Ok(Response::TableListSent(lines)),
            OK_CLIENT_ID_SENT => match parse_single_integer(lines.as_slice()) {
                Ok(id) => Ok(Response::HistoryClientIdSent(id)),
                Err(error) => Err(error),
            },
            OK_HELP_SENT => Ok(Response::HelpSent(lines)),
            OK_VOICES_LIST_SENT => match parse_typed_lines::<SynthesisVoice>(lines.as_slice()) {
                Ok(voices) => Ok(Response::VoicesListSent(voices)),
                Err(error) => Err(error),
            },
            OK_OUTPUT_MODULES_LIST_SENT => Ok(Response::OutputModulesListSent(lines)),
            OK_GET => match parse_single_value(lines.as_slice()) {
                Ok(text) => Ok(Response::Get(text)),
                Err(error) => Err(error),
            },
            EVENT_INDEX_MARK => decode_index_mark(&lines),
            EVENT_BEGIN => match parse_event_id(lines.as_slice()) {
                Ok(id) => Ok(Response::EventBegin(id)),
                Err(error) => Err(error),
            },
            EVENT_END => match parse_event_id(lines.as_slice()) {
                Ok(id) => Ok(Response::EventEnd(id)),
                Err(error) => Err(error),
            },
            EVENT_CANCELED => match parse_event_id(lines.as_slice()) {
                Ok(id) => Ok(Response::EventCanceled(id)),
                Err(error) => Err(error),
            },
            EVENT_PAUSED => match parse_event_id(lines.as_slice()) {
                Ok(id) => Ok(Response::EventPaused(id)),
                Err(error) => Err(error),
            },
            EVENT_RESUMED => match parse_event_id(lines.as_slice()) {
                Ok(id) => Ok(Response::EventResumed(id)),
                Err(error) => Err(error),
            },
            _ => Err(ClientError::invalid_input("unknown return code")),
        }
    }
}

} // verus!
