//! Requests, and the command lines that carry them.

use crate::text::{
    decimal, decimal_string, lemma_views_push, signed_decimal, signed_decimal_string, views_of,
};
use crate::types::{
    CapitalLettersRecognitionMode, ClientName, ClientScope, CursorDirection, HistoryPosition,
    KeyName, MessageId, MessageOrdering, MessageScope, NotificationType, Priority,
    PunctuationMode, SortDirection, SortKey,
};
use vstd::prelude::*;
use vstd::string::*;

verus! {

/// Lowest value of rate, pitch and volume.
pub const RANGE_MIN: i8 = -100;

/// Highest value of rate, pitch and volume.
pub const RANGE_MAX: i8 = 100;

/// The line that ends the text of a message.
pub const END_OF_DATA: &'static str = ".";

/// The token of a switch: `on` or `off`.
pub open spec fn on_off_token(value: bool) -> Seq<char> {
    if value {
        "on"@
    } else {
        "off"@
    }
}

/// The value of `[-100, 100]` nearest to `value`.
pub open spec fn clamp_range(value: i8) -> int {
    if value < RANGE_MIN {
        RANGE_MIN as int
    } else if value > RANGE_MAX {
        RANGE_MAX as int
    } else {
        value as int
    }
}

/// The command `SET scope parameter value`.
pub open spec fn set_command(scope: Seq<char>, parameter: Seq<char>, value: Seq<char>) -> Seq<
    char,
> {
    "SET "@ + scope + " "@ + parameter + " "@ + value
}

/// The command made of `verb` and one argument.
pub open spec fn verb_command(verb: Seq<char>, argument: Seq<char>) -> Seq<char> {
    verb + " "@ + argument
}

/// The words of `words` in one line, with a space between each two.
pub open spec fn join_words(words: Seq<Seq<char>>) -> Seq<char>
    decreases words.len(),
{
    if words.len() == 0 {
        Seq::empty()
    } else if words.len() == 1 {
        words[0]
    } else {
        join_words(words.drop_last()) + " "@ + words.last()
    }
}

/// The tokens of a ranking of message types.
pub open spec fn ordering_tokens(ordering: Seq<MessageOrdering>) -> Seq<Seq<char>> {
    Seq::new(ordering.len(), |i: int| ordering[i].token())
}

/// A request to the server.
#[derive(Debug, Clone, PartialEq, Eq, Hash)]
pub enum Request {
    /// Registers the client under a name.
    SetName(ClientName),
    /// Announces the text of a message.
    Speak,
    /// The text of a message, in one line.
    SendLine(String),
    /// The text of a message, in several lines.
    SendLines(Vec<String>),
    /// Speaks one character.
    SpeakChar(char),
    /// Speaks the name of a key.
    SpeakKey(KeyName),
    /// Stops the message that is spoken.
    Stop(MessageScope),
    /// Stops and drops the queued messages.
    Cancel(MessageScope),
    /// Pauses the messages.
    Pause(MessageScope),
    /// Resumes the paused messages.
    Resume(MessageScope),
    /// Sets the priority of the next messages.
    SetPriority(Priority),
    /// Turns the debugging output of the server on or off.
    SetDebug(bool),
    /// Chooses the output module.
    SetOutputModule(ClientScope, String),
    /// Asks for the output module.
    GetOutputModule,
    /// Asks for the output modules that exist.
    ListOutputModules,
    /// Chooses the language.
    SetLanguage(ClientScope, String),
    /// Asks for the language.
    GetLanguage,
    /// Turns the reading of markup on or off.
    SetSsmlMode(bool),
    /// Chooses which punctuation is spoken.
    SetPunctuationMode(ClientScope, PunctuationMode),
    /// Turns spelling on or off.
    SetSpelling(ClientScope, bool),
    /// Chooses how capital letters are signalled.
    SetCapitalLettersRecognitionMode(ClientScope, CapitalLettersRecognitionMode),
    /// Chooses one of the symbolic voices.
    SetVoiceType(ClientScope, String),
    /// Asks for the symbolic voice.
    GetVoiceType,
    /// Asks for the symbolic voices that exist.
    ListVoiceTypes,
    /// Chooses a voice of the synthesizer.
    SetSynthesisVoice(ClientScope, String),
    /// Asks for the voices of the synthesizer.
    ListSynthesisVoices,
    /// Sets the rate of speech, kept within `[-100, 100]`.
    SetRate(ClientScope, i8),
    /// Asks for the rate of speech.
    GetRate,
    /// Sets the pitch of speech, kept within `[-100, 100]`.
    SetPitch(ClientScope, i8),
    /// Asks for the pitch of speech.
    GetPitch,
    /// Sets the volume of speech, kept within `[-100, 100]`.
    SetVolume(ClientScope, i8),
    /// Asks for the volume of speech.
    GetVolume,
    /// Sets how many sentences are repeated when a paused text is resumed.
    SetPauseContext(ClientScope, u32),
    /// Turns the notification of a kind of event on or off.
    SetNotification(NotificationType, bool),
    /// Opens a block of messages.
    Begin,
    /// Closes the block of messages.
    End,
    /// Turns the recording of messages on or off.
    SetHistory(ClientScope, bool),
    /// Asks for the clients of the history.
    HistoryGetClients,
    /// Asks for the identifier of this client.
    HistoryGetClientId,
    /// Asks for `number` messages of a client, from the message `start` on.
    HistoryGetClientMsgs(ClientScope, u32, u32),
    /// Asks for the identifier of the last message.
    HistoryGetLastMsgId,
    /// Asks for the text of a message.
    HistoryGetMsg(MessageId),
    /// Asks where the cursor stands.
    HistoryCursorGet,
    /// Moves the cursor to a position.
    HistoryCursorSet(ClientScope, HistoryPosition),
    /// Moves the cursor by one message.
    HistoryCursorMove(CursorDirection),
    /// Speaks a message of the history.
    HistorySpeak(MessageId),
    /// Sorts the history.
    HistorySort(SortDirection, SortKey),
    /// Sets the length of the short form of a message.
    HistorySetShortMsgLength(u32),
    /// Ranks the types of message, from the lowest to the highest.
    HistorySetMsgTypeOrdering(Vec<MessageOrdering>),
    /// Searches the history.
    HistorySearch(ClientScope, String),
    /// Closes the connection.
    Quit,
}

impl Request {
    /// The command line of this request. The text of a message is no
    /// command: see [`Request::wire_lines`].
    pub open spec fn command(self) -> Seq<char> {
        match self {
            Request::SetName(name) => set_command("self"@, "CLIENT_NAME"@, name@.token()),
            Request::Speak => "SPEAK"@,
            Request::SendLine(_) => Seq::empty(),
            Request::SendLines(_) => Seq::empty(),
            Request::SpeakChar(ch) => verb_command("CHAR"@, seq![ch]),
            Request::SpeakKey(key) => verb_command("KEY"@, key.token()),
            Request::Stop(scope) => verb_command("STOP"@, scope.token()),
            Request::Cancel(scope) => verb_command("CANCEL"@, scope.token()),
            Request::Pause(scope) => verb_command("PAUSE"@, scope.token()),
            Request::Resume(scope) => verb_command("RESUME"@, scope.token()),
            Request::SetPriority(priority) => set_command("self"@, "PRIORITY"@, priority.token()),
            Request::SetDebug(value) => set_command("all"@, "DEBUG"@, on_off_token(value)),
            Request::SetOutputModule(scope, value) => {
                set_command(scope.token(), "OUTPUT_MODULE"@, value@)
            },
            Request::GetOutputModule => "GET OUTPUT_MODULE"@,
            Request::ListOutputModules => "LIST OUTPUT_MODULES"@,
            Request::SetLanguage(scope, value) => set_command(scope.token(), "LANGUAGE"@, value@),
            Request::GetLanguage => "GET LANGUAGE"@,
            Request::SetSsmlMode(value) => set_command("self"@, "SSML_MODE"@, on_off_token(value)),
            Request::SetPunctuationMode(scope, mode) => {
                set_command(scope.token(), "PUNCTUATION"@, mode.token())
            },
            Request::SetSpelling(scope, value) => {
                set_command(scope.token(), "SPELLING"@, on_off_token(value))
            },
            Request::SetCapitalLettersRecognitionMode(scope, mode) => {
                set_command(scope.token(), "CAP_LET_RECOGN"@, mode.token())
            },
            Request::SetVoiceType(scope, value) => {
                set_command(scope.token(), "VOICE_TYPE"@, value@)
            },
            Request::GetVoiceType => "GET VOICE_TYPE"@,
            Request::ListVoiceTypes => "LIST VOICES"@,
            Request::SetSynthesisVoice(scope, value) => {
                set_command(scope.token(), "SYNTHESIS_VOICE"@, value@)
            },
            Request::ListSynthesisVoices => "LIST SYNTHESIS_VOICES"@,
            Request::SetRate(scope, value) => {
                set_command(scope.token(), "RATE"@, signed_decimal(clamp_range(value)))
            },
            Request::GetRate => "GET RATE"@,
            Request::SetPitch(scope, value) => {
                set_command(scope.token(), "PITCH"@, signed_decimal(clamp_range(value)))
            },
            Request::GetPitch => "GET PITCH"@,
            Request::SetVolume(scope, value) => {
                set_command(scope.token(), "VOLUME"@, signed_decimal(clamp_range(value)))
            },
            Request::GetVolume => "GET VOLUME"@,
            Request::SetPauseContext(scope, value) => {
                set_command(scope.token(), "PAUSE_CONTEXT"@, decimal(value as nat))
            },
            Request::SetNotification(ntype, value) => {
                set_command("self"@, "NOTIFICATION"@, ntype.token() + " "@ + on_off_token(value))
            },
            Request::Begin => "BLOCK BEGIN"@,
            Request::End => "BLOCK END"@,
            Request::SetHistory(scope, value) => {
                set_command(scope.token(), "HISTORY"@, on_off_token(value))
            },
            Request::HistoryGetClients => "HISTORY GET CLIENT_LIST"@,
            Request::HistoryGetClientId => "HISTORY GET CLIENT_ID"@,
            Request::HistoryGetClientMsgs(scope, start, number) => {
                "HISTORY GET CLIENT_MESSAGES "@ + scope.token() + " "@ + decimal(start as nat)
                    + "_"@ + decimal(number as nat)
            },
            Request::HistoryGetLastMsgId => "HISTORY GET LAST"@,
            Request::HistoryGetMsg(id) => verb_command("HISTORY GET MESSAGE"@, decimal(id as nat)),
            Request::HistoryCursorGet => "HISTORY CURSOR GET"@,
            Request::HistoryCursorSet(scope, position) => {
                "HISTORY CURSOR SET "@ + scope.token() + " "@ + position.token()
            },
            Request::HistoryCursorMove(direction) => {
                verb_command("HISTORY CURSOR"@, direction.token())
            },
            Request::HistorySpeak(id) => verb_command("HISTORY SAY"@, decimal(id as nat)),
            Request::HistorySort(direction, key) => {
                "HISTORY SORT "@ + direction.token() + " "@ + key.token()
            },
            Request::HistorySetShortMsgLength(length) => {
                verb_command("HISTORY SET SHORT_MESSAGE_LENGTH"@, decimal(length as nat))
            },
            Request::HistorySetMsgTypeOrdering(ordering) => {
                "HISTORY SET MESSAGE_TYPE_ORDERING \""@ + join_words(ordering_tokens(ordering@))
                    + "\""@
            },
            Request::HistorySearch(scope, condition) => {
                "HISTORY SEARCH "@ + scope.token() + " \""@ + condition@ + "\""@
            },
            Request::Quit => "QUIT"@,
        }
    }

    /// The lines that are written for this request: the lines of a text
    /// and the line that ends it, or one command line.
    pub open spec fn wire_lines(self) -> Seq<Seq<char>> {
        match self {
            Request::SendLine(line) => seq![line@, END_OF_DATA@],
            Request::SendLines(lines) => views_of(lines@).push(END_OF_DATA@),
            _ => seq![self.command()],
        }
    }

    /// The lines that are written for this request.
    pub fn to_lines(&self) -> (lines: Vec<String>)
        ensures
            views_of(lines@) == self.wire_lines(),
    {
        let mut lines: Vec<String> = Vec::new();
        match self {
            Request::SendLine(line) => {
                lines.push(line.clone());
                lines.push(END_OF_DATA.to_string());
            },
            Request::SendLines(text) => {
                let mut i: usize = 0;
                while i < text.len()
                    invariant
                        i <= text.len(),
                        views_of(lines@) == views_of(text@).subrange(0, i as int),
                    decreases text.len() - i,
                {
                    proof {
                        lemma_views_push(lines@, text@[i as int]);
                    }
                    lines.push(text[i].clone());
                    i += 1;
                    assert(views_of(lines@) =~= views_of(text@).subrange(0, i as int));
                }
                assert(views_of(text@).subrange(0, i as int) =~= views_of(text@));
                lines.push(END_OF_DATA.to_string());
            },
            _ => {
                lines.push(self.to_command());
            },
        }
        assert(views_of(lines@) =~= self.wire_lines());
        lines
    }

    /// The command line of this request.
    pub fn to_command(&self) -> (line: String)
        ensures
            line@ == self.command(),
    {
        match self {
            Request::SetName(name) => set_line("self", "CLIENT_NAME", name.to_string().as_str()),
            Request::Speak => "SPEAK".to_string(),
            Request::SendLine(_) => String::new(),
            Request::SendLines(_) => String::new(),
            Request::SpeakChar(ch) => verb_line("CHAR", char_to_string(*ch).as_str()),
            Request::SpeakKey(key) => verb_line("KEY", key.as_str()),
            Request::Stop(scope) => verb_line("STOP", scope.to_string().as_str()),
            Request::Cancel(scope) => verb_line("CANCEL", scope.to_string().as_str()),
            Request::Pause(scope) => verb_line("PAUSE", scope.to_string().as_str()),
            Request::Resume(scope) => verb_line("RESUME", scope.to_string().as_str()),
            Request::SetPriority(priority) => set_line("self", "PRIORITY", priority.as_str()),
            Request::SetDebug(value) => set_line("all", "DEBUG", on_off(*value)),
            Request::SetOutputModule(scope, value) => {
                set_line(scope.to_string().as_str(), "OUTPUT_MODULE", value.as_str())
            },
            Request::GetOutputModule => "GET OUTPUT_MODULE".to_string(),
            Request::ListOutputModules => "LIST OUTPUT_MODULES".to_string(),
            Request::SetLanguage(scope, value) => {
                set_line(scope.to_string().as_str(), "LANGUAGE", value.as_str())
            },
            Request::GetLanguage => "GET LANGUAGE".to_string(),
            Request::SetSsmlMode(value) => set_line("self", "SSML_MODE", on_off(*value)),
            Request::SetPunctuationMode(scope, mode) => {
                set_line(scope.to_string().as_str(), "PUNCTUATION", mode.as_str())
            },
            Request::SetSpelling(scope, value) => {
                set_line(scope.to_string().as_str(), "SPELLING", on_off(*value))
            },
            Request::SetCapitalLettersRecognitionMode(scope, mode) => {
                set_line(scope.to_string().as_str(), "CAP_LET_RECOGN", mode.as_str())
            },
            Request::SetVoiceType(scope, value) => {
                set_line(scope.to_string().as_str(), "VOICE_TYPE", value.as_str())
            },
            Request::GetVoiceType => "GET VOICE_TYPE".to_string(),
            Request::ListVoiceTypes => "LIST VOICES".to_string(),
            Request::SetSynthesisVoice(scope, value) => {
                set_line(scope.to_string().as_str(), "SYNTHESIS_VOICE", value.as_str())
            },
            Request::ListSynthesisVoices => "LIST SYNTHESIS_VOICES".to_string(),
            Request::SetRate(scope, value) => {
                set_line(scope.to_string().as_str(), "RATE", range_string(*value).as_str())
            },
            Request::GetRate => "GET RATE".to_string(),
            Request::SetPitch(scope, value) => {
                set_line(scope.to_string().as_str(), "PITCH", range_string(*value).as_str())
            },
            Request::GetPitch => "GET PITCH".to_string(),
            Request::SetVolume(scope, value) => {
                set_line(scope.to_string().as_str(), "VOLUME", range_string(*value).as_str())
            },
            Request::GetVolume => "GET VOLUME".to_string(),
            Request::SetPauseContext(scope, value) => {
                set_line(
                    scope.to_string().as_str(),
                    "PAUSE_CONTEXT",
                    decimal_string(*value as u64).as_str(),
                )
            },
            Request::SetNotification(ntype, value) => {
                set_line("self", "NOTIFICATION", verb_line(ntype.as_str(), on_off(*value)).as_str())
            },
            Request::Begin => "BLOCK BEGIN".to_string(),
            Request::End => "BLOCK END".to_string(),
            Request::SetHistory(scope, value) => {
                set_line(scope.to_string().as_str(), "HISTORY", on_off(*value))
            },
            Request::HistoryGetClients => "HISTORY GET CLIENT_LIST".to_string(),
            Request::HistoryGetClientId => "HISTORY GET CLIENT_ID".to_string(),
            Request::HistoryGetClientMsgs(scope, start, number) => {
                let mut line = "HISTORY GET CLIENT_MESSAGES ".to_string();
                line.append(scope.to_string().as_str());
                line.append(" ");
                line.append(decimal_string(*start as u64).as_str());
                line.append("_");
                line.append(decimal_string(*number as u64).as_str());
                line
            },
            Request::HistoryGetLastMsgId => "HISTORY GET LAST".to_string(),
            Request::HistoryGetMsg(id) => {
                verb_line("HISTORY GET MESSAGE", decimal_string(*id as u64).as_str())
            },
            Request::HistoryCursorGet => "HISTORY CURSOR GET".to_string(),
            Request::HistoryCursorSet(scope, position) => {
                let mut line = "HISTORY CURSOR SET ".to_string();
                line.append(scope.to_string().as_str());
                line.append(" ");
                line.append(position.to_string().as_str());
                line
            },
            Request::HistoryCursorMove(direction) => {
                verb_line("HISTORY CURSOR", direction.as_str())
            },
            Request::HistorySpeak(id) => {
                verb_line("HISTORY SAY", decimal_string(*id as u64).as_str())
            },
            Request::HistorySort(direction, key) => {
                let mut line = "HISTORY SORT ".to_string();
                line.append(direction.as_str());
                line.append(" ");
                line.append(key.as_str());
                line
            },
            Request::HistorySetShortMsgLength(length) => {
                verb_line(
                    "HISTORY SET SHORT_MESSAGE_LENGTH",
                    decimal_string(*length as u64).as_str(),
                )
            },
            Request::HistorySetMsgTypeOrdering(ordering) => {
                let mut line = "HISTORY SET MESSAGE_TYPE_ORDERING \"".to_string();
                line.append(ordering_words(ordering).as_str());
                line.append("\"");
                line
            },
            Request::HistorySearch(scope, condition) => {
                let mut line = "HISTORY SEARCH ".to_string();
                line.append(scope.to_string().as_str());
                line.append(" \"");
                line.append(condition.as_str());
                line.append("\"");
                line
            },
            Request::Quit => "QUIT".to_string(),
        }
    }
}

/// Converts a boolean to the token `on` or `off`.
pub fn on_off(value: bool) -> (token: &'static str)
    ensures
        token@ == on_off_token(value),
{
    if value {
        "on"
    } else {
        "off"
    }
}

/// Writes a value of rate, pitch or volume, kept within `[-100, 100]`.
pub fn range_string(value: i8) -> (text: String)
    ensures
        text@ == signed_decimal(clamp_range(value)),
{
    let clamped: i8 = if value < RANGE_MIN {
        RANGE_MIN
    } else if value > RANGE_MAX {
        RANGE_MAX
    } else {
        value
    };
    signed_decimal_string(clamped as i64)
}

/// Writes the command `SET scope parameter value`.
fn set_line(scope: &str, parameter: &str, value: &str) -> (line: String)
    ensures
        line@ == set_command(scope@, parameter@, value@),
{
    let mut line = "SET ".to_string();
    line.append(scope);
    line.append(" ");
    line.append(parameter);
    line.append(" ");
    line.append(value);
    line
}

/// Writes the command made of `verb` and one argument.
fn verb_line(verb: &str, argument: &str) -> (line: String)
    ensures
        line@ == verb_command(verb@, argument@),
{
    let mut line = verb.to_string();
    line.append(" ");
    line.append(argument);
    line
}

/// Writes the tokens of a ranking of message types, with a space between
/// each two.
fn ordering_words(ordering: &Vec<MessageOrdering>) -> (line: String)
    ensures
        line@ == join_words(ordering_tokens(ordering@)),
{
    let mut line = String::new();
    let ghost tokens = ordering_tokens(ordering@);
    let mut i: usize = 0;
    while i < ordering.len()
        invariant
            i <= ordering.len(),
            tokens == ordering_tokens(ordering@),
            line@ == join_words(tokens.subrange(0, i as int)),
        decreases ordering.len() - i,
    {
        let ghost before = tokens.subrange(0, i as int);
        let ghost after = tokens.subrange(0, i + 1);
        assert(after.drop_last() =~= before);
        if i > 0 {
            line.append(" ");
        }
        line.append(ordering[i].as_str());
        assert(line@ =~= join_words(after));
        i += 1;
    }
    assert(tokens.subrange(0, i as int) =~= tokens);
    line
}

/// `String::from` on a character: the string that holds `c` and nothing
/// else.
#[verifier::external_body]
fn char_to_string(c: char) -> (text: String)
    ensures
        text@ == seq![c],
{
    String::from(c)
}

} // verus!
