//! One request, one line: no command holds a line feed unless the
//! caller puts one into it.

use crate::error::ClientErrorView;
use crate::laws::{lemma_decimal_digits, written_line_is_read_back};
use crate::protocol::wire_bytes;
use crate::request::{
    clamp_range, join_words, on_off_token, ordering_tokens, set_command, verb_command, Request,
};
use crate::stream::next_line;
use crate::text::{decimal, free_of, is_digit, lemma_free_of, signed_decimal};
use crate::types::{
    CapitalLettersRecognitionMode, ClientNameView, ClientScope, CursorDirection, HistoryPosition,
    KeyName, MessageOrdering, MessageScope, NotificationType, Priority, PunctuationMode,
    SortDirection, SortKey,
};
use vstd::prelude::*;

verus! {

/// Whether `text` holds no line feed.
pub open spec fn one_line(text: Seq<char>) -> bool {
    free_of(text, '\n')
}

/// A number in decimal notation holds no line feed.
pub proof fn lemma_decimal_one_line(n: nat)
    ensures
        one_line(decimal(n)),
        one_line(signed_decimal(n as int)),
        one_line(signed_decimal(-(n as int))),
{
    lemma_decimal_digits(n);
    assert forall|i: int| 0 <= i < decimal(n).len() implies decimal(n)[i] != '\n' by {
        assert(is_digit(decimal(n)[i]));
    }
    let negative = signed_decimal(-(n as int));
    if n > 0 {
        assert forall|i: int| 0 <= i < negative.len() implies negative[i] != '\n' by {
            if i > 0 {
                assert(negative[i] == decimal(n)[i - 1]);
            }
        }
    }
}

/// The token of a value of this kind holds no line feed.
pub proof fn lemma_priority_one_line(value: Priority)
    ensures
        one_line(value.token()),
{
    reveal_strlit("progress");
    reveal_strlit("notification");
    reveal_strlit("message");
    reveal_strlit("text");
    reveal_strlit("important");
}

/// The token of a value of this kind holds no line feed.
pub proof fn lemma_punctuation_mode_one_line(value: PunctuationMode)
    ensures
        one_line(value.token()),
{
    reveal_strlit("none");
    reveal_strlit("some");
    reveal_strlit("most");
    reveal_strlit("all");
}

/// The token of a value of this kind holds no line feed.
pub proof fn lemma_capital_letters_recognition_mode_one_line(value: CapitalLettersRecognitionMode)
    ensures
        one_line(value.token()),
{
    reveal_strlit("none");
    reveal_strlit("spell");
    reveal_strlit("icon");
}

/// The token of a value of this kind holds no line feed.
pub proof fn lemma_key_name_one_line(value: KeyName)
    ensures
        one_line(value.token()),
{
    match value {
        KeyName::Space => {
            reveal_strlit("space");
        },
        KeyName::Underscore => {
            reveal_strlit("underscore");
        },
        KeyName::DoubleQuote => {
            reveal_strlit("double-quote");
        },
        KeyName::Alt => {
            reveal_strlit("alt");
        },
        KeyName::Control => {
            reveal_strlit("control");
        },
        KeyName::Hyper => {
            reveal_strlit("hyper");
        },
        KeyName::Meta => {
            reveal_strlit("meta");
        },
        KeyName::Shift => {
            reveal_strlit("shift");
        },
        KeyName::Super => {
            reveal_strlit("super");
        },
        KeyName::Backspace => {
            reveal_strlit("backspace");
        },
        KeyName::Break => {
            reveal_strlit("break");
        },
        KeyName::Delete => {
            reveal_strlit("delete");
        },
        KeyName::Down => {
            reveal_strlit("down");
        },
        KeyName::End => {
            reveal_strlit("end");
        },
        KeyName::Enter => {
            reveal_strlit("enter");
        },
        KeyName::Escape => {
            reveal_strlit("escape");
        },
        KeyName::F1 => {
            reveal_strlit("f1");
        },
        KeyName::F2 => {
            reveal_strlit("f2");
        },
        KeyName::F3 => {
            reveal_strlit("f3");
        },
        KeyName::F4 => {
            reveal_strlit("f4");
        },
        KeyName::F5 => {
            reveal_strlit("f5");
        },
        KeyName::F6 => {
            reveal_strlit("f6");
        },
        KeyName::F7 => {
            reveal_strlit("f7");
        },
        KeyName::F8 => {
            reveal_strlit("f8");
        },
        KeyName::F9 => {
            reveal_strlit("f9");
        },
        KeyName::F10 => {
            reveal_strlit("f10");
        },
        KeyName::F11 => {
            reveal_strlit("f11");
        },
        KeyName::F12 => {
            reveal_strlit("f12");
        },
        KeyName::F13 => {
            reveal_strlit("f13");
        },
        KeyName::F14 => {
            reveal_strlit("f14");
        },
        KeyName::F15 => {
            reveal_strlit("f15");
        },
        KeyName::F16 => {
            reveal_strlit("f16");
        },
        KeyName::F17 => {
            reveal_strlit("f17");
        },
        KeyName::F18 => {
            reveal_strlit("f18");
        },
        KeyName::F19 => {
            reveal_strlit("f19");
        },
        KeyName::F20 => {
            reveal_strlit("f20");
        },
        KeyName::F21 => {
            reveal_strlit("f21");
        },
        KeyName::F22 => {
            reveal_strlit("f22");
        },
        KeyName::F23 => {
            reveal_strlit("f23");
        },
        KeyName::F24 => {
            reveal_strlit("f24");
        },
        KeyName::Home => {
            reveal_strlit("home");
        },
        KeyName::Insert => {
            reveal_strlit("insert");
        },
        KeyName::KpMultiply => {
            reveal_strlit("kp-*");
        },
        KeyName::KpPlus => {
            reveal_strlit("kp-+");
        },
        KeyName::KpMinus => {
            reveal_strlit("kp--");
        },
        KeyName::KpDot => {
            reveal_strlit("kp-.");
        },
        KeyName::KpDivide => {
            reveal_strlit("kp-/");
        },
        KeyName::Kp0 => {
            reveal_strlit("kp-0");
        },
        KeyName::Kp1 => {
            reveal_strlit("kp-1");
        },
        KeyName::Kp2 => {
            reveal_strlit("kp-2");
        },
        KeyName::Kp3 => {
            reveal_strlit("kp-3");
        },
        KeyName::Kp4 => {
            reveal_strlit("kp-4");
        },
        KeyName::Kp5 => {
            reveal_strlit("kp-5");
        },
        KeyName::Kp6 => {
            reveal_strlit("kp-6");
        },
        KeyName::Kp7 => {
            reveal_strlit("kp-7");
        },
        KeyName::Kp8 => {
            reveal_strlit("kp-8");
        },
        KeyName::Kp9 => {
            reveal_strlit("kp-9");
        },
        KeyName::KpEnter => {
            reveal_strlit("kp-enter");
        },
        KeyName::Left => {
            reveal_strlit("left");
        },
        KeyName::Menu => {
            reveal_strlit("menu");
        },
        KeyName::Next => {
            reveal_strlit("next");
        },
        KeyName::NumLock => {
            reveal_strlit("num-lock");
        },
        KeyName::Pause => {
            reveal_strlit("pause");
        },
        KeyName::Print => {
            reveal_strlit("print");
        },
        KeyName::Prior => {
            reveal_strlit("prior");
        },
        KeyName::Return => {
            reveal_strlit("return");
        },
        KeyName::Right => {
            reveal_strlit("right");
        },
        KeyName::ScrollLock => {
            reveal_strlit("scroll-lock");
        },
        KeyName::Tab => {
            reveal_strlit("tab");
        },
        KeyName::Up => {
            reveal_strlit("up");
        },
        KeyName::Window => {
            reveal_strlit("window");
        },
    }
}

/// The token of a value of this kind holds no line feed.
pub proof fn lemma_notification_type_one_line(value: NotificationType)
    ensures
        one_line(value.token()),
{
    reveal_strlit("begin");
    reveal_strlit("end");
    reveal_strlit("cancel");
    reveal_strlit("pause");
    reveal_strlit("resume");
    reveal_strlit("index_mark");
    reveal_strlit("all");
}

/// The token of a value of this kind holds no line feed.
pub proof fn lemma_cursor_direction_one_line(value: CursorDirection)
    ensures
        one_line(value.token()),
{
    reveal_strlit("backward");
    reveal_strlit("forward");
}

/// The token of a value of this kind holds no line feed.
pub proof fn lemma_sort_direction_one_line(value: SortDirection)
    ensures
        one_line(value.token()),
{
    reveal_strlit("asc");
    reveal_strlit("desc");
}

/// The token of a value of this kind holds no line feed.
pub proof fn lemma_sort_key_one_line(value: SortKey)
    ensures
        one_line(value.token()),
{
    reveal_strlit("client_name");
    reveal_strlit("priority");
    reveal_strlit("message_type");
    reveal_strlit("time");
    reveal_strlit("user");
}

/// The token of a value of this kind holds no line feed.
pub proof fn lemma_message_ordering_one_line(value: MessageOrdering)
    ensures
        one_line(value.token()),
{
    reveal_strlit("text");
    reveal_strlit("sound_icon");
    reveal_strlit("char");
    reveal_strlit("key");
}

/// The token of a scope of messages holds no line feed.
pub proof fn lemma_message_scope_one_line(scope: MessageScope)
    ensures
        one_line(scope.token()),
{
    reveal_strlit("self");
    reveal_strlit("all");
    if let MessageScope::Message(id) = scope {
        lemma_decimal_one_line(id as nat);
    }
}

/// The token of a scope of clients holds no line feed.
pub proof fn lemma_client_scope_one_line(scope: ClientScope)
    ensures
        one_line(scope.token()),
{
    reveal_strlit("self");
    reveal_strlit("all");
    if let ClientScope::Client(id) = scope {
        lemma_decimal_one_line(id as nat);
    }
}

/// The words of a position in the history hold no line feed.
pub proof fn lemma_history_position_one_line(position: HistoryPosition)
    ensures
        one_line(position.token()),
{
    reveal_strlit("first");
    reveal_strlit("last");
    reveal_strlit("pos ");
    if let HistoryPosition::Pos(n) = position {
        lemma_decimal_one_line(n as nat);
    }
}

/// The token of a switch holds no line feed.
pub proof fn lemma_on_off_one_line(value: bool)
    ensures
        one_line(on_off_token(value)),
{
    reveal_strlit("on");
    reveal_strlit("off");
}

/// A `SET` command holds no line feed unless its parts do.
pub proof fn lemma_set_command_one_line(scope: Seq<char>, parameter: Seq<char>, value: Seq<char>)
    requires
        one_line(scope),
        one_line(parameter),
        one_line(value),
    ensures
        one_line(set_command(scope, parameter, value)),
{
    reveal_strlit("SET ");
    reveal_strlit(" ");
}

/// A command of a verb and an argument holds no line feed unless its
/// parts do.
pub proof fn lemma_verb_command_one_line(verb: Seq<char>, argument: Seq<char>)
    requires
        one_line(verb),
        one_line(argument),
    ensures
        one_line(verb_command(verb, argument)),
{
    reveal_strlit(" ");
}

/// The words of a ranking of message types hold no line feed.
pub proof fn lemma_ordering_one_line(ordering: Seq<MessageOrdering>)
    ensures
        one_line(join_words(ordering_tokens(ordering))),
    decreases ordering.len(),
{
    let tokens = ordering_tokens(ordering);
    reveal_strlit(" ");
    if ordering.len() == 1 {
        lemma_message_ordering_one_line(ordering[0]);
    } else if ordering.len() > 1 {
        lemma_ordering_one_line(ordering.drop_last());
        assert(tokens.drop_last() =~= ordering_tokens(ordering.drop_last()));
        lemma_message_ordering_one_line(ordering.last());
    }
}

/// Whether the name of a client holds no line feed.
pub open spec fn plain_name(name: ClientNameView) -> bool {
    one_line(name.user) && one_line(name.application) && one_line(name.component)
}

/// Whether the texts that the caller has put into `request` hold no line
/// feed.
pub open spec fn plain(request: Request) -> bool {
    match request {
        Request::SetName(name) => plain_name(name@),
        Request::SendLine(line) => one_line(line@),
        Request::SendLines(lines) => forall|i: int|
            0 <= i < lines@.len() ==> one_line(#[trigger] lines@[i]@),
        Request::SpeakChar(ch) => ch != '\n',
        Request::SetOutputModule(_, value) => one_line(value@),
        Request::SetLanguage(_, value) => one_line(value@),
        Request::SetVoiceType(_, value) => one_line(value@),
        Request::SetSynthesisVoice(_, value) => one_line(value@),
        Request::HistorySearch(_, condition) => one_line(condition@),
        _ => true,
    }
}

/// Whether `request` is written as a command, not as the text of a
/// message.
pub open spec fn is_command(request: Request) -> bool {
    !(request is SendLine) && !(request is SendLines)
}

/// The command line of a request holds no line feed, unless the caller
/// has put one into the request.
pub proof fn command_is_one_line(request: Request)
    requires
        is_command(request),
        plain(request),
    ensures
        one_line(request.command()),
{
    match request {
        Request::SetName(name) => {
            reveal_strlit("self");
            reveal_strlit("CLIENT_NAME");
            reveal_strlit(":");
            lemma_set_command_one_line("self"@, "CLIENT_NAME"@, name@.token());
        },
        Request::Speak => {
            reveal_strlit("SPEAK");
        },
        Request::SendLine(_) => {},
        Request::SendLines(_) => {},
        Request::SpeakChar(ch) => {
            reveal_strlit("CHAR");
            lemma_verb_command_one_line("CHAR"@, seq![ch]);
        },
        Request::SpeakKey(key) => {
            reveal_strlit("KEY");
            lemma_key_name_one_line(key);
            lemma_verb_command_one_line("KEY"@, key.token());
        },
        Request::Stop(scope) => {
            reveal_strlit("STOP");
            lemma_message_scope_one_line(scope);
            lemma_verb_command_one_line("STOP"@, scope.token());
        },
        Request::Cancel(scope) => {
            reveal_strlit("CANCEL");
            lemma_message_scope_one_line(scope);
            lemma_verb_command_one_line("CANCEL"@, scope.token());
        },
        Request::Pause(scope) => {
            reveal_strlit("PAUSE");
            lemma_message_scope_one_line(scope);
            lemma_verb_command_one_line("PAUSE"@, scope.token());
        },
        Request::Resume(scope) => {
            reveal_strlit("RESUME");
            lemma_message_scope_one_line(scope);
            lemma_verb_command_one_line("RESUME"@, scope.token());
        },
        Request::SetPriority(priority) => {
            reveal_strlit("self");
            reveal_strlit("PRIORITY");
            lemma_priority_one_line(priority);
            lemma_set_command_one_line("self"@, "PRIORITY"@, priority.token());
        },
        Request::SetDebug(value) => {
            reveal_strlit("all");
            reveal_strlit("DEBUG");
            lemma_on_off_one_line(value);
            lemma_set_command_one_line("all"@, "DEBUG"@, on_off_token(value));
        },
        Request::SetOutputModule(scope, value) => {
            reveal_strlit("OUTPUT_MODULE");
            lemma_client_scope_one_line(scope);
            lemma_set_command_one_line(scope.token(), "OUTPUT_MODULE"@, value@);
        },
        Request::GetOutputModule => {
            reveal_strlit("GET OUTPUT_MODULE");
        },
        Request::ListOutputModules => {
            reveal_strlit("LIST OUTPUT_MODULES");
        },
        Request::SetLanguage(scope, value) => {
            reveal_strlit("LANGUAGE");
            lemma_client_scope_one_line(scope);
            lemma_set_command_one_line(scope.token(), "LANGUAGE"@, value@);
        },
        Request::GetLanguage => {
            reveal_strlit("GET LANGUAGE");
        },
        Request::SetSsmlMode(value) => {
            reveal_strlit("self");
            reveal_strlit("SSML_MODE");
            lemma_on_off_one_line(value);
            lemma_set_command_one_line("self"@, "SSML_MODE"@, on_off_token(value));
        },
        Request::SetPunctuationMode(scope, mode) => {
            reveal_strlit("PUNCTUATION");
            lemma_client_scope_one_line(scope);
            lemma_punctuation_mode_one_line(mode);
            lemma_set_command_one_line(scope.token(), "PUNCTUATION"@, mode.token());
        },
        Request::SetSpelling(scope, value) => {
            reveal_strlit("SPELLING");
            lemma_client_scope_one_line(scope);
            lemma_on_off_one_line(value);
            lemma_set_command_one_line(scope.token(), "SPELLING"@, on_off_token(value));
        },
        Request::SetCapitalLettersRecognitionMode(scope, mode) => {
            reveal_strlit("CAP_LET_RECOGN");
            lemma_client_scope_one_line(scope);
            lemma_capital_letters_recognition_mode_one_line(mode);
            lemma_set_command_one_line(scope.token(), "CAP_LET_RECOGN"@, mode.token());
        },
        Request::SetVoiceType(scope, value) => {
            reveal_strlit("VOICE_TYPE");
            lemma_client_scope_one_line(scope);
            lemma_set_command_one_line(scope.token(), "VOICE_TYPE"@, value@);
        },
        Request::GetVoiceType => {
            reveal_strlit("GET VOICE_TYPE");
        },
        Request::ListVoiceTypes => {
            reveal_strlit("LIST VOICES");
        },
        Request::SetSynthesisVoice(scope, value) => {
            reveal_strlit("SYNTHESIS_VOICE");
            lemma_client_scope_one_line(scope);
            lemma_set_command_one_line(scope.token(), "SYNTHESIS_VOICE"@, value@);
        },
        Request::ListSynthesisVoices => {
            reveal_strlit("LIST SYNTHESIS_VOICES");
        },
        Request::SetRate(scope, value) => {
            reveal_strlit("RATE");
            lemma_client_scope_one_line(scope);
            lemma_range_one_line(value);
            lemma_set_command_one_line(
                scope.token(),
                "RATE"@,
                signed_decimal(clamp_range(value)),
            );
        },
        Request::GetRate => {
            reveal_strlit("GET RATE");
        },
        Request::SetPitch(scope, value) => {
            reveal_strlit("PITCH");
            lemma_client_scope_one_line(scope);
            lemma_range_one_line(value);
            lemma_set_command_one_line(
                scope.token(),
                "PITCH"@,
                signed_decimal(clamp_range(value)),
            );
        },
        Request::GetPitch => {
            reveal_strlit("GET PITCH");
        },
        Request::SetVolume(scope, value) => {
            reveal_strlit("VOLUME");
            lemma_client_scope_one_line(scope);
            lemma_range_one_line(value);
            lemma_set_command_one_line(
                scope.token(),
                "VOLUME"@,
                signed_decimal(clamp_range(value)),
            );
        },
        Request::GetVolume => {
            reveal_strlit("GET VOLUME");
        },
        Request::SetPauseContext(scope, value) => {
            reveal_strlit("PAUSE_CONTEXT");
            lemma_client_scope_one_line(scope);
            lemma_decimal_one_line(value as nat);
            lemma_set_command_one_line(scope.token(), "PAUSE_CONTEXT"@, decimal(value as nat));
        },
        Request::SetNotification(ntype, value) => {
            reveal_strlit("self");
            reveal_strlit("NOTIFICATION");
            reveal_strlit(" ");
            lemma_notification_type_one_line(ntype);
            lemma_on_off_one_line(value);
            lemma_set_command_one_line(
                "self"@,
                "NOTIFICATION"@,
                ntype.token() + " "@ + on_off_token(value),
            );
        },
        Request::Begin => {
            reveal_strlit("BLOCK BEGIN");
        },
        Request::End => {
            reveal_strlit("BLOCK END");
        },
        Request::SetHistory(scope, value) => {
            reveal_strlit("HISTORY");
            lemma_client_scope_one_line(scope);
            lemma_on_off_one_line(value);
            lemma_set_command_one_line(scope.token(), "HISTORY"@, on_off_token(value));
        },
        Request::HistoryGetClients => {
            reveal_strlit("HISTORY GET CLIENT_LIST");
        },
        Request::HistoryGetClientId => {
            reveal_strlit("HISTORY GET CLIENT_ID");
        },
        Request::HistoryGetClientMsgs(scope, start, number) => {
            reveal_strlit("HISTORY GET CLIENT_MESSAGES ");
            reveal_strlit(" ");
            reveal_strlit("_");
            lemma_client_scope_one_line(scope);
            lemma_decimal_one_line(start as nat);
            lemma_decimal_one_line(number as nat);
        },
        Request::HistoryGetLastMsgId => {
            reveal_strlit("HISTORY GET LAST");
        },
        Request::HistoryGetMsg(id) => {
            reveal_strlit("HISTORY GET MESSAGE");
            lemma_decimal_one_line(id as nat);
            lemma_verb_command_one_line("HISTORY GET MESSAGE"@, decimal(id as nat));
        },
        Request::HistoryCursorGet => {
            reveal_strlit("HISTORY CURSOR GET");
        },
        Request::HistoryCursorSet(scope, position) => {
            reveal_strlit("HISTORY CURSOR SET ");
            reveal_strlit(" ");
            lemma_client_scope_one_line(scope);
            lemma_history_position_one_line(position);
        },
        Request::HistoryCursorMove(direction) => {
            reveal_strlit("HISTORY CURSOR");
            lemma_cursor_direction_one_line(direction);
            lemma_verb_command_one_line("HISTORY CURSOR"@, direction.token());
        },
        Request::HistorySpeak(id) => {
            reveal_strlit("HISTORY SAY");
            lemma_decimal_one_line(id as nat);
            lemma_verb_command_one_line("HISTORY SAY"@, decimal(id as nat));
        },
        Request::HistorySort(direction, key) => {
            reveal_strlit("HISTORY SORT ");
            reveal_strlit(" ");
            lemma_sort_direction_one_line(direction);
            lemma_sort_key_one_line(key);
        },
        Request::HistorySetShortMsgLength(length) => {
            reveal_strlit("HISTORY SET SHORT_MESSAGE_LENGTH");
            lemma_decimal_one_line(length as nat);
            lemma_verb_command_one_line(
                "HISTORY SET SHORT_MESSAGE_LENGTH"@,
                decimal(length as nat),
            );
        },
        Request::HistorySetMsgTypeOrdering(ordering) => {
            reveal_strlit("HISTORY SET MESSAGE_TYPE_ORDERING \"");
            reveal_strlit("\"");
            lemma_ordering_one_line(ordering@);
        },
        Request::HistorySearch(scope, condition) => {
            reveal_strlit("HISTORY SEARCH ");
            reveal_strlit(" \"");
            reveal_strlit("\"");
            lemma_client_scope_one_line(scope);
        },
        Request::Quit => {
            reveal_strlit("QUIT");
        },
    }
}

/// A value of rate, pitch or volume is written without line feed.
pub proof fn lemma_range_one_line(value: i8)
    ensures
        one_line(signed_decimal(clamp_range(value))),
{
    let clamped = clamp_range(value);
    if clamped < 0 {
        lemma_decimal_one_line((-clamped) as nat);
    } else {
        lemma_decimal_one_line(clamped as nat);
    }
}

/// No line that is written for a request holds a line feed, unless the
/// caller has put one into the request.
pub proof fn request_is_made_of_lines(request: Request)
    requires
        plain(request),
    ensures
        forall|i: int|
            0 <= i < request.wire_lines().len() ==> one_line(#[trigger] request.wire_lines()[i]),
{
    reveal_strlit(".");
    if is_command(request) {
        command_is_one_line(request);
    }
}

/// The first `count` lines of `input` and the bytes that follow them,
/// where that many lines have arrived in full and are valid UTF-8.
pub open spec fn read_lines(input: Seq<u8>, count: nat) -> Option<(Seq<Seq<char>>, Seq<u8>)>
    decreases count,
{
    if count == 0 {
        Some((Seq::empty(), input))
    } else {
        match next_line(input) {
            Some((Ok(line), rest)) => match read_lines(rest, (count - 1) as nat) {
                Some((lines, left)) => Some((seq![line] + lines, left)),
                None => None,
            },
            _ => None,
        }
    }
}

/// Lines without line feed are read back from the bytes that were written
/// for them, in their order, and what follows them is left.
pub proof fn lines_are_read_back(lines: Seq<Seq<char>>, rest: Seq<u8>)
    requires
        forall|i: int| 0 <= i < lines.len() ==> one_line(#[trigger] lines[i]),
    ensures
        read_lines(wire_bytes(lines) + rest, lines.len()) == Some((lines, rest)),
    decreases lines.len(),
{
    if lines.len() == 0 {
        assert(wire_bytes(lines) + rest =~= rest);
        assert(lines =~= Seq::<Seq<char>>::empty());
    } else {
        let first = lines[0];
        let more = lines.skip(1);
        assert(lines =~= seq![first] + more);
        assert(one_line(first));
        lemma_free_of(first, '\n');
        written_line_is_read_back(first, more, rest);
        assert forall|i: int| 0 <= i < more.len() implies one_line(#[trigger] more[i]) by {
            assert(more[i] == lines[i + 1]);
        }
        lines_are_read_back(more, rest);
    }
}

/// What the client writes for a request is read back, line by line, as
/// the lines of the request: a command as its command line, a text as its
/// lines and the line that ends it. This holds of every request into which
/// the caller has put no line feed.
pub proof fn request_is_read_back(request: Request, rest: Seq<u8>)
    requires
        plain(request),
    ensures
        read_lines(wire_bytes(request.wire_lines()) + rest, request.wire_lines().len()) == Some(
            (request.wire_lines(), rest),
        ),
        is_command(request) ==> next_line(wire_bytes(request.wire_lines()) + rest) == Some(
            (Ok::<Seq<char>, ClientErrorView>(request.command()), rest),
        ),
{
    request_is_made_of_lines(request);
    lines_are_read_back(request.wire_lines(), rest);
    if is_command(request) {
        let line = request.command();
        lemma_free_of(line, '\n');
        assert(request.wire_lines() =~= seq![line] + Seq::<Seq<char>>::empty());
        written_line_is_read_back(line, Seq::empty(), rest);
        assert(wire_bytes(Seq::<Seq<char>>::empty()) + rest =~= rest);
    }
}

} // verus!
