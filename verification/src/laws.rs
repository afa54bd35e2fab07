//! What holds of the protocol engine as a whole, proved from the
//! contracts of its parts.

use crate::client::{event_lines, event_of_reply, message_id_of, reply_then, ClientView};
use crate::constants::{
    is_error_code, is_event_code, ReturnCode, EVENT_INDEX_MARK, OK_LAST_MSG, OK_MESSAGE_QUEUED,
    OK_NOTIFICATION_SET,
};
use crate::error::{invalid_data_failure, ClientErrorView};
use crate::poll::QueuedClientView;
use crate::protocol::{
    code_of, frame_of, line_end, line_of, single_integer, status_of, wire_bytes, without_prefix,
    Frame, LineView,
};
use crate::request::{clamp_range, on_off_token, Request, RANGE_MAX, RANGE_MIN};
use crate::response::{response_of, ResponseView};
use crate::stream::{next_line, strip_cr, CR, LF};
use crate::text::{
    after, all_digits, before, decimal, digit_char, digit_value, digits_value, is_digit,
    lemma_position, occurs, parse_signed, parse_unsigned, position, signed_decimal, split_limit,
};
use crate::types::{
    history_client_of, voice_of, ClientScope, EventIdView, HistoryClientStatusView,
    NotificationType, StatusLineView, SynthesisVoiceView,
};
use vstd::prelude::*;
use vstd::utf8::*;

verus! {

/// The decimal notation of a number is made of digits, at least one, and
/// denotes that number.
pub proof fn lemma_decimal_digits(n: nat)
    ensures
        decimal(n).len() > 0,
        all_digits(decimal(n)),
        digits_value(decimal(n)) == n,
    decreases n,
{
    if n < 10 {
        assert(decimal(n).drop_last() =~= Seq::<char>::empty());
        assert(digits_value(decimal(n).drop_last()) == 0);
    } else {
        lemma_decimal_digits(n / 10);
        let head = decimal(n / 10);
        assert(decimal(n).drop_last() =~= head);
        assert forall|i: int| 0 <= i < decimal(n).len() implies is_digit(
            #[trigger] decimal(n)[i],
        ) by {
            if i < head.len() {
                assert(decimal(n)[i] == head[i]);
            }
        }
    }
}

/// A number that is written in decimal notation is read back as itself.
pub proof fn decimal_round_trip(n: nat, max: nat)
    requires
        n <= max,
    ensures
        parse_unsigned(decimal(n), max) == Some(n),
{
    lemma_decimal_digits(n);
    assert(is_digit(decimal(n)[0]));
}

/// A signed number that is written in decimal notation is read back as
/// itself.
pub proof fn signed_decimal_round_trip(v: int, min: int, max: int)
    requires
        min <= v <= max,
    ensures
        parse_signed(signed_decimal(v), min, max) == Some(v),
{
    if v < 0 {
        let digits = decimal((-v) as nat);
        lemma_decimal_digits((-v) as nat);
        assert(signed_decimal(v).skip(1) =~= digits);
    } else {
        lemma_decimal_digits(v as nat);
        assert(is_digit(decimal(v as nat)[0]));
    }
}

/// Rate, pitch and volume are sent as the value of `[-100, 100]` nearest
/// to the one that was given: whatever the value, the number at the end
/// of the command reads as that one.
pub proof fn range_is_clamped(scope: ClientScope, value: i8)
    ensures
        RANGE_MIN <= clamp_range(value) <= RANGE_MAX,
        RANGE_MIN <= value <= RANGE_MAX ==> clamp_range(value) == value,
        value < RANGE_MIN ==> clamp_range(value) == RANGE_MIN,
        value > RANGE_MAX ==> clamp_range(value) == RANGE_MAX,
        parse_signed(signed_decimal(clamp_range(value)), i8::MIN as int, i8::MAX as int) == Some(
            clamp_range(value),
        ),
        Request::SetRate(scope, value).command() == "SET "@ + scope.token() + " "@ + "RATE"@
            + " "@ + signed_decimal(clamp_range(value)),
        Request::SetPitch(scope, value).command() == "SET "@ + scope.token() + " "@ + "PITCH"@
            + " "@ + signed_decimal(clamp_range(value)),
        Request::SetVolume(scope, value).command() == "SET "@ + scope.token() + " "@ + "VOLUME"@
            + " "@ + signed_decimal(clamp_range(value)),
{
    signed_decimal_round_trip(clamp_range(value), i8::MIN as int, i8::MAX as int);
}

/// A switch is sent as `on` or `off`, in lower case, at the end of its
/// command.
pub proof fn switches_are_on_or_off(scope: ClientScope, ntype: NotificationType, value: bool)
    ensures
        on_off_token(true) == seq!['o', 'n'],
        on_off_token(false) == seq!['o', 'f', 'f'],
        Request::SetDebug(value).command() == "SET "@ + "all"@ + " "@ + "DEBUG"@ + " "@
            + on_off_token(value),
        Request::SetSsmlMode(value).command() == "SET "@ + "self"@ + " "@ + "SSML_MODE"@ + " "@
            + on_off_token(value),
        Request::SetSpelling(scope, value).command() == "SET "@ + scope.token() + " "@
            + "SPELLING"@ + " "@ + on_off_token(value),
        Request::SetHistory(scope, value).command() == "SET "@ + scope.token() + " "@
            + "HISTORY"@ + " "@ + on_off_token(value),
        Request::SetNotification(ntype, value).command() == "SET "@ + "self"@ + " "@
            + "NOTIFICATION"@ + " "@ + (ntype.token() + " "@ + on_off_token(value)),
{
    reveal_strlit("on");
    reveal_strlit("off");
    assert(on_off_token(true) =~= seq!['o', 'n']);
    assert(on_off_token(false) =~= seq!['o', 'f', 'f']);
}

/// The code 220 stands for the cursor of the history only with the
/// message `OK CURSOR SET FIRST`, whole or less its leading `OK `; with
/// any other message it stands for the notification of events.
pub proof fn code_220_is_told_by_its_message(message: Seq<char>, lines: Seq<Seq<char>>)
    ensures
        response_of(
            StatusLineView { code: OK_NOTIFICATION_SET, message: "OK CURSOR SET FIRST"@ },
            lines,
        ) == Ok::<ResponseView, ClientErrorView>(ResponseView::HistoryCurSetFirst),
        without_prefix(message, "OK "@) != "CURSOR SET FIRST"@ ==> response_of(
            StatusLineView { code: OK_NOTIFICATION_SET, message },
            lines,
        ) == Ok::<ResponseView, ClientErrorView>(ResponseView::NotificationSet),
{
    reveal_strlit("OK CURSOR SET FIRST");
    reveal_strlit("CURSOR SET FIRST");
    reveal_strlit("OK ");
    if without_prefix(message, "OK "@) != "CURSOR SET FIRST"@ {
        if message == "OK CURSOR SET FIRST"@ {
            assert("OK "@.is_prefix_of(message));
            assert(message.skip(3) =~= "CURSOR SET FIRST"@);
        }
        if message == "CURSOR SET FIRST"@ {
            assert(!"OK "@.is_prefix_of(message)) by {
                assert(message[0] == 'C');
                assert("OK "@[0] == 'O');
                assert(message.subrange(0, 3)[0] == message[0]);
            }
        }
    }
}

/// The event of an index mark holds exactly three lines, any other event
/// exactly two: a reply with more or fewer is no event.
pub proof fn events_hold_their_lines(code: ReturnCode, message: Seq<char>, lines: Seq<Seq<char>>)
    requires
        is_event_code(code),
    ensures
        event_lines(code) == (if code == EVENT_INDEX_MARK {
            3nat
        } else {
            2nat
        }),
        response_of(StatusLineView { code, message }, lines) is Ok <==> lines.len() == event_lines(
            code,
        ),
        event_of_reply(StatusLineView { code, message }, lines) is Ok <==> lines.len()
            == event_lines(code),
        lines.len() == event_lines(code) ==> event_of_reply(
            StatusLineView { code, message },
            lines,
        )->Ok_0.id == (EventIdView { message: lines[0], client: lines[1] }),
{
}

/// A line of a voice list is read as name, language and dialect, in this
/// order; the word `none` in the place of language or dialect says that
/// there is none.
pub proof fn voice_has_three_fields(name: Seq<char>, language: Seq<char>, dialect: Seq<char>)
    requires
        !occurs(name, '\t'),
        !occurs(language, '\t'),
        !occurs(dialect, '\t'),
    ensures
        voice_of(name + seq!['\t'] + language + seq!['\t'] + dialect) == (SynthesisVoiceView {
            name,
            language: if language == "none"@ {
                None
            } else {
                Some(language)
            },
            dialect: if dialect == "none"@ {
                None
            } else {
                Some(dialect)
            },
        }),
{
    let tab = seq!['\t'];
    let line = name + tab + language + tab + dialect;
    let second = language + tab + dialect;
    lemma_cut(name, '\t', second);
    assert(name + tab + second =~= line);
    lemma_cut(language, '\t', dialect);
    assert(split_limit(dialect, '\t', 2) =~= seq![dialect]);
    assert(split_limit(second, '\t', 3) =~= seq![language, dialect]);
    assert(split_limit(line, '\t', 4) =~= seq![name, language, dialect]);
}

/// A text that holds no `x`, then `x`, then anything: the first `x` is
/// the one in the middle.
pub proof fn lemma_cut<T>(head: Seq<T>, x: T, tail: Seq<T>)
    requires
        !occurs(head, x),
    ensures
        occurs(head + seq![x] + tail, x),
        position(head + seq![x] + tail, x) == head.len(),
        before(head + seq![x] + tail, x) == head,
        after(head + seq![x] + tail, x) == tail,
{
    let whole = head + seq![x] + tail;
    crate::text::lemma_position_bounds(head, x);
    assert forall|j: int| 0 <= j < head.len() implies whole[j] != x by {
        assert(whole[j] == head[j]);
    }
    assert(whole[head.len() as int] == x);
    lemma_position(whole, x, head.len() as int);
    assert(before(whole, x) =~= head);
    assert(after(whole, x) =~= tail);
}

/// The identifier of a message is read from a reply with the code 225 or
/// 242, as the number on its only line; a reply with any other code is
/// invalid data.
pub proof fn message_id_needs_its_code(status: StatusLineView, lines: Seq<Seq<char>>, id: u32)
    ensures
        status.code == OK_MESSAGE_QUEUED || status.code == OK_LAST_MSG ==> message_id_of(
            status,
            seq![decimal(id as nat)],
        ) == Ok::<u32, ClientErrorView>(id),
        status.code == OK_MESSAGE_QUEUED || status.code == OK_LAST_MSG ==> message_id_of(
            status,
            lines,
        ) == single_integer(lines),
        status.code != OK_MESSAGE_QUEUED && status.code != OK_LAST_MSG ==> message_id_of(
            status,
            lines,
        ) == Err::<u32, ClientErrorView>(invalid_data_failure("not a message id"@)),
{
    decimal_round_trip(id as nat, u32::MAX as nat);
}

/// A queue that the transport has blocked stays as it is: as long as no
/// byte is carried away, each attempt to send finds it blocked again, with
/// the same requests waiting.
pub proof fn blocked_queue_stays_blocked(queue: QueuedClientView)
    requires
        queue.sending() is Blocked,
    ensures
        queue.after_send_next() == queue,
        queue.after_send_next().sending() is Blocked,
{
}

/// Once the transport has carried away what was released to it, a request
/// that fits into the empty write side leaves the queue.
pub proof fn drained_queue_goes_on(queue: QueuedClientView)
    requires
        queue.requests.len() > 0,
        wire_bytes(queue.requests[0].wire_lines()).len() + queue.client.output.held.len()
            <= queue.client.output.limit,
    ensures
        queue.drained().sending() is Sent,
        queue.drained().after_send_next().requests == queue.requests.skip(1),
{
}

/// What is sent is released to the transport at once: nothing waits for a
/// flush.
pub proof fn sending_flushes(client: ClientView, lines: Seq<Seq<char>>)
    ensures
        client.written(lines).output.held == Seq::<u8>::empty(),
        client.written(lines).output.flushed == client.output.flushed + (client.output.held
            + wire_bytes(lines)),
        client.written(lines).input == client.input,
{
}

/// No byte of the UTF-8 form of a character is a line feed, but the one
/// byte of the line feed itself.
proof fn lemma_scalar_has_no_line_feed(scalar: u32)
    requires
        is_scalar(scalar),
        scalar != 10,
    ensures
        forall|j: int| 0 <= j < encode_scalar(scalar).len() ==> encode_scalar(scalar)[j] != LF,
{
    assert(forall|low: u8| #![auto] (0x80u8 | low) != 10u8) by (bit_vector);
    assert(forall|low: u8| #![auto] (0xC0u8 | low) != 10u8) by (bit_vector);
    assert(forall|low: u8| #![auto] (0xE0u8 | low) != 10u8) by (bit_vector);
    assert(forall|low: u8| #![auto] (0xF0u8 | low) != 10u8) by (bit_vector);
    if has_width_1_encoding(scalar) {
        assert((scalar & 0x7F) as u8 != 10u8) by (bit_vector)
            requires
                scalar <= 0x7F,
                scalar != 10,
        ;
    }
}

/// The UTF-8 form of a text without line feed holds no line feed byte.
pub proof fn lemma_encoding_has_no_line_feed(chars: Seq<char>)
    requires
        !occurs(chars, '\n'),
    ensures
        !occurs(encode_utf8(chars), LF),
        forall|j: int| 0 <= j < encode_utf8(chars).len() ==> encode_utf8(chars)[j] != LF,
    decreases chars.len(),
{
    let bytes = encode_utf8(chars);
    if chars.len() > 0 {
        let first = encode_scalar(chars[0] as u32);
        let rest = chars.drop_first();
        assert(chars.skip(1) =~= rest);
        assert(chars[0] != '\n');
        assert(!occurs(rest, '\n'));
        vstd::utf8::char_is_scalar(chars[0]);
        assert(chars[0] as u32 != 10) by {
            vstd::utf8::char_u32_cast(chars[0], chars[0] as u32);
            vstd::utf8::char_u32_cast('\n', 10u32);
        }
        lemma_scalar_has_no_line_feed(chars[0] as u32);
        lemma_encoding_has_no_line_feed(rest);
        assert forall|j: int| 0 <= j < bytes.len() implies bytes[j] != LF by {
            if j < first.len() {
                assert(bytes[j] == first[j]);
            } else {
                assert(bytes[j] == encode_utf8(rest)[j - first.len()]);
            }
        }
    }
    lemma_position(bytes, LF, bytes.len() as int);
}

/// The bytes of some lines begin with the bytes of the first line and the
/// end of a line.
pub proof fn lemma_wire_bytes_front(first: Seq<char>, rest: Seq<Seq<char>>)
    ensures
        wire_bytes(seq![first] + rest) == encode_utf8(first) + line_end() + wire_bytes(rest),
    decreases rest.len(),
{
    let lines = seq![first] + rest;
    if rest.len() == 0 {
        assert(lines.drop_last() =~= Seq::<Seq<char>>::empty());
        assert(lines.last() == first);
        assert(wire_bytes(lines.drop_last()) =~= Seq::<u8>::empty());
        assert(wire_bytes(rest) =~= Seq::<u8>::empty());
        assert(wire_bytes(lines) =~= encode_utf8(first) + line_end() + wire_bytes(rest));
    } else {
        lemma_wire_bytes_front(first, rest.drop_last());
        assert(lines.drop_last() =~= seq![first] + rest.drop_last());
        assert(lines.last() == rest.last());
        assert(wire_bytes(lines) =~= encode_utf8(first) + line_end() + wire_bytes(rest));
    }
}

/// A line without line feed is read back from its bytes: the reader
/// finds the end of the line, and what follows it.
pub proof fn lemma_first_line(line: Seq<char>, rest: Seq<u8>)
    requires
        !occurs(line, '\n'),
    ensures
        occurs(encode_utf8(line) + line_end() + rest, LF),
        strip_cr(before(encode_utf8(line) + line_end() + rest, LF)) == encode_utf8(line),
        after(encode_utf8(line) + line_end() + rest, LF) == rest,
        valid_utf8(encode_utf8(line)),
        decode_utf8(encode_utf8(line)) == line,
{
    let bytes = encode_utf8(line);
    let input = bytes + line_end() + rest;
    lemma_encoding_has_no_line_feed(line);
    let at = bytes.len() as int + 1;
    assert forall|j: int| 0 <= j < at implies input[j] != LF by {
        if j < bytes.len() {
            assert(input[j] == bytes[j]);
        } else {
            assert(input[j] == CR);
        }
    }
    assert(input[at] == LF);
    lemma_position(input, LF, at);
    assert(before(input, LF) =~= bytes.push(CR));
    assert(strip_cr(before(input, LF)) =~= bytes);
    assert(after(input, LF) =~= rest);
    vstd::utf8::encode_utf8_valid_utf8(line);
    vstd::utf8::encode_utf8_decode_utf8(line);
}

/// What is written is read back: the reader of lines finds, in the bytes
/// of some lines, the first line as it was written, and is left with the
/// bytes of the other lines. This holds of every line without line feed.
pub proof fn written_line_is_read_back(line: Seq<char>, more: Seq<Seq<char>>, rest: Seq<u8>)
    requires
        !occurs(line, '\n'),
    ensures
        next_line(wire_bytes(seq![line] + more) + rest) == Some(
            (Ok::<Seq<char>, ClientErrorView>(line), wire_bytes(more) + rest),
        ),
{
    lemma_wire_bytes_front(line, more);
    let following = wire_bytes(more) + rest;
    assert(wire_bytes(seq![line] + more) + rest =~= encode_utf8(line) + line_end() + following);
    lemma_first_line(line, following);
}

/// The three digits of a code below 1000.
pub open spec fn code_digits(code: ReturnCode) -> Seq<char> {
    seq![
        digit_char((code / 100) as nat),
        digit_char((code / 10 % 10) as nat),
        digit_char((code % 10) as nat),
    ]
}

/// A line of a reply as the server writes it: the digits of the code, a
/// space on the status line or a dash on a continuation line, and the
/// text.
pub open spec fn reply_line(code: ReturnCode, last: bool, text: Seq<char>) -> Seq<char> {
    code_digits(code) + seq![
        if last {
            ' '
        } else {
            '-'
        },
    ] + text
}

/// The lines of a reply as the server writes it: one continuation line
/// for each line of the payload, then the status line.
pub open spec fn reply_lines(code: ReturnCode, payload: Seq<Seq<char>>, message: Seq<char>) -> Seq<
    Seq<char>,
> {
    Seq::new(payload.len(), |i: int| reply_line(code, false, payload[i])).push(
        reply_line(code, true, message),
    )
}

/// A line of a reply is taken apart into what it was made of.
pub proof fn line_round_trip(code: ReturnCode, last: bool, text: Seq<char>)
    requires
        code < 1000,
    ensures
        line_of(reply_line(code, last, text)) == Ok::<LineView, ClientErrorView>(
            LineView { code, last, text },
        ),
{
    let line = reply_line(code, last, text);
    let hundreds = (code / 100) as nat;
    let tens = (code / 10 % 10) as nat;
    let units = (code % 10) as nat;
    lemma_digit_char(hundreds);
    lemma_digit_char(tens);
    lemma_digit_char(units);
    assert(line.len() >= 4);
    assert(line[0] == digit_char(hundreds));
    assert(line[1] == digit_char(tens));
    assert(line[2] == digit_char(units));
    assert(line.skip(4) =~= text);
    assert(hundreds * 100 + tens * 10 + units == code);
    assert(code_of(line[0], line[1], line[2]) == code);
}

/// The character of a digit is a digit, and has the value of that digit.
pub proof fn lemma_digit_char(d: nat)
    requires
        d < 10,
    ensures
        is_digit(digit_char(d)),
        digit_value(digit_char(d)) == d,
{
}

/// A reply is read back from its bytes, whatever follows them: the texts
/// of its continuation lines are added to those that the caller holds, in
/// their order, its status line is read as a success or a failure by its
/// code, and what follows the reply is left. This holds of every code of
/// three digits and of every text without line feed.
pub proof fn reply_round_trip(
    code: ReturnCode,
    payload: Seq<Seq<char>>,
    message: Seq<char>,
    held: Seq<Seq<char>>,
    rest: Seq<u8>,
)
    requires
        code < 1000,
        forall|i: int| 0 <= i < payload.len() ==> !occurs(#[trigger] payload[i], '\n'),
        !occurs(message, '\n'),
    ensures
        frame_of(wire_bytes(reply_lines(code, payload, message)) + rest, true, held) == (
        Frame::Complete { outcome: status_of(code, message), lines: held + payload, rest }),
    decreases payload.len(),
{
    let lines = reply_lines(code, payload, message);
    let first = lines[0];
    let tail = lines.skip(1);
    assert(lines =~= seq![first] + tail);
    lemma_wire_bytes_front(first, tail);
    let following = wire_bytes(tail) + rest;
    let input = wire_bytes(lines) + rest;
    assert(input =~= encode_utf8(first) + line_end() + following);
    if payload.len() == 0 {
        assert(first == reply_line(code, true, message));
        assert(!occurs(first, '\n')) by {
            lemma_line_has_no_line_feed(code, true, message);
        }
        lemma_first_line(first, following);
        line_round_trip(code, true, message);
        assert(tail =~= Seq::<Seq<char>>::empty());
        assert(following =~= rest);
        assert(held + payload =~= held);
    } else {
        assert(first == reply_line(code, false, payload[0]));
        assert(!occurs(first, '\n')) by {
            lemma_line_has_no_line_feed(code, false, payload[0]);
        }
        lemma_first_line(first, following);
        line_round_trip(code, false, payload[0]);
        let fewer = payload.skip(1);
        assert(tail =~= reply_lines(code, fewer, message));
        reply_round_trip(code, fewer, message, held.push(payload[0]), rest);
        assert(held.push(payload[0]) + fewer =~= held + payload);
    }
}

/// A line of a reply holds a line feed only in its text.
proof fn lemma_line_has_no_line_feed(code: ReturnCode, last: bool, text: Seq<char>)
    requires
        !occurs(text, '\n'),
    ensures
        !occurs(reply_line(code, last, text), '\n'),
{
    let line = reply_line(code, last, text);
    crate::text::lemma_position_bounds(text, '\n');
    assert forall|j: int| 0 <= j < line.len() implies line[j] != '\n' by {
        if j >= 4 {
            assert(line[j] == text[j - 4]);
        }
    }
    lemma_position(line, '\n', line.len() as int);
}

/// The reply `NNN-a`, `NNN-b`, `NNN OK X`, each line ended by CR LF, is
/// read as the lines `a` and `b` and the status `NNN` with the message
/// `X`, for every code that reports no failure.
pub proof fn multi_line_reply(code: ReturnCode, a: Seq<char>, b: Seq<char>, x: Seq<char>)
    requires
        code < 1000,
        !is_error_code(code),
        !occurs(a, '\n'),
        !occurs(b, '\n'),
        !occurs(x, '\n'),
    ensures
        frame_of(
            encode_utf8(code_digits(code) + seq!['-'] + a) + seq![CR, LF] + encode_utf8(
                code_digits(code) + seq!['-'] + b,
            ) + seq![CR, LF] + encode_utf8(code_digits(code) + seq![' '] + ("OK "@ + x)) + seq![
                CR,
                LF,
            ],
            true,
            Seq::empty(),
        ) == (Frame::Complete {
            outcome: Ok(StatusLineView { code, message: x }),
            lines: seq![a, b],
            rest: Seq::empty(),
        }),
{
    let payload = seq![a, b];
    let message = "OK "@ + x;
    let first = reply_line(code, false, a);
    let second = reply_line(code, false, b);
    let third = reply_line(code, true, message);
    let lines = reply_lines(code, payload, message);
    assert(lines =~= seq![first] + (seq![second] + seq![third]));
    lemma_wire_bytes_front(first, seq![second] + seq![third]);
    lemma_wire_bytes_front(second, seq![third]);
    lemma_wire_bytes_front(third, Seq::empty());
    assert(seq![third] + Seq::<Seq<char>>::empty() =~= seq![third]);
    let bytes = encode_utf8(first) + seq![CR, LF] + encode_utf8(second) + seq![CR, LF]
        + encode_utf8(third) + seq![CR, LF];
    assert(wire_bytes(lines) + Seq::<u8>::empty() =~= bytes);
    reveal_strlit("OK ");
    assert(!occurs(message, '\n')) by {
        crate::text::lemma_position_bounds(x, '\n');
        assert forall|j: int| 0 <= j < message.len() implies message[j] != '\n' by {
            if j >= 3 {
                assert(message[j] == x[j - 3]);
            }
        }
        lemma_position(message, '\n', message.len() as int);
    }
    reply_round_trip(code, payload, message, Seq::empty(), Seq::empty());
    assert("OK "@.is_prefix_of(message)) by {
        assert(message.subrange(0, 3) =~= "OK "@);
    }
    assert(without_prefix(message, "OK "@) =~= x);
    assert(Seq::<Seq<char>>::empty() + payload =~= payload);
}

/// A line of a client list is read as identifier, name and connection, in
/// this order: the identifier in decimal notation, the name as it stands,
/// and `0` or `1` for a client that is not, or is, connected.
pub proof fn history_client_has_three_fields(id: u32, name: Seq<char>, connected: bool)
    requires
        !occurs(name, ' '),
    ensures
        history_client_of(
            decimal(id as nat) + seq![' '] + name + seq![' '] + seq![
                if connected {
                    '1'
                } else {
                    '0'
                },
            ],
        ) == Ok::<HistoryClientStatusView, ClientErrorView>(
            HistoryClientStatusView { id, name, connected },
        ),
{
    let digits = decimal(id as nat);
    let space = seq![' '];
    let status = seq![
        if connected {
            '1'
        } else {
            '0'
        },
    ];
    let line = digits + space + name + space + status;
    let second = name + space + status;
    lemma_decimal_digits(id as nat);
    assert(!occurs(digits, ' ')) by {
        assert forall|j: int| 0 <= j < digits.len() implies digits[j] != ' ' by {
            assert(is_digit(digits[j]));
        }
        lemma_position(digits, ' ', digits.len() as int);
    }
    lemma_cut(digits, ' ', second);
    assert(digits + space + second =~= line);
    lemma_cut(name, ' ', status);
    assert(name + space + status =~= second);
    assert(split_limit(status, ' ', 1) =~= seq![status]);
    assert(split_limit(second, ' ', 2) =~= seq![name, status]);
    assert(split_limit(line, ' ', 3) =~= seq![digits, name, status]);
    decimal_round_trip(id as nat, u32::MAX as nat);
    reveal_strlit("0");
    reveal_strlit("1");
    assert(connected ==> status =~= "1"@);
    assert(!connected ==> status =~= "0"@);
    assert(!(status =~= "0"@ && status =~= "1"@)) by {
        assert("0"@[0] == '0');
        assert("1"@[0] == '1');
    }
}

/// The identifier of a queued message is read from the bytes of the
/// reply that carries it, whatever the identifier and the message of the
/// status line.
pub proof fn message_id_is_read_from_its_reply(id: u32, message: Seq<char>, rest: Seq<u8>)
    requires
        !occurs(message, '\n'),
    ensures
        reply_then(
            frame_of(
                wire_bytes(reply_lines(OK_MESSAGE_QUEUED, seq![decimal(id as nat)], message))
                    + rest,
                true,
                Seq::empty(),
            ),
            |status: StatusLineView, lines: Seq<Seq<char>>| message_id_of(status, lines),
        ) == Ok::<u32, ClientErrorView>(id),
{
    let digits = decimal(id as nat);
    lemma_decimal_digits(id as nat);
    assert(!occurs(digits, '\n')) by {
        assert forall|j: int| 0 <= j < digits.len() implies digits[j] != '\n' by {
            assert(is_digit(digits[j]));
        }
        lemma_position(digits, '\n', digits.len() as int);
    }
    reply_round_trip(OK_MESSAGE_QUEUED, seq![digits], message, Seq::empty(), rest);
    assert(Seq::<Seq<char>>::empty() + seq![digits] =~= seq![digits]);
    decimal_round_trip(id as nat, u32::MAX as nat);
}

} // verus!
