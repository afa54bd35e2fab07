use ssip_client::client::Client;
use ssip_client::constants::{
    OK_BYE, OK_DEBUG_SET, OK_GET, OK_LANGUAGE_SET, OK_MESSAGE_QUEUED, OK_MSG_TEXT_SENT,
    OK_RECEIVING_DATA,
};
use ssip_client::error::{ClientError, ErrorKind};
use ssip_client::request::Request;
use ssip_client::response::Response;
use ssip_client::stream::{InputBuffer, OutputBuffer};
use ssip_client::types::{
    CapitalLettersRecognitionMode, ClientName, ClientScope, CursorDirection, Event, EventId,
    EventType, HistoryClientStatus, HistoryPosition, KeyName, MessageOrdering, MessageScope,
    NotificationType, Priority, PunctuationMode, SortDirection, SortKey, SynthesisVoice,
};

/// Runs the client against a scripted server. The communication is a list
/// of (questions, answer): the answers wait on the read side, the client
/// registers its name and runs `process`, and the server then finds its
/// questions, and nothing else, in what the client has written.
fn test_client<F>(communication: &[(&str, &str)], mut process: F)
where
    F: FnMut(&mut Client),
{
    let mut client = Client::new(InputBuffer::new(), OutputBuffer::new());
    for (_, answer) in communication.iter() {
        client.feed(answer.as_bytes());
    }
    client
        .set_client_name(ClientName::new("test", "test"))
        .unwrap()
        .check_client_name_set()
        .unwrap();
    process(&mut client);
    let mut questions = String::new();
    for (question, _) in communication.iter() {
        questions.push_str(question);
    }
    assert_eq!(questions, String::from_utf8(client.take_output()).unwrap());
}

const SET_CLIENT_COMMUNICATION: (&str, &str) =
    ("SET self CLIENT_NAME test:test:main\r\n", "208 OK CLIENT NAME SET\r\n");

fn connect_and_quit_on(communication: &[(&str, &str)]) {
    test_client(communication, |client| {
        client.quit().unwrap().check_status(OK_BYE).unwrap();
    });
}

#[test]
fn synchronous_tests_connect_and_quit() {
    connect_and_quit_on(&[SET_CLIENT_COMMUNICATION, ("QUIT\r\n", "231 HAPPY HACKING\r\n")]);
}

#[test]
fn fifo_sync_tests_connect_and_quit() {
    connect_and_quit_on(&[SET_CLIENT_COMMUNICATION, ("QUIT\r\n", "231 HAPPY HACKING\r\n")]);
}

#[test]
fn fifo_client_tests_connect_and_quit() {
    test_client(
        &[SET_CLIENT_COMMUNICATION, ("QUIT\r\n", "231 HAPPY HACKING\r\n")],
        |client| {
            assert_eq!(Response::Bye, client.quit().unwrap().receive().unwrap());
        },
    );
}

#[test]
fn unix_connect_and_quit() {
    test_client(
        &[SET_CLIENT_COMMUNICATION, ("QUIT\r\n", "231 HAPPY HACKING\r\n")],
        |client| {
            let mut lines = Vec::new();
            client.quit().unwrap();
            let status = ssip_client::protocol::receive_answer(
                &mut InputBuffer::from_bytes(client.input_source().as_bytes()),
                Some(&mut lines),
            )
            .unwrap();
            assert_eq!(OK_BYE, status.code);
            client.check_status(OK_BYE).unwrap();
        },
    );
}

fn say_one_line_on(communication: &[(&str, &str)]) {
    test_client(communication, |client| {
        assert_eq!(
            21,
            client
                .speak()
                .unwrap()
                .check_status(OK_RECEIVING_DATA)
                .unwrap()
                .send_line("Hello, world")
                .unwrap()
                .receive_message_id()
                .unwrap()
        );
    });
}

const SAY_ONE_LINE: [(&str, &str); 3] = [
    SET_CLIENT_COMMUNICATION,
    ("SPEAK\r\n", "230 OK RECEIVING DATA\r\n"),
    ("Hello, world\r\n.\r\n", "225-21\r\n225 OK MESSAGE QUEUED\r\n"),
];

#[test]
fn synchronous_tests_say_one_line() {
    say_one_line_on(&SAY_ONE_LINE);
}

#[test]
fn fifo_sync_tests_say_one_line() {
    say_one_line_on(&SAY_ONE_LINE);
}

#[test]
fn fifo_client_tests_say_one_line() {
    test_client(&SAY_ONE_LINE, |client| {
        client.speak().unwrap().check_receiving_data().unwrap();
        let lines = client.send_line("Hello, world").unwrap().receive_lines(OK_MESSAGE_QUEUED);
        assert_eq!(vec!["21"], lines.unwrap());
    });
}

#[test]
fn speak_one_line() {
    test_client(
        &[
            SET_CLIENT_COMMUNICATION,
            ("SPEAK\r\n", "230 OK RECEIVING DATA\r\n"),
            ("Hello, world\r\n.\r\n", "225 OK MESSAGE QUEUED\r\n"),
        ],
        |client| {
            client.speak().unwrap().check_receiving_data().unwrap();
            client
                .send_lines(&[String::from("Hello, world")])
                .unwrap()
                .check_status(OK_MESSAGE_QUEUED)
                .unwrap();
        },
    );
}

#[test]
fn speak_several_lines() {
    test_client(
        &[
            SET_CLIENT_COMMUNICATION,
            ("SPEAK\r\n", "230 OK RECEIVING DATA\r\n"),
            ("one\r\ntwo\r\n\r\nthree\r\n.\r\n", "225-22\r\n225 OK MESSAGE QUEUED\r\n"),
            ("SPEAK\r\n", "230 OK RECEIVING DATA\r\n"),
            (".\r\n", "225-23\r\n225 OK MESSAGE QUEUED\r\n"),
        ],
        |client| {
            let lines: Vec<String> =
                ["one", "two", "", "three"].iter().map(|s| s.to_string()).collect();
            client.speak().unwrap().check_receiving_data().unwrap();
            assert_eq!(22, client.send_lines(&lines).unwrap().receive_message_id().unwrap());
            client.speak().unwrap().check_receiving_data().unwrap();
            assert_eq!(
                Response::MessageQueued(23),
                client.send(Request::SendLines(Vec::new())).unwrap().receive().unwrap()
            );
        },
    );
}

fn set_debug_on(communication: &[(&str, &str)]) {
    test_client(communication, |client| {
        let output = client.set_debug(true).unwrap().receive_string(OK_DEBUG_SET).unwrap();
        assert_eq!("/run/user/100/speech-dispatcher/log/debug", output);
    });
}

const SET_DEBUG: [(&str, &str); 2] = [
    SET_CLIENT_COMMUNICATION,
    (
        "SET all DEBUG on\r\n",
        "262-/run/user/100/speech-dispatcher/log/debug\r\n262 OK DEBUGGING SET\r\n",
    ),
];

#[test]
fn synchronous_tests_set_debug() {
    set_debug_on(&SET_DEBUG);
}

#[test]
fn fifo_sync_tests_set_debug() {
    set_debug_on(&SET_DEBUG);
}

#[test]
fn fifo_client_tests_set_debug() {
    test_client(&SET_DEBUG, |client| {
        let output = client.set_debug(true).unwrap().receive_lines(OK_DEBUG_SET).unwrap();
        assert_eq!(vec!["/run/user/100/speech-dispatcher/log/debug"], output);
    });
}

fn list_synthesis_voices_on(communication: &[(&str, &str)]) {
    test_client(communication, |client| {
        let voices = client.list_synthesis_voices().unwrap().receive_synthesis_voices().unwrap();
        let expected_voices: [SynthesisVoice; 3] = [
            SynthesisVoice::new("Amharic", Some("am"), None),
            SynthesisVoice::new("Greek+Auntie", Some("el"), Some("Auntie")),
            SynthesisVoice::new("Vietnamese (Southern)+shelby", Some("vi-VN-X-SOUTH"), Some("shelby")),
        ];
        assert_eq!(expected_voices.len(), voices.len());
        for (expected, found) in expected_voices.iter().zip(voices.iter()) {
            assert_eq!(*expected, *found);
        }
    });
}

const LIST_SYNTHESIS_VOICES: [(&str, &str); 2] = [
    SET_CLIENT_COMMUNICATION,
    (
        "LIST SYNTHESIS_VOICES\r\n",
        "249-Amharic\tam\tnone\r\n249-Greek+Auntie\tel\tAuntie\r\n249-Vietnamese (Southern)+shelby\tvi-VN-X-SOUTH\tshelby\r\n249 OK VOICE LIST SENT\r\n",
    ),
];

#[test]
fn synchronous_tests_list_synthesis_voices() {
    list_synthesis_voices_on(&LIST_SYNTHESIS_VOICES);
}

#[test]
fn fifo_sync_tests_list_synthesis_voices() {
    list_synthesis_voices_on(&LIST_SYNTHESIS_VOICES);
}

#[test]
fn fifo_client_tests_list_synthesis_voices() {
    test_client(&LIST_SYNTHESIS_VOICES, |client| {
        match client.list_synthesis_voices().unwrap().receive().unwrap() {
            Response::VoicesListSent(voices) => {
                assert_eq!(3, voices.len());
                assert_eq!(SynthesisVoice::new("Amharic", Some("am"), None), voices[0]);
                assert_eq!(SynthesisVoice::new("Greek+Auntie", Some("el"), Some("Auntie")), voices[1]);
                assert_eq!(
                    SynthesisVoice::new(
                        "Vietnamese (Southern)+shelby",
                        Some("vi-VN-X-SOUTH"),
                        Some("shelby")
                    ),
                    voices[2]
                );
            }
            other => panic!("unexpected response: {:?}", other),
        }
    });
}

fn receive_notification_on(communication: &[(&str, &str)]) {
    test_client(communication, |client| {
        assert_eq!(
            21,
            client
                .speak()
                .unwrap()
                .check_receiving_data()
                .unwrap()
                .send_line("Hello, world")
                .unwrap()
                .receive_message_id()
                .unwrap()
        );
        match client.receive_event() {
            Ok(Event { ntype: EventType::Begin, .. }) => (),
            Ok(_) => panic!("wrong event"),
            Err(_) => panic!("error on event"),
        }
    });
}

const RECEIVE_NOTIFICATION: [(&str, &str); 3] = [
    SET_CLIENT_COMMUNICATION,
    ("SPEAK\r\n", "230 OK RECEIVING DATA\r\n"),
    (
        "Hello, world\r\n.\r\n",
        "225-21\r\n225 OK MESSAGE QUEUED\r\n701-21\r\n701-test\r\n701 BEGIN\r\n",
    ),
];

#[test]
fn synchronous_tests_receive_notification() {
    receive_notification_on(&RECEIVE_NOTIFICATION);
}

#[test]
fn fifo_sync_tests_receive_notification() {
    receive_notification_on(&RECEIVE_NOTIFICATION);
}

#[test]
fn fifo_client_tests_receive_notification() {
    test_client(&RECEIVE_NOTIFICATION, |client| {
        client.speak().unwrap().check_receiving_data().unwrap();
        assert_eq!(
            Response::MessageQueued(21),
            client.send_line("Hello, world").unwrap().receive().unwrap()
        );
        assert_eq!(Response::EventBegin(EventId::new("21", "test")), client.receive().unwrap());
    });
}

#[test]
fn history_clients_list() {
    test_client(
        &[
            SET_CLIENT_COMMUNICATION,
            (
                "HISTORY GET CLIENT_LIST\r\n",
                "240-0 joe:speechd_client:main 0\r\n240-1 joe:speechd_client:status 0\r\n240-2 unknown:unknown:unknown 1\r\n240 OK CLIENTS LIST SENT\r\n",
            ),
        ],
        |client| {
            let statuses = client.history_get_clients().unwrap().receive_history_clients().unwrap();
            let expected_statuses: [HistoryClientStatus; 3] = [
                HistoryClientStatus::new(0, "joe:speechd_client:main", false),
                HistoryClientStatus::new(1, "joe:speechd_client:status", false),
                HistoryClientStatus::new(2, "unknown:unknown:unknown", true),
            ];
            assert_eq!(expected_statuses.len(), statuses.len());
            for (expected, found) in expected_statuses.iter().zip(statuses.iter()) {
                assert_eq!(*expected, *found);
            }
        },
    );
}

/// One question and its answer, after the client has registered.
fn exchange<F>(question: &str, answer: &str, process: F)
where
    F: FnMut(&mut Client),
{
    test_client(&[SET_CLIENT_COMMUNICATION, (question, answer)], process);
}

#[test]
fn set_priority() {
    exchange("SET self PRIORITY important\r\n", "202 OK PRIORITY SET\r\n", |client| {
        client.set_priority(Priority::Important).unwrap().check_status(202).unwrap();
    });
}

#[test]
fn set_output_module() {
    exchange("SET self OUTPUT_MODULE espeak-ng\r\n", "216 OK OUTPUT MODULE SET\r\n", |client| {
        client
            .set_output_module(ClientScope::Current, "espeak-ng")
            .unwrap()
            .check_status(216)
            .unwrap();
    });
}

#[test]
fn get_output_module() {
    exchange("GET OUTPUT_MODULE\r\n", "251-espeak-ng\r\n251 OK GET RETURNED\r\n", |client| {
        let value = client.get_output_module().unwrap().receive_string(OK_GET).unwrap();
        assert_eq!("espeak-ng", value);
    });
}

#[test]
fn list_output_modules() {
    exchange(
        "LIST OUTPUT_MODULES\r\n",
        "250-espeak-ng\r\n250-festival\r\n250 OK MODULE LIST SENT\r\n",
        |client| {
            let values = client.list_output_modules().unwrap().receive_lines(250).unwrap();
            assert_eq!(&["espeak-ng", "festival"], values.as_slice());
        },
    );
}

#[test]
fn set_language() {
    exchange("SET self LANGUAGE en\r\n", "201 OK LANGUAGE SET\r\n", |client| {
        client.set_language(ClientScope::Current, "en").unwrap().check_status(201).unwrap();
    });
}

#[test]
fn get_language() {
    exchange("GET LANGUAGE\r\n", "251-fr\r\n251 OK GET RETURNED\r\n", |client| {
        let value = client.get_language().unwrap().receive_string(OK_GET).unwrap();
        assert_eq!("fr", value);
    });
}

#[test]
fn set_rate() {
    exchange("SET self RATE 15\r\n", "203 OK RATE SET\r\n", |client| {
        client.set_rate(ClientScope::Current, 15).unwrap().check_status(203).unwrap();
    });
}

#[test]
fn get_rate() {
    exchange("GET RATE\r\n", "251-0\r\n251 OK GET RETURNED\r\n", |client| {
        let value = client.get_rate().unwrap().receive_i8().unwrap();
        assert_eq!(0, value);
    });
}

#[test]
fn set_volume() {
    exchange("SET self VOLUME 80\r\n", "218 OK VOLUME SET\r\n", |client| {
        client.set_volume(ClientScope::Current, 80).unwrap().check_status(218).unwrap();
    });
}

#[test]
fn get_volume() {
    exchange("GET VOLUME\r\n", "251-100\r\n251 OK GET RETURNED\r\n", |client| {
        let value = client.get_volume().unwrap().receive_i8().unwrap();
        assert_eq!(100, value);
    });
}

#[test]
fn get_pitch() {
    exchange("GET PITCH\r\n", "251-0\r\n251 OK GET RETURNED\r\n", |client| {
        let value = client.get_pitch().unwrap().receive_i8().unwrap();
        assert_eq!(0, value);
    });
}

#[test]
fn set_pitch() {
    exchange("SET self PITCH 10\r\n", "204 OK PITCH SET\r\n", |client| {
        client.set_pitch(ClientScope::Current, 10).unwrap().check_status(204).unwrap();
    });
}

#[test]
fn set_ssml_mode() {
    exchange("SET self SSML_MODE on\r\n", "219 OK SSML MODE SET\r\n", |client| {
        client.set_ssml_mode(true).unwrap().check_status(219).unwrap();
    });
}

#[test]
fn set_spelling() {
    exchange("SET self SPELLING on\r\n", "207 OK SPELLING SET\r\n", |client| {
        client.set_spelling(ClientScope::Current, true).unwrap().check_status(207).unwrap();
    });
}

#[test]
fn set_punctuation_mode() {
    exchange("SET self PUNCTUATION all\r\n", "205 OK PUNCTUATION SET\r\n", |client| {
        client
            .set_punctuation_mode(ClientScope::Current, PunctuationMode::All)
            .unwrap()
            .check_status(205)
            .unwrap();
    });
}

#[test]
fn set_capital_letter_recogn() {
    exchange("SET self CAP_LET_RECOGN spell\r\n", "206 OK CAP LET RECOGNITION SET\r\n", |client| {
        client
            .set_capital_letter_recogn(ClientScope::Current, CapitalLettersRecognitionMode::Spell)
            .unwrap()
            .check_status(206)
            .unwrap();
    });
}

#[test]
fn get_voice_type() {
    exchange("GET VOICE_TYPE\r\n", "251-MALE1\r\n251 OK GET RETURNED\r\n", |client| {
        let value = client.get_voice_type().unwrap().receive_string(OK_GET).unwrap();
        assert_eq!("MALE1", value);
    });
}

#[test]
fn set_voice_type() {
    exchange("SET self VOICE_TYPE FEMALE1\r\n", "209 OK VOICE SET\r\n", |client| {
        client.set_voice_type(ClientScope::Current, "FEMALE1").unwrap().check_status(209).unwrap();
    });
}

#[test]
fn list_voice_types() {
    exchange(
        "LIST VOICES\r\n",
        "249-MALE1\r\n249-MALE2\r\n249-FEMALE1\r\n249-FEMALE2\r\n249-CHILD_MALE\r\n249-CHILD_FEMALE\r\n249 OK VOICE LIST SENT\r\n",
        |client| {
            let values = client.list_voice_types().unwrap().receive_lines(249).unwrap();
            assert_eq!(
                &["MALE1", "MALE2", "FEMALE1", "FEMALE2", "CHILD_MALE", "CHILD_FEMALE"],
                values.as_slice()
            );
        },
    );
}

#[test]
fn history_get_client_id() {
    exchange("HISTORY GET CLIENT_ID\r\n", "245-123\r\n245 OK CLIENT ID SENT\r\n", |client| {
        let value = client.history_get_client_id().unwrap().receive_client_id().unwrap();
        assert_eq!(123, value);
    });
}

#[test]
fn history_get_last() {
    exchange("HISTORY GET LAST\r\n", "242-123\r\n242 OK LAST MSG SAID\r\n", |client| {
        let value = client.history_get_last().unwrap().receive_message_id().unwrap();
        assert_eq!(123, value);
    });
}

#[test]
fn history_get_message() {
    exchange(
        "HISTORY GET MESSAGE 123\r\n",
        "246-Hello, world!\r\n246 OK MESSAGE SENT\r\n",
        |client| {
            let value =
                client.history_get_message(123).unwrap().receive_string(OK_MSG_TEXT_SENT).unwrap();
            assert_eq!("Hello, world!", value);
        },
    );
}

#[test]
fn history_get_cursor() {
    exchange(
        "HISTORY CURSOR GET\r\n",
        "243-42\r\n243 OK CURSOR POSITION RETURNED\r\n",
        |client| {
            let value = client.history_get_cursor().unwrap().receive_cursor_pos().unwrap();
            assert_eq!(42, value);
        },
    );
}

#[test]
fn set_rate_is_clamped() {
    let mut client = Client::new(InputBuffer::new(), OutputBuffer::new());
    client.set_rate(ClientScope::Current, 127).unwrap();
    assert_eq!("SET self RATE 100\r\n".as_bytes(), client.take_output().as_slice());
    client.set_rate(ClientScope::Current, -128).unwrap();
    assert_eq!("SET self RATE -100\r\n".as_bytes(), client.take_output().as_slice());
    client.set_rate(ClientScope::All, 101).unwrap().set_rate(ClientScope::Client(3), -101).unwrap();
    assert_eq!(
        "SET all RATE 100\r\nSET 3 RATE -100\r\n".as_bytes(),
        client.take_output().as_slice()
    );
    client.set_pitch(ClientScope::Current, 100).unwrap().set_pitch(ClientScope::Current, -100).unwrap();
    assert_eq!(
        "SET self PITCH 100\r\nSET self PITCH -100\r\n".as_bytes(),
        client.take_output().as_slice()
    );
    client.set_volume(ClientScope::Current, 120).unwrap().set_volume(ClientScope::Current, -7).unwrap();
    assert_eq!(
        "SET self VOLUME 100\r\nSET self VOLUME -7\r\n".as_bytes(),
        client.take_output().as_slice()
    );
    client.set_pitch(ClientScope::Current, 0).unwrap().set_volume(ClientScope::Current, 99).unwrap();
    assert_eq!(
        "SET self PITCH 0\r\nSET self VOLUME 99\r\n".as_bytes(),
        client.take_output().as_slice()
    );
}

/// The bytes that the client writes for `request`.
fn wire(request: Request) -> String {
    let mut client = Client::new(InputBuffer::new(), OutputBuffer::new());
    client.send(request).unwrap();
    String::from_utf8(client.take_output()).unwrap()
}

#[test]
fn every_request_has_its_command_line() {
    let scope = ClientScope::Current;
    let cases: Vec<(Request, &str)> = vec![
        (Request::SetName(ClientName::new("joe", "hello")), "SET self CLIENT_NAME joe:hello:main\r\n"),
        (
            Request::SetName(ClientName::with_component("joe", "hello", "status")),
            "SET self CLIENT_NAME joe:hello:status\r\n",
        ),
        (Request::Speak, "SPEAK\r\n"),
        (Request::SendLine(String::from("Hello")), "Hello\r\n.\r\n"),
        (
            Request::SendLines(vec![String::from("Hello"), String::from("world")]),
            "Hello\r\nworld\r\n.\r\n",
        ),
        (Request::SendLines(Vec::new()), ".\r\n"),
        (Request::SpeakChar('a'), "CHAR a\r\n"),
        (Request::SpeakChar('é'), "CHAR é\r\n"),
        (Request::SpeakKey(KeyName::KpEnter), "KEY kp-enter\r\n"),
        (Request::SpeakKey(KeyName::DoubleQuote), "KEY double-quote\r\n"),
        (Request::Stop(MessageScope::Last), "STOP self\r\n"),
        (Request::Cancel(MessageScope::All), "CANCEL all\r\n"),
        (Request::Pause(MessageScope::Message(12)), "PAUSE 12\r\n"),
        (Request::Resume(MessageScope::Last), "RESUME self\r\n"),
        (Request::SetPriority(Priority::Progress), "SET self PRIORITY progress\r\n"),
        (Request::SetPriority(Priority::Notification), "SET self PRIORITY notification\r\n"),
        (Request::SetPriority(Priority::Message), "SET self PRIORITY message\r\n"),
        (Request::SetPriority(Priority::Text), "SET self PRIORITY text\r\n"),
        (Request::SetPriority(Priority::Important), "SET self PRIORITY important\r\n"),
        (Request::SetDebug(true), "SET all DEBUG on\r\n"),
        (Request::SetDebug(false), "SET all DEBUG off\r\n"),
        (
            Request::SetOutputModule(ClientScope::All, String::from("festival")),
            "SET all OUTPUT_MODULE festival\r\n",
        ),
        (Request::GetOutputModule, "GET OUTPUT_MODULE\r\n"),
        (Request::ListOutputModules, "LIST OUTPUT_MODULES\r\n"),
        (Request::SetLanguage(ClientScope::Client(7), String::from("fr")), "SET 7 LANGUAGE fr\r\n"),
        (Request::GetLanguage, "GET LANGUAGE\r\n"),
        (Request::SetSsmlMode(true), "SET self SSML_MODE on\r\n"),
        (Request::SetSsmlMode(false), "SET self SSML_MODE off\r\n"),
        (
            Request::SetPunctuationMode(scope, PunctuationMode::Off),
            "SET self PUNCTUATION none\r\n",
        ),
        (
            Request::SetPunctuationMode(scope, PunctuationMode::Partial),
            "SET self PUNCTUATION some\r\n",
        ),
        (
            Request::SetPunctuationMode(scope, PunctuationMode::Most),
            "SET self PUNCTUATION most\r\n",
        ),
        (Request::SetSpelling(scope, true), "SET self SPELLING on\r\n"),
        (Request::SetSpelling(ClientScope::All, false), "SET all SPELLING off\r\n"),
        (
            Request::SetCapitalLettersRecognitionMode(scope, CapitalLettersRecognitionMode::Off),
            "SET self CAP_LET_RECOGN none\r\n",
        ),
        (
            Request::SetCapitalLettersRecognitionMode(scope, CapitalLettersRecognitionMode::Icon),
            "SET self CAP_LET_RECOGN icon\r\n",
        ),
        (Request::SetVoiceType(scope, String::from("MALE1")), "SET self VOICE_TYPE MALE1\r\n"),
        (Request::GetVoiceType, "GET VOICE_TYPE\r\n"),
        (Request::ListVoiceTypes, "LIST VOICES\r\n"),
        (
            Request::SetSynthesisVoice(scope, String::from("Greek+Auntie")),
            "SET self SYNTHESIS_VOICE Greek+Auntie\r\n",
        ),
        (Request::ListSynthesisVoices, "LIST SYNTHESIS_VOICES\r\n"),
        (Request::SetRate(scope, 15), "SET self RATE 15\r\n"),
        (Request::GetRate, "GET RATE\r\n"),
        (Request::SetPitch(scope, -15), "SET self PITCH -15\r\n"),
        (Request::GetPitch, "GET PITCH\r\n"),
        (Request::SetVolume(scope, 0), "SET self VOLUME 0\r\n"),
        (Request::GetVolume, "GET VOLUME\r\n"),
        (Request::SetPauseContext(scope, 3), "SET self PAUSE_CONTEXT 3\r\n"),
        (
            Request::SetPauseContext(scope, u32::MAX),
            "SET self PAUSE_CONTEXT 4294967295\r\n",
        ),
        (
            Request::SetNotification(NotificationType::IndexMark, true),
            "SET self NOTIFICATION index_mark on\r\n",
        ),
        (
            Request::SetNotification(NotificationType::All, false),
            "SET self NOTIFICATION all off\r\n",
        ),
        (Request::Begin, "BLOCK BEGIN\r\n"),
        (Request::End, "BLOCK END\r\n"),
        (Request::SetHistory(scope, true), "SET self HISTORY on\r\n"),
        (Request::SetHistory(ClientScope::Client(2), false), "SET 2 HISTORY off\r\n"),
        (Request::HistoryGetClients, "HISTORY GET CLIENT_LIST\r\n"),
        (Request::HistoryGetClientId, "HISTORY GET CLIENT_ID\r\n"),
        (
            Request::HistoryGetClientMsgs(scope, 10, 5),
            "HISTORY GET CLIENT_MESSAGES self 10_5\r\n",
        ),
        (Request::HistoryGetLastMsgId, "HISTORY GET LAST\r\n"),
        (Request::HistoryGetMsg(123), "HISTORY GET MESSAGE 123\r\n"),
        (Request::HistoryCursorGet, "HISTORY CURSOR GET\r\n"),
        (
            Request::HistoryCursorSet(scope, HistoryPosition::First),
            "HISTORY CURSOR SET self first\r\n",
        ),
        (
            Request::HistoryCursorSet(ClientScope::All, HistoryPosition::Last),
            "HISTORY CURSOR SET all last\r\n",
        ),
        (
            Request::HistoryCursorSet(ClientScope::Client(4), HistoryPosition::Pos(15)),
            "HISTORY CURSOR SET 4 pos 15\r\n",
        ),
        (Request::HistoryCursorMove(CursorDirection::Backward), "HISTORY CURSOR backward\r\n"),
        (Request::HistoryCursorMove(CursorDirection::Forward), "HISTORY CURSOR forward\r\n"),
        (Request::HistorySpeak(9), "HISTORY SAY 9\r\n"),
        (
            Request::HistorySort(SortDirection::Ascending, SortKey::Time),
            "HISTORY SORT asc time\r\n",
        ),
        (
            Request::HistorySort(SortDirection::Descending, SortKey::ClientName),
            "HISTORY SORT desc client_name\r\n",
        ),
        (Request::HistorySetShortMsgLength(80), "HISTORY SET SHORT_MESSAGE_LENGTH 80\r\n"),
        (
            Request::HistorySetMsgTypeOrdering(vec![
                MessageOrdering::Text,
                MessageOrdering::SoundIcon,
                MessageOrdering::Char,
                MessageOrdering::Key,
            ]),
            "HISTORY SET MESSAGE_TYPE_ORDERING \"text sound_icon char key\"\r\n",
        ),
        (
            Request::HistorySetMsgTypeOrdering(vec![MessageOrdering::Key]),
            "HISTORY SET MESSAGE_TYPE_ORDERING \"key\"\r\n",
        ),
        (
            Request::HistorySetMsgTypeOrdering(Vec::new()),
            "HISTORY SET MESSAGE_TYPE_ORDERING \"\"\r\n",
        ),
        (
            Request::HistorySearch(scope, String::from("hello world")),
            "HISTORY SEARCH self \"hello world\"\r\n",
        ),
        (Request::Quit, "QUIT\r\n"),
    ];
    for (request, expected) in cases {
        let lines = request.to_lines();
        let mut joined = String::new();
        for line in lines.iter() {
            joined.push_str(line);
            joined.push_str("\r\n");
        }
        assert_eq!(expected, joined, "lines of {:?}", request);
        assert_eq!(expected, wire(request));
    }
}

#[test]
fn every_helper_sends_its_request() {
    let scope = ClientScope::Current;
    let mut sent = Client::new(InputBuffer::new(), OutputBuffer::new());
    let mut expected = Client::new(InputBuffer::new(), OutputBuffer::new());
    sent.set_client_name(ClientName::new("a", "b")).unwrap();
    expected.send(Request::SetName(ClientName::new("a", "b"))).unwrap();
    sent.speak().unwrap().speak_char('x').unwrap().speak_key(KeyName::F1).unwrap();
    expected.send(Request::Speak).unwrap();
    expected.send(Request::SpeakChar('x')).unwrap();
    expected.send(Request::SpeakKey(KeyName::F1)).unwrap();
    sent.stop(MessageScope::Last).unwrap().cancel(MessageScope::All).unwrap();
    sent.pause(MessageScope::Message(1)).unwrap().resume(MessageScope::Last).unwrap();
    expected.send(Request::Stop(MessageScope::Last)).unwrap();
    expected.send(Request::Cancel(MessageScope::All)).unwrap();
    expected.send(Request::Pause(MessageScope::Message(1))).unwrap();
    expected.send(Request::Resume(MessageScope::Last)).unwrap();
    sent.set_pause_context(scope, 2).unwrap().set_notification(NotificationType::End, true).unwrap();
    expected.send(Request::SetPauseContext(scope, 2)).unwrap();
    expected.send(Request::SetNotification(NotificationType::End, true)).unwrap();
    sent.block_begin().unwrap().block_end().unwrap().set_history(scope, true).unwrap();
    expected.send(Request::Begin).unwrap();
    expected.send(Request::End).unwrap();
    expected.send(Request::SetHistory(scope, true)).unwrap();
    sent.set_synthesis_voice(scope, "v").unwrap().history_get_last_message_id().unwrap();
    expected.send(Request::SetSynthesisVoice(scope, String::from("v"))).unwrap();
    expected.send(Request::HistoryGetLastMsgId).unwrap();
    sent.history_get_client_messages(scope, 1, 2).unwrap();
    expected.send(Request::HistoryGetClientMsgs(scope, 1, 2)).unwrap();
    sent.history_set_cursor(scope, HistoryPosition::Pos(3)).unwrap();
    expected.send(Request::HistoryCursorSet(scope, HistoryPosition::Pos(3))).unwrap();
    sent.history_move_cursor(CursorDirection::Forward).unwrap().history_speak(4).unwrap();
    expected.send(Request::HistoryCursorMove(CursorDirection::Forward)).unwrap();
    expected.send(Request::HistorySpeak(4)).unwrap();
    sent.history_sort(SortDirection::Descending, SortKey::User).unwrap();
    expected.send(Request::HistorySort(SortDirection::Descending, SortKey::User)).unwrap();
    sent.history_set_short_message_length(5).unwrap();
    expected.send(Request::HistorySetShortMsgLength(5)).unwrap();
    sent.history_set_ordering(vec![MessageOrdering::Char, MessageOrdering::Text]).unwrap();
    expected
        .send(Request::HistorySetMsgTypeOrdering(vec![MessageOrdering::Char, MessageOrdering::Text]))
        .unwrap();
    sent.history_search(scope, "x y").unwrap();
    expected.send(Request::HistorySearch(scope, String::from("x y"))).unwrap();
    let bytes = sent.take_output();
    assert!(bytes.ends_with("HISTORY SEARCH self \"x y\"\r\n".as_bytes()));
    assert_eq!(expected.take_output(), bytes);
}

#[test]
fn cursor_set_first_is_told_from_notification_set() {
    let mut client = Client::new(InputBuffer::new(), OutputBuffer::new());
    client.feed("220 OK NOTIFICATION SET\r\n220 OK CURSOR SET FIRST\r\n220 OK\r\n".as_bytes());
    assert_eq!(Response::NotificationSet, client.receive().unwrap());
    assert_eq!(Response::HistoryCurSetFirst, client.receive().unwrap());
    assert_eq!(Response::NotificationSet, client.receive().unwrap());
    assert!(matches!(client.receive(), Err(ClientError::NotReady)));
}

#[test]
fn every_code_has_its_response() {
    let plain: Vec<(&str, Response)> = vec![
        ("201 OK LANGUAGE SET", Response::LanguageSet),
        ("202 OK PRIORITY SET", Response::PrioritySet),
        ("203 OK RATE SET", Response::RateSet),
        ("204 OK PITCH SET", Response::PitchSet),
        ("205 OK PUNCTUATION SET", Response::PunctuationSet),
        ("206 OK CAP LET RECOGNITION SET", Response::CapLetRecognSet),
        ("207 OK SPELLING SET", Response::SpellingSet),
        ("208 OK CLIENT NAME SET", Response::ClientNameSet),
        ("209 OK VOICE SET", Response::VoiceSet),
        ("210 OK STOPPED", Response::Stopped),
        ("211 OK PAUSED", Response::Paused),
        ("212 OK RESUMED", Response::Resumed),
        ("213 OK CANCELED", Response::Canceled),
        ("215 OK TABLE SET", Response::TableSet),
        ("216 OK OUTPUT MODULE SET", Response::OutputModuleSet),
        ("217 OK PAUSE CONTEXT SET", Response::PauseContextSet),
        ("218 OK VOLUME SET", Response::VolumeSet),
        ("219 OK SSML MODE SET", Response::SsmlModeSet),
        ("220 OK NOTIFICATION SET", Response::NotificationSet),
        ("220 OK CURSOR SET FIRST", Response::HistoryCurSetFirst),
        ("221 OK CURSOR SET LAST", Response::HistoryCurSetLast),
        ("222 OK CURSOR SET TO POSITION", Response::HistoryCurSetPos),
        ("223 OK CURSOR MOVED FORWARD", Response::HistoryCurMoveFor),
        ("224 OK CURSOR MOVED BACKWARD", Response::HistoryCurMoveBack),
        ("226 OK SOUND ICON QUEUED", Response::SoundIconQueued),
        ("227 OK MESSAGE CANCELED", Response::MessageCanceled),
        ("230 OK RECEIVING DATA", Response::ReceivingData),
        ("231 HAPPY HACKING", Response::Bye),
        ("246 OK MESSAGE TEXT SENT", Response::MessageTextSent),
        ("260 OK INSIDE BLOCK", Response::InsideBlock),
        ("261 OK OUTSIDE BLOCK", Response::OutsideBlock),
        ("262 OK DEBUGGING SET", Response::DebugSet),
        ("263 OK PITCH RANGE SET", Response::PitchRangeSet),
        ("299 OK BUT NOT IMPLEMENTED -- DOES NOTHING", Response::NotImplemented),
    ];
    for (line, expected) in plain {
        let mut client = Client::new(InputBuffer::new(), OutputBuffer::new());
        client.feed(line.as_bytes());
        client.feed("\r\n".as_bytes());
        assert_eq!(expected, client.receive().unwrap(), "reply {:?}", line);
        assert!(client.input_source().as_bytes().is_empty());
    }
    let lines = || vec![String::from("a b"), String::from("c")];
    let payload: Vec<(&str, Response)> = vec![
        ("225-21\r\n225 OK MESSAGE QUEUED\r\n", Response::MessageQueued(21)),
        (
            "240-1 a 0\r\n240-2 b 1\r\n240 OK CLIENTS LIST SENT\r\n",
            Response::HistoryClientListSent(vec![
                HistoryClientStatus::new(1, "a", false),
                HistoryClientStatus::new(2, "b", true),
            ]),
        ),
        ("240 OK CLIENTS LIST SENT\r\n", Response::HistoryClientListSent(Vec::new())),
        ("241-a b\r\n241-c\r\n241 OK MSGS LIST SENT\r\n", Response::HistoryMsgsListSent(lines())),
        ("242-a b\r\n242 OK LAST MSG SAID\r\n", Response::HistoryLastMsg(String::from("a b"))),
        ("243-7\r\n243 OK CURSOR POSITION RETURNED\r\n", Response::HistoryCurPosRet(String::from("7"))),
        ("244-a b\r\n244-c\r\n244 OK TABLE LIST SEND\r\n", Response::TableListSent(lines())),
        ("245-123\r\n245 OK CLIENT ID SENT\r\n", Response::HistoryClientIdSent(123)),
        ("248-a b\r\n248-c\r\n248 OK HELP SENT\r\n", Response::HelpSent(lines())),
        (
            "249-x\tfr\tnone\r\n249 OK VOICE LIST SENT\r\n",
            Response::VoicesListSent(vec![SynthesisVoice::new("x", Some("fr"), None)]),
        ),
        (
            "250-a b\r\n250-c\r\n250 OK MODULE LIST SENT\r\n",
            Response::OutputModulesListSent(lines()),
        ),
        ("251-a b\r\n251 OK GET RETURNED\r\n", Response::Get(String::from("a b"))),
        (
            "700-21\r\n700-test\r\n700-mark\r\n700 INDEX MARK\r\n",
            Response::EventIndexMark(EventId::new("21", "test"), String::from("mark")),
        ),
        ("701-21\r\n701-test\r\n701 BEGIN\r\n", Response::EventBegin(EventId::new("21", "test"))),
        ("702-21\r\n702-test\r\n702 END\r\n", Response::EventEnd(EventId::new("21", "test"))),
        (
            "703-21\r\n703-test\r\n703 CANCELED\r\n",
            Response::EventCanceled(EventId::new("21", "test")),
        ),
        ("704-21\r\n704-test\r\n704 PAUSED\r\n", Response::EventPaused(EventId::new("21", "test"))),
        (
            "705-21\r\n705-test\r\n705 RESUMED\r\n",
            Response::EventResumed(EventId::new("21", "test")),
        ),
    ];
    for (reply, expected) in payload {
        let mut client = Client::new(InputBuffer::new(), OutputBuffer::new());
        client.feed(reply.as_bytes());
        assert_eq!(expected, client.receive().unwrap(), "reply {:?}", reply);
    }
}

#[test]
fn an_unknown_code_breaks_the_protocol() {
    for reply in ["200 OK\r\n", "214 OK\r\n", "228 OK\r\n", "247 OK\r\n", "264 OK\r\n", "706 X\r\n", "100 X\r\n", "999 X\r\n", "000 X\r\n"] {
        let mut client = Client::new(InputBuffer::new(), OutputBuffer::new());
        client.feed(reply.as_bytes());
        match client.receive() {
            Err(ClientError::Io(err)) => {
                assert_eq!(ErrorKind::InvalidInput, err.kind(), "reply {:?}", reply)
            }
            other => panic!("unexpected result for {:?}: {:?}", reply, other),
        }
    }
}

#[test]
fn a_failure_of_the_server_keeps_the_connection() {
    let mut client = Client::new(InputBuffer::new(), OutputBuffer::new());
    client.feed("409 ERR RATE TOO HIGH\r\n300-detail\r\n300 ERR INTERNAL\r\n203 OK RATE SET\r\n".as_bytes());
    match client.receive() {
        Err(ClientError::Ssip(status)) => {
            assert_eq!(409, status.code);
            assert_eq!("RATE TOO HIGH", status.message);
        }
        other => panic!("unexpected result: {:?}", other),
    }
    match client.check_status(203) {
        Err(ClientError::Ssip(status)) => {
            assert_eq!(300, status.code);
            assert_eq!("INTERNAL", status.message);
        }
        other => panic!("unexpected result: {:?}", other.map(|_| ())),
    }
    assert_eq!(Response::RateSet, client.receive().unwrap());
    assert!(client.input_source().as_bytes().is_empty());
}

#[test]
fn events_need_the_right_number_of_lines() {
    let cases: Vec<(&str, bool)> = vec![
        ("700-21\r\n700-test\r\n700-mark\r\n700 INDEX MARK\r\n", true),
        ("700-21\r\n700-test\r\n700 INDEX MARK\r\n", false),
        ("700-21\r\n700-test\r\n700-mark\r\n700-more\r\n700 INDEX MARK\r\n", false),
        ("700 INDEX MARK\r\n", false),
        ("701-21\r\n701-test\r\n701 BEGIN\r\n", true),
        ("701-21\r\n701 BEGIN\r\n", false),
        ("701-21\r\n701-test\r\n701-more\r\n701 BEGIN\r\n", false),
        ("702-21\r\n702-test\r\n702 END\r\n", true),
        ("702 END\r\n", false),
        ("703-21\r\n703-test\r\n703 CANCELED\r\n", true),
        ("703-21\r\n703-test\r\n703-x\r\n703 CANCELED\r\n", false),
        ("704-21\r\n704-test\r\n704 PAUSED\r\n", true),
        ("704-21\r\n704 PAUSED\r\n", false),
        ("705-21\r\n705-test\r\n705 RESUMED\r\n", true),
        ("705-21\r\n705-test\r\n705-x\r\n705 RESUMED\r\n", false),
    ];
    for (reply, accepted) in cases {
        let mut client = Client::new(InputBuffer::new(), OutputBuffer::new());
        client.feed(reply.as_bytes());
        client.feed(reply.as_bytes());
        assert_eq!(accepted, client.receive().is_ok(), "reply {:?}", reply);
        assert_eq!(accepted, client.receive_event().is_ok(), "event {:?}", reply);
    }
    let mut client = Client::new(InputBuffer::new(), OutputBuffer::new());
    client.feed("700-21\r\n700 X\r\n700-1\r\n700-2\r\n700-3\r\n700-4\r\n700 X\r\n".as_bytes());
    assert!(matches!(client.receive(), Err(ClientError::TooFewLines)));
    assert!(matches!(client.receive(), Err(ClientError::TooManyLines)));
    client.feed("701-21\r\n701 X\r\n701-1\r\n701-2\r\n701-3\r\n701 X\r\n".as_bytes());
    match client.receive_event() {
        Err(ClientError::Io(err)) => assert_eq!(ErrorKind::UnexpectedEof, err.kind()),
        other => panic!("unexpected result: {:?}", other),
    }
    assert!(matches!(client.receive_event(), Err(ClientError::TooManyLines)));
}

#[test]
fn events_are_received_by_kind() {
    let mut client = Client::new(InputBuffer::new(), OutputBuffer::new());
    client.feed("700-21\r\n700-test\r\n700-here\r\n700 INDEX MARK\r\n".as_bytes());
    client.feed("701-21\r\n701-test\r\n701 BEGIN\r\n702-21\r\n702-test\r\n702 END\r\n".as_bytes());
    client.feed("703-1\r\n703-a\r\n703 CANCELED\r\n704-2\r\n704-b\r\n704 PAUSED\r\n".as_bytes());
    client.feed("705-3\r\n705-c\r\n705 RESUMED\r\n208 OK CLIENT NAME SET\r\n".as_bytes());
    assert_eq!(
        Event::index_mark(String::from("here"), "21", "test"),
        client.receive_event().unwrap()
    );
    assert_eq!(Event::begin("21", "test"), client.receive_event().unwrap());
    assert_eq!(Event::end("21", "test"), client.receive_event().unwrap());
    assert_eq!(Event::cancel("1", "a"), client.receive_event().unwrap());
    assert_eq!(Event::pause("2", "b"), client.receive_event().unwrap());
    assert_eq!(Event::resume("3", "c"), client.receive_event().unwrap());
    match client.receive_event() {
        Err(ClientError::Io(err)) => {
            assert_eq!(ErrorKind::InvalidData, err.kind());
            assert_eq!("wrong status code for event", err.message());
        }
        other => panic!("unexpected result: {:?}", other),
    }
    assert!(matches!(client.receive_event(), Err(ClientError::NotReady)));
}

#[test]
fn message_id_comes_with_two_codes_only() {
    let mut client = Client::new(InputBuffer::new(), OutputBuffer::new());
    client.feed("225-21\r\n225 OK MESSAGE QUEUED\r\n242-22\r\n242 OK LAST MSG SAID\r\n".as_bytes());
    client.feed("245-23\r\n245 OK CLIENT ID SENT\r\n225-x\r\n225 OK MESSAGE QUEUED\r\n".as_bytes());
    client.feed("225 OK MESSAGE QUEUED\r\n225-1\r\n225-2\r\n225 OK MESSAGE QUEUED\r\n".as_bytes());
    assert_eq!(21, client.receive_message_id().unwrap());
    assert_eq!(22, client.receive_message_id().unwrap());
    match client.receive_message_id() {
        Err(ClientError::Io(err)) => {
            assert_eq!(ErrorKind::InvalidData, err.kind());
            assert_eq!("not a message id", err.message());
        }
        other => panic!("unexpected result: {:?}", other),
    }
    match client.receive_message_id() {
        Err(ClientError::Io(err)) => {
            assert_eq!(ErrorKind::InvalidData, err.kind());
            assert_eq!("invalid integer value", err.message());
        }
        other => panic!("unexpected result: {:?}", other),
    }
    assert!(matches!(client.receive_message_id(), Err(ClientError::TooFewLines)));
    assert!(matches!(client.receive_message_id(), Err(ClientError::TooManyLines)));
    assert!(matches!(client.receive_message_id(), Err(ClientError::NotReady)));
}

#[test]
fn typed_receives_check_the_code() {
    let mut client = Client::new(InputBuffer::new(), OutputBuffer::new());
    let reply = "251-5\r\n251 OK GET RETURNED\r\n";
    for _ in 0..8 {
        client.feed(reply.as_bytes());
    }
    assert!(matches!(client.receive_lines(250), Err(ClientError::UnexpectedStatus(251))));
    assert!(matches!(client.receive_string(OK_LANGUAGE_SET), Err(ClientError::UnexpectedStatus(251))));
    assert!(matches!(client.receive_cursor_pos(), Err(ClientError::UnexpectedStatus(251))));
    assert!(matches!(client.receive_client_id(), Err(ClientError::UnexpectedStatus(251))));
    assert!(matches!(client.receive_synthesis_voices(), Err(ClientError::UnexpectedStatus(251))));
    assert!(matches!(client.receive_history_clients(), Err(ClientError::UnexpectedStatus(251))));
    assert_eq!(5, client.receive_u8().unwrap());
    assert_eq!(5, client.receive_i8().unwrap());
    client.feed("208 OK CLIENT NAME SET\r\n208 OK CLIENT NAME SET\r\n".as_bytes());
    assert!(matches!(
        client.check_receiving_data().map(|_| ()),
        Err(ClientError::UnexpectedStatus(208))
    ));
    client.check_client_name_set().unwrap();
    // An event in the place of a reply is an unexpected status.
    client.feed("701-21\r\n701-test\r\n701 BEGIN\r\n".as_bytes());
    assert!(matches!(client.receive_string(OK_GET), Err(ClientError::UnexpectedStatus(701))));
    client.feed("701-21\r\n701-test\r\n701 BEGIN\r\n203 OK RATE SET\r\n".as_bytes());
    assert!(matches!(
        client.check_status(203).map(|_| ()),
        Err(ClientError::UnexpectedStatus(701))
    ));
    // The payload of a reply that is only checked is dropped.
    client.check_status(203).unwrap();
    client.feed("262-/tmp/log\r\n262 OK DEBUGGING SET\r\n".as_bytes());
    client.check_status(262).unwrap();
    assert!(matches!(client.check_status(262).map(|_| ()), Err(ClientError::NotReady)));
}

#[test]
fn numbers_are_received_in_their_range() {
    let mut client = Client::new(InputBuffer::new(), OutputBuffer::new());
    for value in ["-100", "-128", "127", "+7", "-0", "128", "-129", "1.5", ""] {
        client.feed(format!("251-{}\r\n251 OK GET RETURNED\r\n", value).as_bytes());
    }
    assert_eq!(-100, client.receive_i8().unwrap());
    assert_eq!(-128, client.receive_i8().unwrap());
    assert_eq!(127, client.receive_i8().unwrap());
    assert_eq!(7, client.receive_i8().unwrap());
    assert_eq!(0, client.receive_i8().unwrap());
    for _ in 0..4 {
        match client.receive_i8() {
            Err(ClientError::Io(err)) => {
                assert_eq!(ErrorKind::InvalidData, err.kind());
                assert_eq!("invalid signed integer", err.message());
            }
            other => panic!("unexpected result: {:?}", other),
        }
    }
    for value in ["0", "255", "256", "-1"] {
        client.feed(format!("251-{}\r\n251 OK GET RETURNED\r\n", value).as_bytes());
    }
    assert_eq!(0, client.receive_u8().unwrap());
    assert_eq!(255, client.receive_u8().unwrap());
    for _ in 0..2 {
        match client.receive_u8() {
            Err(ClientError::Io(err)) => {
                assert_eq!("invalid unsigned 8-bit integer", err.message())
            }
            other => panic!("unexpected result: {:?}", other),
        }
    }
    for value in ["65535", "65536"] {
        client.feed(format!("243-{}\r\n243 OK CURSOR POSITION RETURNED\r\n", value).as_bytes());
    }
    assert_eq!(65535, client.receive_cursor_pos().unwrap());
    match client.receive_cursor_pos() {
        Err(ClientError::Io(err)) => assert_eq!("invalid unsigned 16-bit integer", err.message()),
        other => panic!("unexpected result: {:?}", other),
    }
    for value in ["4294967295", "4294967296"] {
        client.feed(format!("245-{}\r\n245 OK CLIENT ID SENT\r\n", value).as_bytes());
    }
    assert_eq!(4294967295, client.receive_client_id().unwrap());
    match client.receive_client_id() {
        Err(ClientError::Io(err)) => assert_eq!("invalid client id", err.message()),
        other => panic!("unexpected result: {:?}", other),
    }
}

#[test]
fn a_request_that_does_not_fit_is_not_sent() {
    let mut client = Client::new(InputBuffer::new(), OutputBuffer::with_limit(12));
    client.speak().unwrap();
    assert!(matches!(client.send_line("Hello").map(|_| ()), Err(ClientError::NotReady)));
    assert!(matches!(client.quit().map(|_| ()), Err(ClientError::NotReady)));
    assert_eq!("SPEAK\r\n".as_bytes(), client.output_source().flushed().as_slice());
    client.consume_output(7);
    assert!(matches!(
        client.send_lines(&[String::from("Hello"), String::from("you")]).map(|_| ()),
        Err(ClientError::NotReady)
    ));
    client.send_line("Hello").unwrap();
    assert_eq!("Hello\r\n.\r\n".as_bytes(), client.take_output().as_slice());
    assert!(client.take_output().is_empty());
}
