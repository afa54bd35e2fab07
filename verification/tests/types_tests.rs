use ssip_client::error::{ClientError, ErrorKind, IoError};
use ssip_client::types::{
    CapitalLettersRecognitionMode, ClientName, ClientScope, CursorDirection, Event, EventId,
    EventType, HistoryClientStatus, HistoryPosition, KeyName, MessageOrdering, MessageScope,
    NotificationType, Priority, PunctuationMode, SortDirection, SortKey, StatusLine,
    SynthesisVoice,
};

#[test]
fn types_parse_synthesis_voice() {
    // Voice with dialect
    let v1 = SynthesisVoice::from_str("Portuguese (Portugal)+Kaukovalta\tpt\tKaukovalta").unwrap();
    assert_eq!("Portuguese (Portugal)+Kaukovalta", v1.name);
    assert_eq!("pt", v1.language.unwrap());
    assert_eq!("Kaukovalta", v1.dialect.unwrap());

    // Voice without dialect
    let v2 = SynthesisVoice::from_str("Esperanto\teo\tnone").unwrap();
    assert_eq!("Esperanto", v2.name);
    assert_eq!("eo", v2.language.unwrap());
    assert!(matches!(v2.dialect, None));
}

#[test]
fn lib_parse_synthesis_voice() {
    // Voice with dialect
    let v1 = SynthesisVoice::from_str("Portuguese (Portugal)+Kaukovalta\tpt\tKaukovalta").unwrap();
    assert_eq!("Portuguese (Portugal)+Kaukovalta", v1.name);
    assert_eq!("pt", v1.language.unwrap());
    assert_eq!("Kaukovalta", v1.dialect.unwrap());

    // Voice without dialect
    let v2 = SynthesisVoice::from_str("Esperanto\teo\tnone").unwrap();
    assert_eq!("Esperanto", v2.name);
    assert_eq!("eo", v2.language.unwrap());
    assert!(v2.dialect.is_none());
}

#[test]
fn format_message_scope() {
    assert_eq!("self", MessageScope::Last.to_string().as_str());
    assert_eq!("all", MessageScope::All.to_string().as_str());
    assert_eq!("123", MessageScope::Message(123).to_string().as_str());
}

#[test]
fn format_history_position() {
    assert_eq!("first", HistoryPosition::First.to_string().as_str());
    assert_eq!("last", HistoryPosition::Last.to_string().as_str());
    assert_eq!("pos 15", HistoryPosition::Pos(15).to_string().as_str());
}

#[test]
fn parse_history_client_status() {
    assert_eq!(
        HistoryClientStatus::new(10, "joe:speechd_client:main", false),
        HistoryClientStatus::from_str("10 joe:speechd_client:main 0").unwrap()
    );
    assert_eq!(
        HistoryClientStatus::new(11, "joe:speechd_client:main", true),
        HistoryClientStatus::from_str("11 joe:speechd_client:main 1").unwrap()
    );
    for line in &["9 joe:speechd_client:main xxx", "xxx joe:speechd_client:main 1"] {
        match HistoryClientStatus::from_str(line) {
            Ok(_) => panic!("parsing should have failed"),
            Err(ClientError::Io(err)) if err.kind() == ErrorKind::InvalidData => (),
            Err(_) => panic!("expecting error 'invalid data' parsing \"{line}\""),
        }
    }
    for line in &["8 joe:speechd_client:main", "8", ""] {
        match HistoryClientStatus::from_str(line) {
            Ok(_) => panic!("parsing should have failed"),
            Err(ClientError::Io(err)) if err.kind() == ErrorKind::UnexpectedEof => (),
            Err(_) => panic!("expecting error 'unexpected EOF' parsing \"{line}\""),
        }
    }
}

#[test]
fn history_client_status_edge_cases() {
    // The status is all that follows the second space.
    for line in &["8 joe 0 ", "8 joe 1 x", "8 joe 01", "8 joe 2", "8 joe "] {
        match HistoryClientStatus::from_str(line) {
            Err(ClientError::Io(err)) => {
                assert_eq!(ErrorKind::InvalidData, err.kind(), "line {:?}", line);
                assert_eq!("invalid client status", err.message());
            }
            other => panic!("unexpected result for {:?}: {:?}", line, other),
        }
    }
    // An empty name is a name.
    assert_eq!(HistoryClientStatus::new(8, "", true), HistoryClientStatus::from_str("8  1").unwrap());
    assert_eq!(
        HistoryClientStatus::new(4294967295, "a", false),
        HistoryClientStatus::from_str("4294967295 a 0").unwrap()
    );
    match HistoryClientStatus::from_str("4294967296 a 0") {
        Err(ClientError::Io(err)) => assert_eq!("invalid client id", err.message()),
        other => panic!("unexpected result: {:?}", other),
    }
    match HistoryClientStatus::from_str(" a 0") {
        Err(ClientError::Io(err)) => {
            assert_eq!(ErrorKind::UnexpectedEof, err.kind());
            assert_eq!("expecting client id", err.message());
        }
        other => panic!("unexpected result: {:?}", other),
    }
    match HistoryClientStatus::from_str("8 joe") {
        Err(ClientError::Io(err)) => assert_eq!("expecting client status", err.message()),
        other => panic!("unexpected result: {:?}", other),
    }
    match HistoryClientStatus::from_str("8") {
        Err(ClientError::Io(err)) => assert_eq!("expecting client name", err.message()),
        other => panic!("unexpected result: {:?}", other),
    }
}

#[test]
fn synthesis_voice_fields() {
    assert_eq!(
        SynthesisVoice::new("Amharic", Some("am"), None),
        SynthesisVoice::from_str("Amharic\tam\tnone").unwrap()
    );
    assert_eq!(SynthesisVoice::new("en", None, None), SynthesisVoice::from_str("en").unwrap());
    assert_eq!(
        SynthesisVoice::new("x", None, Some("d")),
        SynthesisVoice::from_str("x\tnone\td").unwrap()
    );
    // What follows a third tab is not read.
    assert_eq!(
        SynthesisVoice::new("x", Some("l"), Some("d")),
        SynthesisVoice::from_str("x\tl\td\tmore\tand more").unwrap()
    );
    // Only the whole word stands for an absent field.
    assert_eq!(
        SynthesisVoice::new("none", Some("None"), Some("none ")),
        SynthesisVoice::from_str("none\tNone\tnone ").unwrap()
    );
    assert_eq!(
        SynthesisVoice::new("", Some(""), Some("")),
        SynthesisVoice::from_str("\t\t").unwrap()
    );
    assert_eq!(SynthesisVoice::new("", None, None), SynthesisVoice::from_str("").unwrap());
}

#[test]
fn parse_none_reads_an_optional_field() {
    assert_eq!(None, SynthesisVoice::parse_none(None));
    assert_eq!(None, SynthesisVoice::parse_none(Some("none")));
    assert_eq!(Some(String::from("fr")), SynthesisVoice::parse_none(Some("fr")));
    assert_eq!(Some(String::from("")), SynthesisVoice::parse_none(Some("")));
    assert_eq!(Some(String::from("nonee")), SynthesisVoice::parse_none(Some("nonee")));
}

#[test]
fn format_client_scope() {
    assert_eq!("self", ClientScope::Current.to_string());
    assert_eq!("all", ClientScope::All.to_string());
    assert_eq!("0", ClientScope::Client(0).to_string());
    assert_eq!("4294967295", ClientScope::Client(u32::MAX).to_string());
    assert_eq!("0", MessageScope::Message(0).to_string());
    assert_eq!("1000", MessageScope::Message(1000).to_string());
    assert_eq!("pos 0", HistoryPosition::Pos(0).to_string());
    assert_eq!("pos 65535", HistoryPosition::Pos(u16::MAX).to_string());
}

#[test]
fn tokens_of_the_parameters() {
    assert_eq!("progress", Priority::Progress.to_string());
    assert_eq!("notification", Priority::Notification.to_string());
    assert_eq!("message", Priority::Message.to_string());
    assert_eq!("text", Priority::Text.to_string());
    assert_eq!("important", Priority::Important.to_string());

    assert_eq!("none", PunctuationMode::Off.as_str());
    assert_eq!("some", PunctuationMode::Partial.as_str());
    assert_eq!("most", PunctuationMode::Most.as_str());
    assert_eq!("all", PunctuationMode::All.as_str());

    assert_eq!("none", CapitalLettersRecognitionMode::Off.as_str());
    assert_eq!("spell", CapitalLettersRecognitionMode::Spell.as_str());
    assert_eq!("icon", CapitalLettersRecognitionMode::Icon.as_str());

    assert_eq!("begin", NotificationType::Begin.as_str());
    assert_eq!("end", NotificationType::End.as_str());
    assert_eq!("cancel", NotificationType::Cancel.as_str());
    assert_eq!("pause", NotificationType::Pause.as_str());
    assert_eq!("resume", NotificationType::Resume.as_str());
    assert_eq!("index_mark", NotificationType::IndexMark.as_str());
    assert_eq!("all", NotificationType::All.as_str());

    assert_eq!("backward", CursorDirection::Backward.as_str());
    assert_eq!("forward", CursorDirection::Forward.as_str());
    assert_eq!("asc", SortDirection::Ascending.as_str());
    assert_eq!("desc", SortDirection::Descending.as_str());

    assert_eq!("client_name", SortKey::ClientName.as_str());
    assert_eq!("priority", SortKey::Priority.as_str());
    assert_eq!("message_type", SortKey::MessageType.as_str());
    assert_eq!("time", SortKey::Time.as_str());
    assert_eq!("user", SortKey::User.as_str());

    assert_eq!("text", MessageOrdering::Text.as_str());
    assert_eq!("sound_icon", MessageOrdering::SoundIcon.as_str());
    assert_eq!("char", MessageOrdering::Char.as_str());
    assert_eq!("key", MessageOrdering::Key.as_str());
}

#[test]
fn tokens_of_the_keys() {
    let keys = [
        (KeyName::Space, "space"),
        (KeyName::Underscore, "underscore"),
        (KeyName::DoubleQuote, "double-quote"),
        (KeyName::Alt, "alt"),
        (KeyName::Control, "control"),
        (KeyName::Hyper, "hyper"),
        (KeyName::Meta, "meta"),
        (KeyName::Shift, "shift"),
        (KeyName::Super, "super"),
        (KeyName::Backspace, "backspace"),
        (KeyName::Break, "break"),
        (KeyName::Delete, "delete"),
        (KeyName::Down, "down"),
        (KeyName::End, "end"),
        (KeyName::Enter, "enter"),
        (KeyName::Escape, "escape"),
        (KeyName::F1, "f1"),
        (KeyName::F2, "f2"),
        (KeyName::F3, "f3"),
        (KeyName::F4, "f4"),
        (KeyName::F5, "f5"),
        (KeyName::F6, "f6"),
        (KeyName::F7, "f7"),
        (KeyName::F8, "f8"),
        (KeyName::F9, "f9"),
        (KeyName::F10, "f10"),
        (KeyName::F11, "f11"),
        (KeyName::F12, "f12"),
        (KeyName::F13, "f13"),
        (KeyName::F14, "f14"),
        (KeyName::F15, "f15"),
        (KeyName::F16, "f16"),
        (KeyName::F17, "f17"),
        (KeyName::F18, "f18"),
        (KeyName::F19, "f19"),
        (KeyName::F20, "f20"),
        (KeyName::F21, "f21"),
        (KeyName::F22, "f22"),
        (KeyName::F23, "f23"),
        (KeyName::F24, "f24"),
        (KeyName::Home, "home"),
        (KeyName::Insert, "insert"),
        (KeyName::KpMultiply, "kp-*"),
        (KeyName::KpPlus, "kp-+"),
        (KeyName::KpMinus, "kp--"),
        (KeyName::KpDot, "kp-."),
        (KeyName::KpDivide, "kp-/"),
        (KeyName::Kp0, "kp-0"),
        (KeyName::Kp1, "kp-1"),
        (KeyName::Kp2, "kp-2"),
        (KeyName::Kp3, "kp-3"),
        (KeyName::Kp4, "kp-4"),
        (KeyName::Kp5, "kp-5"),
        (KeyName::Kp6, "kp-6"),
        (KeyName::Kp7, "kp-7"),
        (KeyName::Kp8, "kp-8"),
        (KeyName::Kp9, "kp-9"),
        (KeyName::KpEnter, "kp-enter"),
        (KeyName::Left, "left"),
        (KeyName::Menu, "menu"),
        (KeyName::Next, "next"),
        (KeyName::NumLock, "num-lock"),
        (KeyName::Pause, "pause"),
        (KeyName::Print, "print"),
        (KeyName::Prior, "prior"),
        (KeyName::Return, "return"),
        (KeyName::Right, "right"),
        (KeyName::ScrollLock, "scroll-lock"),
        (KeyName::Tab, "tab"),
        (KeyName::Up, "up"),
        (KeyName::Window, "window"),
    ];
    assert_eq!(71, keys.len());
    for (key, token) in keys.iter() {
        assert_eq!(*token, key.as_str());
        assert_eq!(*token, key.to_string());
    }
}

#[test]
fn client_name_defaults_to_the_main_component() {
    let name = ClientName::new("joe", "hello");
    assert_eq!("joe", name.user);
    assert_eq!("hello", name.application);
    assert_eq!("main", name.component);
    assert_eq!("joe:hello:main", name.to_string());
    let other = ClientName::with_component("joe", "hello", "status");
    assert_eq!("joe:hello:status", other.to_string());
}

#[test]
fn events_are_built_by_kind() {
    assert_eq!(EventId::new("21", "test"), Event::begin("21", "test").id);
    assert_eq!(EventType::Begin, Event::begin("21", "test").ntype);
    assert_eq!(EventType::End, Event::end("21", "test").ntype);
    assert_eq!(EventType::Cancel, Event::cancel("21", "test").ntype);
    assert_eq!(EventType::Pause, Event::pause("21", "test").ntype);
    assert_eq!(EventType::Resume, Event::resume("21", "test").ntype);
    let mark = Event::index_mark(String::from("here"), "21", "test");
    assert_eq!(EventType::IndexMark(String::from("here")), mark.ntype);
    assert_eq!("21", mark.id.message);
    assert_eq!("test", mark.id.client);
    assert_eq!(mark, Event::new(EventType::IndexMark(String::from("here")), "21", "test"));

    assert_eq!("begin", EventType::Begin.to_string());
    assert_eq!("end", EventType::End.to_string());
    assert_eq!("cancel", EventType::Cancel.to_string());
    assert_eq!("pause", EventType::Pause.to_string());
    assert_eq!("resume", EventType::Resume.to_string());
    assert_eq!("index_mark(here)", EventType::IndexMark(String::from("here")).to_string());
}

#[test]
fn errors_describe_themselves() {
    assert_eq!("Not ready", ClientError::NotReady.to_string());
    assert_eq!("Too few lines", ClientError::TooFewLines.to_string());
    assert_eq!("Too many lines", ClientError::TooManyLines.to_string());
    assert_eq!("Unexpected status: 208", ClientError::UnexpectedStatus(208).to_string());
    assert_eq!(
        "SSIP: 409 RATE TOO HIGH",
        ClientError::Ssip(StatusLine { code: 409, message: String::from("RATE TOO HIGH") })
            .to_string()
    );
    assert_eq!("I/O: bad", ClientError::invalid_data("bad").to_string());
    assert_eq!("216 OUTPUT MODULE SET", StatusLine { code: 216, message: String::from("OUTPUT MODULE SET") }.to_string());
}

#[test]
fn errors_are_built_by_kind() {
    match ClientError::invalid_data("a") {
        ClientError::Io(err) => {
            assert_eq!(ErrorKind::InvalidData, err.kind());
            assert_eq!("a", err.message());
        }
        other => panic!("unexpected error: {:?}", other),
    }
    match ClientError::unexpected_eof("b") {
        ClientError::Io(err) => assert_eq!(ErrorKind::UnexpectedEof, err.kind()),
        other => panic!("unexpected error: {:?}", other),
    }
    match ClientError::invalid_input("c") {
        ClientError::Io(err) => assert_eq!(ErrorKind::InvalidInput, err.kind()),
        other => panic!("unexpected error: {:?}", other),
    }
    assert_eq!(
        ClientError::Io(IoError::new(ErrorKind::NotFound, "d")),
        ClientError::io_error(ErrorKind::NotFound, "d")
    );
    // A transport that would block is not ready; any other failure is kept.
    assert_eq!(
        ClientError::NotReady,
        ClientError::from_io(IoError::new(ErrorKind::WouldBlock, "later"))
    );
    assert_eq!(
        ClientError::Io(IoError::new(ErrorKind::Other, "broken pipe")),
        ClientError::from_io(IoError::new(ErrorKind::Other, "broken pipe"))
    );
}
