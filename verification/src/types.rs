//! Values exchanged with the speech server, and the tokens that stand for
//! them on the wire.

use crate::constants::ReturnCode;
use crate::error::{invalid_data_failure, unexpected_eof_failure, ClientError, ClientErrorView};
use crate::text::{
    decimal, decimal_string, parse_u32, parse_unsigned, same_text, split_fields, split_limit,
};
use vstd::prelude::*;
use vstd::string::*;

verus! {

/// Identifier of a message.
pub type MessageId = u32;

/// Identifier of a client.
pub type ClientId = u32;

/// The messages that a command applies to.
#[derive(Debug, Clone, Copy, PartialEq, Eq, Hash)]
pub enum MessageScope {
    /// The last message of the current client.
    Last,
    /// The messages of all clients.
    All,
    /// One message.
    Message(MessageId),
}

impl MessageScope {
    /// The token that stands for this scope in a command.
    pub open spec fn token(self) -> Seq<char> {
        match self {
            MessageScope::Last => "self"@,
            MessageScope::All => "all"@,
            MessageScope::Message(id) => decimal(id as nat),
        }
    }

    /// The token that stands for this scope in a command.
    pub fn to_string(&self) -> (token: String)
        ensures
            token@ == self.token(),
    {
        match self {
            MessageScope::Last => "self".to_string(),
            MessageScope::All => "all".to_string(),
            MessageScope::Message(id) => decimal_string(*id as u64),
        }
    }
}

/// The clients that a command applies to.
#[derive(Debug, Clone, Copy, PartialEq, Eq, Hash)]
pub enum ClientScope {
    /// The current client.
    Current,
    /// All clients.
    All,
    /// One client.
    Client(ClientId),
}

impl ClientScope {
    /// The token that stands for this scope in a command.
    pub open spec fn token(self) -> Seq<char> {
        match self {
            ClientScope::Current => "self"@,
            ClientScope::All => "all"@,
            ClientScope::Client(id) => decimal(id as nat),
        }
    }

    /// The token that stands for this scope in a command.
    pub fn to_string(&self) -> (token: String)
        ensures
            token@ == self.token(),
    {
        match self {
            ClientScope::Current => "self".to_string(),
            ClientScope::All => "all".to_string(),
            ClientScope::Client(id) => decimal_string(*id as u64),
        }
    }
}

/// Position of the cursor in the history.
#[derive(Debug, Clone, Copy, PartialEq, Eq, Hash)]
pub enum HistoryPosition {
    /// The first message.
    First,
    /// The last message.
    Last,
    /// The message at this position.
    Pos(u16),
}

impl HistoryPosition {
    /// The words that stand for this position in a command.
    pub open spec fn token(self) -> Seq<char> {
        match self {
            HistoryPosition::First => "first"@,
            HistoryPosition::Last => "last"@,
            HistoryPosition::Pos(n) => "pos "@ + decimal(n as nat),
        }
    }

    /// The words that stand for this position in a command.
    pub fn to_string(&self) -> (token: String)
        ensures
            token@ == self.token(),
    {
        match self {
            HistoryPosition::First => "first".to_string(),
            HistoryPosition::Last => "last".to_string(),
            HistoryPosition::Pos(n) => {
                let mut token = "pos ".to_string();
                token.append(decimal_string(*n as u64).as_str());
                token
            },
        }
    }
}

/// Priority of a message: it decides which message is spoken first and which one is dropped.
#[derive(Debug, Clone, Copy, PartialEq, Eq, Hash)]
pub enum Priority {
    Progress,
    Notification,
    Message,
    Text,
    Important,
}

impl Priority {
    /// The token that stands for this value in a command.
    pub open spec fn token(self) -> Seq<char> {
        match self {
            Priority::Progress => "progress"@,
            Priority::Notification => "notification"@,
            Priority::Message => "message"@,
            Priority::Text => "text"@,
            Priority::Important => "important"@,
        }
    }

    /// The token that stands for this value in a command.
    pub fn as_str(&self) -> (token: &'static str)
        ensures
            token@ == self.token(),
    {
        match self {
            Priority::Progress => "progress",
            Priority::Notification => "notification",
            Priority::Message => "message",
            Priority::Text => "text",
            Priority::Important => "important",
        }
    }

    /// The token as an owned string.
    pub fn to_string(&self) -> (token: String)
        ensures
            token@ == self.token(),
    {
        self.as_str().to_string()
    }
}

/// Which punctuation characters are spoken.
#[derive(Debug, Clone, Copy, PartialEq, Eq, Hash)]
pub enum PunctuationMode {
    /// No punctuation character is spoken.
    Off,
    /// Only the characters that the server is set up to speak.
    Partial,
    Most,
    All,
}

impl PunctuationMode {
    /// The token that stands for this value in a command.
    pub open spec fn token(self) -> Seq<char> {
        match self {
            PunctuationMode::Off => "none"@,
            PunctuationMode::Partial => "some"@,
            PunctuationMode::Most => "most"@,
            PunctuationMode::All => "all"@,
        }
    }

    /// The token that stands for this value in a command.
    pub fn as_str(&self) -> (token: &'static str)
        ensures
            token@ == self.token(),
    {
        match self {
            PunctuationMode::Off => "none",
            PunctuationMode::Partial => "some",
            PunctuationMode::Most => "most",
            PunctuationMode::All => "all",
        }
    }

    /// The token as an owned string.
    pub fn to_string(&self) -> (token: String)
        ensures
            token@ == self.token(),
    {
        self.as_str().to_string()
    }
}

/// How capital letters are signalled.
#[derive(Debug, Clone, Copy, PartialEq, Eq, Hash)]
pub enum CapitalLettersRecognitionMode {
    /// Capital letters are not signalled.
    Off,
    Spell,
    Icon,
}

impl CapitalLettersRecognitionMode {
    /// The token that stands for this value in a command.
    pub open spec fn token(self) -> Seq<char> {
        match self {
            CapitalLettersRecognitionMode::Off => "none"@,
            CapitalLettersRecognitionMode::Spell => "spell"@,
            CapitalLettersRecognitionMode::Icon => "icon"@,
        }
    }

    /// The token that stands for this value in a command.
    pub fn as_str(&self) -> (token: &'static str)
        ensures
            token@ == self.token(),
    {
        match self {
            CapitalLettersRecognitionMode::Off => "none",
            CapitalLettersRecognitionMode::Spell => "spell",
            CapitalLettersRecognitionMode::Icon => "icon",
        }
    }

    /// The token as an owned string.
    pub fn to_string(&self) -> (token: String)
        ensures
            token@ == self.token(),
    {
        self.as_str().to_string()
    }
}

/// Symbolic name of a key.
#[derive(Debug, Clone, Copy, PartialEq, Eq, Hash)]
pub enum KeyName {
    Space,
    Underscore,
    DoubleQuote,
    Alt,
    Control,
    Hyper,
    Meta,
    Shift,
    Super,
    Backspace,
    Break,
    Delete,
    Down,
    End,
    Enter,
    Escape,
    F1,
    F2,
    F3,
    F4,
    F5,
    F6,
    F7,
    F8,
    F9,
    F10,
    F11,
    F12,
    F13,
    F14,
    F15,
    F16,
    F17,
    F18,
    F19,
    F20,
    F21,
    F22,
    F23,
    F24,
    Home,
    Insert,
    KpMultiply,
    KpPlus,
    KpMinus,
    KpDot,
    KpDivide,
    Kp0,
    Kp1,
    Kp2,
    Kp3,
    Kp4,
    Kp5,
    Kp6,
    Kp7,
    Kp8,
    Kp9,
    KpEnter,
    Left,
    Menu,
    Next,
    NumLock,
    Pause,
    Print,
    Prior,
    Return,
    Right,
    ScrollLock,
    Tab,
    Up,
    Window,
}

impl KeyName {
    /// The token that stands for this value in a command.
    pub open spec fn token(self) -> Seq<char> {
        match self {
            KeyName::Space => "space"@,
            KeyName::Underscore => "underscore"@,
            KeyName::DoubleQuote => "double-quote"@,
            KeyName::Alt => "alt"@,
            KeyName::Control => "control"@,
            KeyName::Hyper => "hyper"@,
            KeyName::Meta => "meta"@,
            KeyName::Shift => "shift"@,
            KeyName::Super => "super"@,
            KeyName::Backspace => "backspace"@,
            KeyName::Break => "break"@,
            KeyName::Delete => "delete"@,
            KeyName::Down => "down"@,
            KeyName::End => "end"@,
            KeyName::Enter => "enter"@,
            KeyName::Escape => "escape"@,
            KeyName::F1 => "f1"@,
            KeyName::F2 => "f2"@,
            KeyName::F3 => "f3"@,
            KeyName::F4 => "f4"@,
            KeyName::F5 => "f5"@,
            KeyName::F6 => "f6"@,
            KeyName::F7 => "f7"@,
            KeyName::F8 => "f8"@,
            KeyName::F9 => "f9"@,
            KeyName::F10 => "f10"@,
            KeyName::F11 => "f11"@,
            KeyName::F12 => "f12"@,
            KeyName::F13 => "f13"@,
            KeyName::F14 => "f14"@,
            KeyName::F15 => "f15"@,
            KeyName::F16 => "f16"@,
            KeyName::F17 => "f17"@,
            KeyName::F18 => "f18"@,
            KeyName::F19 => "f19"@,
            KeyName::F20 => "f20"@,
            KeyName::F21 => "f21"@,
            KeyName::F22 => "f22"@,
            KeyName::F23 => "f23"@,
            KeyName::F24 => "f24"@,
            KeyName::Home => "home"@,
            KeyName::Insert => "insert"@,
            KeyName::KpMultiply => "kp-*"@,
            KeyName::KpPlus => "kp-+"@,
            KeyName::KpMinus => "kp--"@,
            KeyName::KpDot => "kp-."@,
            KeyName::KpDivide => "kp-/"@,
            KeyName::Kp0 => "kp-0"@,
            KeyName::Kp1 => "kp-1"@,
            KeyName::Kp2 => "kp-2"@,
            KeyName::Kp3 => "kp-3"@,
            KeyName::Kp4 => "kp-4"@,
            KeyName::Kp5 => "kp-5"@,
            KeyName::Kp6 => "kp-6"@,
            KeyName::Kp7 => "kp-7"@,
            KeyName::Kp8 => "kp-8"@,
            KeyName::Kp9 => "kp-9"@,
            KeyName::KpEnter => "kp-enter"@,
            KeyName::Left => "left"@,
            KeyName::Menu => "menu"@,
            KeyName::Next => "next"@,
            KeyName::NumLock => "num-lock"@,
            KeyName::Pause => "pause"@,
            KeyName::Print => "print"@,
            KeyName::Prior => "prior"@,
            KeyName::Return => "return"@,
            KeyName::Right => "right"@,
            KeyName::ScrollLock => "scroll-lock"@,
            KeyName::Tab => "tab"@,
            KeyName::Up => "up"@,
            KeyName::Window => "window"@,
        }
    }

    /// The token that stands for this value in a command.
    pub fn as_str(&self) -> (token: &'static str)
        ensures
            token@ == self.token(),
    {
        match self {
            KeyName::Space => "space",
            KeyName::Underscore => "underscore",
            KeyName::DoubleQuote => "double-quote",
            KeyName::Alt => "alt",
            KeyName::Control => "control",
            KeyName::Hyper => "hyper",
            KeyName::Meta => "meta",
            KeyName::Shift => "shift",
            KeyName::Super => "super",
            KeyName::Backspace => "backspace",
            KeyName::Break => "break",
            KeyName::Delete => "delete",
            KeyName::Down => "down",
            KeyName::End => "end",
            KeyName::Enter => "enter",
            KeyName::Escape => "escape",
            KeyName::F1 => "f1",
            KeyName::F2 => "f2",
            KeyName::F3 => "f3",
            KeyName::F4 => "f4",
            KeyName::F5 => "f5",
            KeyName::F6 => "f6",
            KeyName::F7 => "f7",
            KeyName::F8 => "f8",
            KeyName::F9 => "f9",
            KeyName::F10 => "f10",
            KeyName::F11 => "f11",
            KeyName::F12 => "f12",
            KeyName::F13 => "f13",
            KeyName::F14 => "f14",
            KeyName::F15 => "f15",
            KeyName::F16 => "f16",
            KeyName::F17 => "f17",
            KeyName::F18 => "f18",
            KeyName::F19 => "f19",
            KeyName::F20 => "f20",
            KeyName::F21 => "f21",
            KeyName::F22 => "f22",
            KeyName::F23 => "f23",
            KeyName::F24 => "f24",
            KeyName::Home => "home",
            KeyName::Insert => "insert",
            KeyName::KpMultiply => "kp-*",
            KeyName::KpPlus => "kp-+",
            KeyName::KpMinus => "kp--",
            KeyName::KpDot => "kp-.",
            KeyName::KpDivide => "kp-/",
            KeyName::Kp0 => "kp-0",
            KeyName::Kp1 => "kp-1",
            KeyName::Kp2 => "kp-2",
            KeyName::Kp3 => "kp-3",
            KeyName::Kp4 => "kp-4",
            KeyName::Kp5 => "kp-5",
            KeyName::Kp6 => "kp-6",
            KeyName::Kp7 => "kp-7",
            KeyName::Kp8 => "kp-8",
            KeyName::Kp9 => "kp-9",
            KeyName::KpEnter => "kp-enter",
            KeyName::Left => "left",
            KeyName::Menu => "menu",
            KeyName::Next => "next",
            KeyName::NumLock => "num-lock",
            KeyName::Pause => "pause",
            KeyName::Print => "print",
            KeyName::Prior => "prior",
            KeyName::Return => "return",
            KeyName::Right => "right",
            KeyName::ScrollLock => "scroll-lock",
            KeyName::Tab => "tab",
            KeyName::Up => "up",
            KeyName::Window => "window",
        }
    }

    /// The token as an owned string.
    pub fn to_string(&self) -> (token: String)
        ensures
            token@ == self.token(),
    {
        self.as_str().to_string()
    }
}

/// Kind of event that a client asks to be notified of.
#[derive(Debug, Clone, Copy, PartialEq, Eq, Hash)]
pub enum NotificationType {
    Begin,
    End,
    Cancel,
    Pause,
    Resume,
    IndexMark,
    All,
}

impl NotificationType {
    /// The token that stands for this value in a command.
    pub open spec fn token(self) -> Seq<char> {
        match self {
            NotificationType::Begin => "begin"@,
            NotificationType::End => "end"@,
            NotificationType::Cancel => "cancel"@,
            NotificationType::Pause => "pause"@,
            NotificationType::Resume => "resume"@,
            NotificationType::IndexMark => "index_mark"@,
            NotificationType::All => "all"@,
        }
    }

    /// The token that stands for this value in a command.
    pub fn as_str(&self) -> (token: &'static str)
        ensures
            token@ == self.token(),
    {
        match self {
            NotificationType::Begin => "begin",
            NotificationType::End => "end",
            NotificationType::Cancel => "cancel",
            NotificationType::Pause => "pause",
            NotificationType::Resume => "resume",
            NotificationType::IndexMark => "index_mark",
            NotificationType::All => "all",
        }
    }

    /// The token as an owned string.
    pub fn to_string(&self) -> (token: String)
        ensures
            token@ == self.token(),
    {
        self.as_str().to_string()
    }
}

/// Direction in which the history cursor moves.
#[derive(Debug, Clone, Copy, PartialEq, Eq, Hash)]
pub enum CursorDirection {
    Backward,
    Forward,
}

impl CursorDirection {
    /// The token that stands for this value in a command.
    pub open spec fn token(self) -> Seq<char> {
        match self {
            CursorDirection::Backward => "backward"@,
            CursorDirection::Forward => "forward"@,
        }
    }

    /// The token that stands for this value in a command.
    pub fn as_str(&self) -> (token: &'static str)
        ensures
            token@ == self.token(),
    {
        match self {
            CursorDirection::Backward => "backward",
            CursorDirection::Forward => "forward",
        }
    }

    /// The token as an owned string.
    pub fn to_string(&self) -> (token: String)
        ensures
            token@ == self.token(),
    {
        self.as_str().to_string()
    }
}

/// Direction in which the history is sorted.
#[derive(Debug, Clone, Copy, PartialEq, Eq, Hash)]
pub enum SortDirection {
    Ascending,
    Descending,
}

impl SortDirection {
    /// The token that stands for this value in a command.
    pub open spec fn token(self) -> Seq<char> {
        match self {
            SortDirection::Ascending => "asc"@,
            SortDirection::Descending => "desc"@,
        }
    }

    /// The token that stands for this value in a command.
    pub fn as_str(&self) -> (token: &'static str)
        ensures
            token@ == self.token(),
    {
        match self {
            SortDirection::Ascending => "asc",
            SortDirection::Descending => "desc",
        }
    }

    /// The token as an owned string.
    pub fn to_string(&self) -> (token: String)
        ensures
            token@ == self.token(),
    {
        self.as_str().to_string()
    }
}

/// Property by which the messages of the history are sorted.
#[derive(Debug, Clone, Copy, PartialEq, Eq, Hash)]
pub enum SortKey {
    ClientName,
    Priority,
    MessageType,
    Time,
    User,
}

impl SortKey {
    /// The token that stands for this value in a command.
    pub open spec fn token(self) -> Seq<char> {
        match self {
            SortKey::ClientName => "client_name"@,
            SortKey::Priority => "priority"@,
            SortKey::MessageType => "message_type"@,
            SortKey::Time => "time"@,
            SortKey::User => "user"@,
        }
    }

    /// The token that stands for this value in a command.
    pub fn as_str(&self) -> (token: &'static str)
        ensures
            token@ == self.token(),
    {
        match self {
            SortKey::ClientName => "client_name",
            SortKey::Priority => "priority",
            SortKey::MessageType => "message_type",
            SortKey::Time => "time",
            SortKey::User => "user",
        }
    }

    /// The token as an owned string.
    pub fn to_string(&self) -> (token: String)
        ensures
            token@ == self.token(),
    {
        self.as_str().to_string()
    }
}

/// Type of message, as ranked in the history.
#[derive(Debug, Clone, Copy, PartialEq, Eq, Hash)]
pub enum MessageOrdering {
    Text,
    SoundIcon,
    Char,
    Key,
}

impl MessageOrdering {
    /// The token that stands for this value in a command.
    pub open spec fn token(self) -> Seq<char> {
        match self {
            MessageOrdering::Text => "text"@,
            MessageOrdering::SoundIcon => "sound_icon"@,
            MessageOrdering::Char => "char"@,
            MessageOrdering::Key => "key"@,
        }
    }

    /// The token that stands for this value in a command.
    pub fn as_str(&self) -> (token: &'static str)
        ensures
            token@ == self.token(),
    {
        match self {
            MessageOrdering::Text => "text",
            MessageOrdering::SoundIcon => "sound_icon",
            MessageOrdering::Char => "char",
            MessageOrdering::Key => "key",
        }
    }

    /// The token as an owned string.
    pub fn to_string(&self) -> (token: String)
        ensures
            token@ == self.token(),
    {
        self.as_str().to_string()
    }
}
/// Name under which a client registers: `user:application:component`.
#[derive(Debug, Clone, PartialEq, Eq, Hash)]
pub struct ClientName {
    pub user: String,
    pub application: String,
    pub component: String,
}

/// Mathematical value of a [`ClientName`].
pub struct ClientNameView {
    pub user: Seq<char>,
    pub application: Seq<char>,
    pub component: Seq<char>,
}

impl View for ClientName {
    type V = ClientNameView;

    open spec fn view(&self) -> ClientNameView {
        ClientNameView {
            user: self.user@,
            application: self.application@,
            component: self.component@,
        }
    }
}

impl ClientNameView {
    /// The name as it is written in a command.
    pub open spec fn token(self) -> Seq<char> {
        self.user + ":"@ + self.application + ":"@ + self.component
    }
}

impl ClientName {
    /// The name of the component `main` of `application`, run by `user`.
    pub fn new(user: &str, application: &str) -> (name: ClientName)
        ensures
            name@ == (ClientNameView {
                user: user@,
                application: application@,
                component: "main"@,
            }),
    {
        ClientName::with_component(user, application, "main")
    }

    /// The name of `component` of `application`, run by `user`.
    pub fn with_component(user: &str, application: &str, component: &str) -> (name: ClientName)
        ensures
            name@ == (ClientNameView {
                user: user@,
                application: application@,
                component: component@,
            }),
    {
        ClientName {
            user: user.to_string(),
            application: application.to_string(),
            component: component.to_string(),
        }
    }

    /// The name as it is written in a command.
    pub fn to_string(&self) -> (token: String)
        ensures
            token@ == self@.token(),
    {
        let mut token = self.user.clone();
        token.append(":");
        token.append(self.application.as_str());
        token.append(":");
        token.append(self.component.as_str());
        token
    }
}

/// Status line of a reply: a three-digit code and a message, such as
/// `216 OK OUTPUT MODULE SET` or `409 ERR RATE TOO HIGH`.
#[derive(Debug, Clone, PartialEq, Eq, Hash)]
pub struct StatusLine {
    pub code: ReturnCode,
    pub message: String,
}

/// Mathematical value of a [`StatusLine`].
pub struct StatusLineView {
    pub code: ReturnCode,
    pub message: Seq<char>,
}

impl View for StatusLine {
    type V = StatusLineView;

    open spec fn view(&self) -> StatusLineView {
        StatusLineView { code: self.code, message: self.message@ }
    }
}

impl StatusLineView {
    /// The code, a space and the message.
    pub open spec fn text(self) -> Seq<char> {
        decimal(self.code as nat) + " "@ + self.message
    }
}

impl StatusLine {
    /// The code, a space and the message.
    pub fn to_string(&self) -> (text: String)
        ensures
            text@ == self@.text(),
    {
        let mut text = decimal_string(self.code as u64);
        text.append(" ");
        text.append(self.message.as_str());
        text
    }
}

/// What identifies the message that an event is about.
#[derive(Debug, Clone, PartialEq, Eq, Hash)]
pub struct EventId {
    /// Identifier of the message.
    pub message: String,
    /// Identifier of the client.
    pub client: String,
}

/// Mathematical value of an [`EventId`].
pub struct EventIdView {
    pub message: Seq<char>,
    pub client: Seq<char>,
}

impl View for EventId {
    type V = EventIdView;

    open spec fn view(&self) -> EventIdView {
        EventIdView { message: self.message@, client: self.client@ }
    }
}

impl EventId {
    /// The identifier of `message`, sent by `client`.
    pub fn new(message: &str, client: &str) -> (id: EventId)
        ensures
            id@ == (EventIdView { message: message@, client: client@ }),
    {
        EventId { message: message.to_string(), client: client.to_string() }
    }
}

/// Kind of a notification event, as the server reports it.
#[derive(Debug, Clone, PartialEq, Eq, Hash)]
pub enum EventType {
    Begin,
    End,
    Cancel,
    Pause,
    Resume,
    /// An index mark was reached: its name.
    IndexMark(String),
}

/// Mathematical value of an [`EventType`].
pub enum EventTypeView {
    Begin,
    End,
    Cancel,
    Pause,
    Resume,
    IndexMark(Seq<char>),
}

impl View for EventType {
    type V = EventTypeView;

    open spec fn view(&self) -> EventTypeView {
        match self {
            EventType::Begin => EventTypeView::Begin,
            EventType::End => EventTypeView::End,
            EventType::Cancel => EventTypeView::Cancel,
            EventType::Pause => EventTypeView::Pause,
            EventType::Resume => EventTypeView::Resume,
            EventType::IndexMark(mark) => EventTypeView::IndexMark(mark@),
        }
    }
}

impl EventTypeView {
    /// The name of this kind of event.
    pub open spec fn text(self) -> Seq<char> {
        match self {
            EventTypeView::Begin => "begin"@,
            EventTypeView::End => "end"@,
            EventTypeView::Cancel => "cancel"@,
            EventTypeView::Pause => "pause"@,
            EventTypeView::Resume => "resume"@,
            EventTypeView::IndexMark(mark) => "index_mark("@ + mark + ")"@,
        }
    }
}

impl EventType {
    /// The name of this kind of event.
    pub fn to_string(&self) -> (text: String)
        ensures
            text@ == self@.text(),
    {
        match self {
            EventType::Begin => "begin".to_string(),
            EventType::End => "end".to_string(),
            EventType::Cancel => "cancel".to_string(),
            EventType::Pause => "pause".to_string(),
            EventType::Resume => "resume".to_string(),
            EventType::IndexMark(mark) => {
                let mut text = "index_mark(".to_string();
                text.append(mark.as_str());
                text.append(")");
                text
            },
        }
    }
}

/// A notification event.
#[derive(Debug, Clone, PartialEq, Eq, Hash)]
pub struct Event {
    pub ntype: EventType,
    pub id: EventId,
}

/// Mathematical value of an [`Event`].
pub struct EventView {
    pub ntype: EventTypeView,
    pub id: EventIdView,
}

impl View for Event {
    type V = EventView;

    open spec fn view(&self) -> EventView {
        EventView { ntype: self.ntype@, id: self.id@ }
    }
}

/// The event of kind `ntype` about `message`, sent by `client`.
pub open spec fn event_of(
    ntype: EventTypeView,
    message: Seq<char>,
    client: Seq<char>,
) -> EventView {
    EventView { ntype, id: EventIdView { message, client } }
}

impl Event {
    /// The event of kind `ntype` about `message`, sent by `client`.
    pub fn new(ntype: EventType, message: &str, client: &str) -> (event: Event)
        ensures
            event@ == event_of(ntype@, message@, client@),
    {
        Event { ntype, id: EventId::new(message, client) }
    }

    /// The server began to speak `message`.
    pub fn begin(message: &str, client: &str) -> (event: Event)
        ensures
            event@ == event_of(EventTypeView::Begin, message@, client@),
    {
        Event::new(EventType::Begin, message, client)
    }

    /// The server spoke `message` to its end.
    pub fn end(message: &str, client: &str) -> (event: Event)
        ensures
            event@ == event_of(EventTypeView::End, message@, client@),
    {
        Event::new(EventType::End, message, client)
    }

    /// The server reached the index mark `mark` in `message`.
    pub fn index_mark(mark: String, message: &str, client: &str) -> (event: Event)
        ensures
            event@ == event_of(EventTypeView::IndexMark(mark@), message@, client@),
    {
        Event::new(EventType::IndexMark(mark), message, client)
    }

    /// `message` was canceled.
    pub fn cancel(message: &str, client: &str) -> (event: Event)
        ensures
            event@ == event_of(EventTypeView::Cancel, message@, client@),
    {
        Event::new(EventType::Cancel, message, client)
    }

    /// `message` was paused.
    pub fn pause(message: &str, client: &str) -> (event: Event)
        ensures
            event@ == event_of(EventTypeView::Pause, message@, client@),
    {
        Event::new(EventType::Pause, message, client)
    }

    /// `message` was resumed.
    pub fn resume(message: &str, client: &str) -> (event: Event)
        ensures
            event@ == event_of(EventTypeView::Resume, message@, client@),
    {
        Event::new(EventType::Resume, message, client)
    }
}

/// A voice of a synthesizer.
#[derive(Debug, Clone, PartialEq, Eq, Hash)]
pub struct SynthesisVoice {
    pub name: String,
    pub language: Option<String>,
    pub dialect: Option<String>,
}

/// Mathematical value of a [`SynthesisVoice`].
pub struct SynthesisVoiceView {
    pub name: Seq<char>,
    pub language: Option<Seq<char>>,
    pub dialect: Option<Seq<char>>,
}

/// The characters of an optional string.
pub open spec fn option_text(text: Option<String>) -> Option<Seq<char>> {
    match text {
        Some(s) => Some(s@),
        None => None,
    }
}

/// The characters of an optional string slice.
pub open spec fn option_str_text(text: Option<&str>) -> Option<Seq<char>> {
    match text {
        Some(s) => Some(s@),
        None => None,
    }
}

impl View for SynthesisVoice {
    type V = SynthesisVoiceView;

    open spec fn view(&self) -> SynthesisVoiceView {
        SynthesisVoiceView {
            name: self.name@,
            language: option_text(self.language),
            dialect: option_text(self.dialect),
        }
    }
}

/// A field that is missing, or holds the word `none`, is absent.
pub open spec fn absent_if_none(token: Option<Seq<char>>) -> Option<Seq<char>> {
    match token {
        Some(text) => if text == "none"@ {
            None
        } else {
            Some(text)
        },
        None => None,
    }
}

/// The field at index `i`, where there is one.
pub open spec fn field_at(fields: Seq<Seq<char>>, i: int) -> Option<Seq<char>> {
    if 0 <= i < fields.len() {
        Some(fields[i])
    } else {
        None
    }
}

/// The voice that a line of a voice list describes: name, language and
/// dialect, separated by tabs. What follows a third tab is not read.
pub open spec fn voice_of(line: Seq<char>) -> SynthesisVoiceView {
    let fields = split_limit(line, '\t', 4);
    SynthesisVoiceView {
        name: fields[0],
        language: absent_if_none(field_at(fields, 1)),
        dialect: absent_if_none(field_at(fields, 2)),
    }
}

impl SynthesisVoice {
    /// The voice `name`, with its language and dialect where it has them.
    pub fn new(name: &str, language: Option<&str>, dialect: Option<&str>) -> (voice: SynthesisVoice)
        ensures
            voice@ == (SynthesisVoiceView {
                name: name@,
                language: option_str_text(language),
                dialect: option_str_text(dialect),
            }),
    {
        SynthesisVoice {
            name: name.to_string(),
            language: match language {
                Some(s) => Some(s.to_string()),
                None => None,
            },
            dialect: match dialect {
                Some(s) => Some(s.to_string()),
                None => None,
            },
        }
    }

    /// Reads an optional field: a missing one, or the word `none`, is
    /// absent.
    pub fn parse_none(token: Option<&str>) -> (value: Option<String>)
        ensures
            option_text(value) == absent_if_none(option_str_text(token)),
    {
        match token {
            Some(s) => if same_text(s, "none") {
                None
            } else {
                Some(s.to_string())
            },
            None => None,
        }
    }

    /// Reads a line of a voice list.
    pub fn from_str(s: &str) -> (result: Result<SynthesisVoice, ClientError>)
        ensures
            result is Ok,
            result->Ok_0@ == voice_of(s@),
    {
        let fields = split_fields(s, '\t', 4);
        let ghost texts = split_limit(s@, '\t', 4);
        assert(texts.len() == fields.len());
        assert(forall|i: int| 0 <= i < fields.len() ==> fields@[i]@ == #[trigger] texts[i]);
        let language = if fields.len() > 1 {
            SynthesisVoice::parse_none(Some(fields[1].as_str()))
        } else {
            None
        };
        let dialect = if fields.len() > 2 {
            SynthesisVoice::parse_none(Some(fields[2].as_str()))
        } else {
            None
        };
        Ok(SynthesisVoice { name: fields[0].clone(), language, dialect })
    }
}

/// A client, as the history lists it.
#[derive(Debug, Clone, PartialEq, Eq, Hash)]
pub struct HistoryClientStatus {
    pub id: ClientId,
    pub name: String,
    pub connected: bool,
}

/// Mathematical value of a [`HistoryClientStatus`].
pub struct HistoryClientStatusView {
    pub id: ClientId,
    pub name: Seq<char>,
    pub connected: bool,
}

impl View for HistoryClientStatus {
    type V = HistoryClientStatusView;

    open spec fn view(&self) -> HistoryClientStatusView {
        HistoryClientStatusView { id: self.id, name: self.name@, connected: self.connected }
    }
}

/// The client that a line of a client list describes: identifier, name and
/// `0` or `1` for its connection, separated by spaces.
pub open spec fn history_client_of(line: Seq<char>) -> Result<
    HistoryClientStatusView,
    ClientErrorView,
> {
    let fields = split_limit(line, ' ', 3);
    if fields[0].len() == 0 {
        Err(unexpected_eof_failure("expecting client id"@))
    } else {
        match parse_unsigned(fields[0], u32::MAX as nat) {
            None => Err(invalid_data_failure("invalid client id"@)),
            Some(id) => if fields.len() < 2 {
                Err(unexpected_eof_failure("expecting client name"@))
            } else if fields.len() < 3 {
                Err(unexpected_eof_failure("expecting client status"@))
            } else if fields[2] == "0"@ {
                Ok(HistoryClientStatusView { id: id as u32, name: fields[1], connected: false })
            } else if fields[2] == "1"@ {
                Ok(HistoryClientStatusView { id: id as u32, name: fields[1], connected: true })
            } else {
                Err(invalid_data_failure("invalid client status"@))
            },
        }
    }
}

/// The mathematical value of a result.
pub open spec fn result_view<T: View, E: View>(result: Result<T, E>) -> Result<T::V, E::V> {
    match result {
        Ok(value) => Ok(value@),
        Err(error) => Err(error@),
    }
}

impl HistoryClientStatus {
    /// The client `id`, registered as `name`.
    pub fn new(id: ClientId, name: &str, connected: bool) -> (status: HistoryClientStatus)
        ensures
            status@ == (HistoryClientStatusView { id, name: name@, connected }),
    {
        HistoryClientStatus { id, name: name.to_string(), connected }
    }

    /// Reads a line of a client list.
    pub fn from_str(s: &str) -> (result: Result<HistoryClientStatus, ClientError>)
        ensures
            result_view(result) == history_client_of(s@),
    {
        let fields = split_fields(s, ' ', 3);
        let ghost texts = split_limit(s@, ' ', 3);
        assert(texts.len() == fields.len());
        assert(forall|i: int| 0 <= i < fields.len() ==> fields@[i]@ == #[trigger] texts[i]);
        if fields[0].as_str().unicode_len() == 0 {
            return Err(ClientError::unexpected_eof("expecting client id"));
        }
        match parse_u32(fields[0].as_str()) {
            None => Err(ClientError::invalid_data("invalid client id")),
            Some(id) => {
                if fields.len() < 2 {
                    Err(ClientError::unexpected_eof("expecting client name"))
                } else if fields.len() < 3 {
                    Err(ClientError::unexpected_eof("expecting client status"))
                } else if same_text(fields[2].as_str(), "0") {
                    Ok(HistoryClientStatus { id, name: fields[1].clone(), connected: false })
                } else if same_text(fields[2].as_str(), "1") {
                    Ok(HistoryClientStatus { id, name: fields[1].clone(), connected: true })
                } else {
                    Err(ClientError::invalid_data("invalid client status"))
                }
            },
        }
    }
}

} // verus!
