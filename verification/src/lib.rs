//! A client of the Speech Synthesis Interface Protocol, the line-oriented
//! protocol of the Speech Dispatcher server.
//!
//! The crate is the protocol engine: it turns requests into command lines
//! and replies into responses, and holds no socket. The [`client::Client`]
//! keeps both ends of a connection in memory; whoever owns the transport
//! hands it the bytes that arrive and carries away the bytes that it
//! writes. Every function of the crate is verified against its contract.
//!
//! ```text
//! let mut client = Client::new(InputBuffer::new(), OutputBuffer::new());
//! client.set_client_name(ClientName::new("joe", "hello"))?;
//! transport.write_all(&client.take_output())?;
//! client.feed(&transport.read()?);
//! client.check_client_name_set()?;
//! ```

pub mod client;
pub mod constants;
pub mod error;
pub mod fifo;
pub mod language_detection;
pub mod laws;
pub mod one_line;
pub mod poll;
pub mod protocol;
pub mod request;
pub mod response;
pub mod speak;
pub mod stream;
pub mod text;
pub mod types;

pub use crate::client::Client;
pub use crate::error::{ClientError, ClientResult, ClientStatus, ErrorKind, IoError};
pub use crate::poll::QueuedClient;
pub use crate::request::Request;
pub use crate::response::Response;
pub use crate::stream::{InputBuffer, OutputBuffer};
pub use crate::types::{
    CapitalLettersRecognitionMode, ClientId, ClientName, ClientScope, CursorDirection, Event,
    EventId, EventType, HistoryClientStatus, HistoryPosition, KeyName, MessageId, MessageOrdering,
    MessageScope, NotificationType, Priority, PunctuationMode, SortDirection, SortKey, StatusLine,
    SynthesisVoice,
};
