//! A client with a queue of requests, for a transport that may not be
//! ready.
//!
//! Requests wait in the queue until the write side of the transport takes
//! them. Whoever drives the transport calls [`QueuedClient::send_next`] when
//! the transport has become writable, until the queue is empty or the write
//! side is full, and [`QueuedClient::receive_next`] when bytes have arrived.

use crate::client::{reply_then, Client, ClientView};
use crate::error::{ClientError, ClientResult};
use crate::request::Request;
use crate::response::{response_of, Response};
use crate::stream::{InputBuffer, OutputBuffer};
use crate::types::{result_view, StatusLineView};
use std::collections::VecDeque;
use vstd::prelude::*;

verus! {

/// How many requests the queue holds before it grows.
pub const INITIAL_REQUEST_QUEUE_CAPACITY: usize = 4;

/// A client with a queue of requests.
pub struct QueuedClient {
    client: Client,
    requests: VecDeque<Request>,
}

/// Mathematical value of a [`QueuedClient`].
pub struct QueuedClientView {
    /// The client that sends and receives.
    pub client: ClientView,
    /// The requests that wait, the next one to send first.
    pub requests: Seq<Request>,
}

/// What an attempt to send the next request comes to.
pub enum Sending {
    /// No request waits.
    Idle,
    /// The next request was written and left the queue.
    Sent,
    /// The next request does not fit into the write side: it stays in the
    /// queue.
    Blocked,
}

impl QueuedClientView {
    /// What an attempt to send the next request comes to.
    pub open spec fn sending(self) -> Sending {
        if self.requests.len() == 0 {
            Sending::Idle
        } else if self.client.can_write(self.requests[0].wire_lines()) {
            Sending::Sent
        } else {
            Sending::Blocked
        }
    }

    /// The value after an attempt to send the next request.
    pub open spec fn after_send_next(self) -> QueuedClientView {
        match self.sending() {
            Sending::Sent => QueuedClientView {
                client: self.client.written(self.requests[0].wire_lines()),
                requests: self.requests.skip(1),
            },
            _ => self,
        }
    }

    /// The value after the transport has carried away all that was
    /// released to it.
    pub open spec fn drained(self) -> QueuedClientView {
        QueuedClientView { client: self.client.drained(), ..self }
    }
}

impl View for QueuedClient {
    type V = QueuedClientView;

    closed spec fn view(&self) -> QueuedClientView {
        QueuedClientView { client: self.client@, requests: self.requests@ }
    }
}

impl QueuedClient {
    /// A client with an empty queue, on top of `client`.
    pub fn new(client: Client) -> (queued: QueuedClient)
        ensures
            queued@ == (QueuedClientView { client: client@, requests: Seq::empty() }),
    {
        QueuedClient {
            client,
            requests: VecDeque::with_capacity(INITIAL_REQUEST_QUEUE_CAPACITY),
        }
    }

    /// The read side: what has arrived and was not read yet.
    pub fn input_source(&self) -> (input: &InputBuffer)
        ensures
            input@ == self@.client.input,
    {
        self.client.input_source()
    }

    /// The write side: what was written and not carried away yet.
    pub fn output_source(&self) -> (output: &OutputBuffer)
        ensures
            output@ == self@.client.output,
    {
        self.client.output_source()
    }

    /// Hands the client bytes that have arrived.
    pub fn feed(&mut self, bytes: &[u8])
        ensures
            final(self)@ == (QueuedClientView {
                client: old(self)@.client.fed(bytes@),
                ..old(self)@
            }),
    {
        self.client.feed(bytes);
    }

    /// Takes the bytes that the transport is to carry away.
    pub fn take_output(&mut self) -> (bytes: Vec<u8>)
        ensures
            bytes@ == old(self)@.client.output.flushed,
            final(self)@ == old(self)@.drained(),
    {
        self.client.take_output()
    }

    /// Drops the first `count` bytes of what the transport is to carry
    /// away, once it has done so: all of them where there are fewer.
    pub fn consume_output(&mut self, count: usize)
        ensures
            final(self)@ == (QueuedClientView {
                client: old(self)@.client.consumed(count as nat),
                ..old(self)@
            }),
    {
        self.client.consume_output(count);
    }

    /// Puts a request at the end of the queue.
    pub fn push(&mut self, request: Request)
        ensures
            final(self)@ == (QueuedClientView {
                requests: old(self)@.requests.push(request),
                ..old(self)@
            }),
    {
        self.requests.push_back(request);
    }

    /// Takes the last request out of the queue.
    pub fn pop(&mut self) -> (request: Option<Request>)
        ensures
            old(self)@.requests.len() == 0 ==> request is None && final(self)@ == old(self)@,
            old(self)@.requests.len() > 0 ==> request == Some(old(self)@.requests.last())
                && final(self)@ == (QueuedClientView {
                requests: old(self)@.requests.drop_last(),
                ..old(self)@
            }),
    {
        self.requests.pop_back()
    }

    /// The last request of the queue.
    pub fn last(&self) -> (request: Option<&Request>)
        ensures
            self@.requests.len() == 0 ==> request is None,
            self@.requests.len() > 0 ==> request == Some(&self@.requests.last()),
    {
        if self.requests.len() == 0 {
            None
        } else {
            Some(&self.requests[self.requests.len() - 1])
        }
    }

    /// Tells whether a request waits.
    pub fn has_next(&self) -> (waiting: bool)
        ensures
            waiting == (self@.requests.len() > 0),
    {
        self.requests.len() > 0
    }

    /// Sends the next request, if one waits. `Ok(true)` says that it was
    /// written and left the queue, `Ok(false)` that the queue is empty.
    /// Where the request does not fit into the write side, the queue stays
    /// as it is and the transport is reported as not ready: the call is to
    /// be made again once the transport has carried bytes away.
    pub fn send_next(&mut self) -> (sent: ClientResult<bool>)
        ensures
            final(self)@ == old(self)@.after_send_next(),
            match old(self)@.sending() {
                Sending::Idle => sent == Ok::<bool, ClientError>(false),
                Sending::Sent => sent == Ok::<bool, ClientError>(true),
                Sending::Blocked => sent == Err::<bool, ClientError>(ClientError::NotReady),
            },
    {
        if self.requests.len() == 0 {
            return Ok(false);
        }
        match self.client.send_request(&self.requests[0]) {
            Ok(()) => {
                let _ = self.requests.pop_front();
                assert(self.requests@ =~= old(self)@.requests.skip(1));
                Ok(true)
            },
            Err(error) => Err(error),
        }
    }

    /// Receives one response: to be called when bytes have arrived.
    pub fn receive_next(&mut self) -> (response: ClientResult<Response>)
        ensures
            final(self)@ == (QueuedClientView {
                client: old(self)@.client.read(true),
                ..old(self)@
            }),
            result_view(response) == reply_then(
                old(self)@.client.reply(true),
                |status: StatusLineView, lines: Seq<Seq<char>>| response_of(status, lines),
            ),
    {
        self.client.receive()
    }
}

} // verus!
