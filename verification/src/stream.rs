//! The two ends of a connection, held in memory.
//!
//! The client neither reads nor writes a socket. What arrives is put into an
//! [`InputBuffer`], from which the client takes whole lines; what the client
//! writes is kept in an [`OutputBuffer`] until the transport carries it away.

use crate::error::{invalid_data_failure, ClientError, ClientErrorView, ClientResult};
use crate::text::{after, before, find_byte, lemma_position_bounds, occurs};
use crate::types::result_view;
use vstd::prelude::*;
use vstd::utf8::*;

verus! {

/// Line feed, the byte that ends a line.
pub const LF: u8 = 10;

/// Carriage return, the byte before the line feed.
pub const CR: u8 = 13;

/// Appends the bytes of `source` to `target`.
pub fn push_all(target: &mut Vec<u8>, source: &[u8])
    ensures
        final(target)@ == old(target)@ + source@,
{
    let mut i: usize = 0;
    while i < source.len()
        invariant
            i <= source.len(),
            target@ == old(target)@ + source@.subrange(0, i as int),
        decreases source.len() - i,
    {
        target.push(source[i]);
        i += 1;
        assert(target@ =~= old(target)@ + source@.subrange(0, i as int));
    }
    assert(source@.subrange(0, i as int) =~= source@);
}

/// `line` without a carriage return at its end.
pub open spec fn strip_cr(line: Seq<u8>) -> Seq<u8> {
    if line.len() > 0 && line.last() == CR {
        line.drop_last()
    } else {
        line
    }
}

/// The text that the bytes of a line stand for: they are read as UTF-8.
pub open spec fn line_text(raw: Seq<u8>) -> Result<Seq<char>, ClientErrorView> {
    if valid_utf8(raw) {
        Ok(decode_utf8(raw))
    } else {
        Err(invalid_data_failure("stream did not contain valid UTF-8"@))
    }
}

/// The first line of `input`, where one has arrived in full, and the bytes
/// that follow it. A line ends at a line feed; a carriage return before
/// the line feed is dropped with it.
pub open spec fn next_line(
    input: Seq<u8>,
) -> Option<(Result<Seq<char>, ClientErrorView>, Seq<u8>)> {
    if occurs(input, LF) {
        Some((line_text(strip_cr(before(input, LF))), after(input, LF)))
    } else {
        None
    }
}

/// `String::from_utf8`: the bytes as a string, where they are valid
/// UTF-8, and nothing where they are not.
#[verifier::external_body]
fn string_from_utf8(bytes: Vec<u8>) -> (text: Option<String>)
    ensures
        valid_utf8(bytes@) ==> text is Some && text->Some_0@ == decode_utf8(bytes@),
        !valid_utf8(bytes@) ==> text is None,
{
    String::from_utf8(bytes).ok()
}

/// Copies the bytes of `bytes` from `from` up to, not including, `to`.
fn copy_range(bytes: &Vec<u8>, from: usize, to: usize) -> (part: Vec<u8>)
    requires
        from <= to <= bytes.len(),
    ensures
        part@ == bytes@.subrange(from as int, to as int),
{
    let mut part: Vec<u8> = Vec::new();
    let mut i: usize = from;
    while i < to
        invariant
            from <= i <= to <= bytes.len(),
            part@ == bytes@.subrange(from as int, i as int),
        decreases to - i,
    {
        part.push(bytes[i]);
        i += 1;
        assert(part@ =~= bytes@.subrange(from as int, i as int));
    }
    part
}

/// Bytes that have arrived and were not read yet.
#[derive(Debug, Clone, PartialEq, Eq)]
pub struct InputBuffer {
    bytes: Vec<u8>,
}

impl View for InputBuffer {
    type V = Seq<u8>;

    closed spec fn view(&self) -> Seq<u8> {
        self.bytes@
    }
}

impl InputBuffer {
    /// An empty buffer.
    pub fn new() -> (buffer: InputBuffer)
        ensures
            buffer@ == Seq::<u8>::empty(),
    {
        InputBuffer { bytes: Vec::new() }
    }

    /// A buffer that holds `bytes`.
    pub fn from_bytes(bytes: &[u8]) -> (buffer: InputBuffer)
        ensures
            buffer@ == bytes@,
    {
        let mut buffer = InputBuffer::new();
        buffer.feed(bytes);
        buffer
    }

    /// Adds bytes that have arrived.
    pub fn feed(&mut self, bytes: &[u8])
        ensures
            final(self)@ == old(self)@ + bytes@,
    {
        push_all(&mut self.bytes, bytes);
    }

    /// The bytes that were not read yet.
    pub fn as_bytes(&self) -> (bytes: &Vec<u8>)
        ensures
            bytes@ == self@,
    {
        &self.bytes
    }

    /// Looks at the line that begins at index `from`, and tells where the
    /// next one begins. Nothing is found before the line has arrived in
    /// full.
    pub(crate) fn line_at(&self, from: usize) -> (found: Option<(ClientResult<String>, usize)>)
        requires
            from <= self@.len(),
        ensures
            match next_line(self@.skip(from as int)) {
                None => found is None,
                Some((line, rest)) => found is Some && result_view(found->Some_0.0) == line && from
                    < found->Some_0.1 <= self@.len() && self@.skip(found->Some_0.1 as int) == rest,
            },
    {
        let ghost pending = self@.skip(from as int);
        let end = find_byte(&self.bytes, from, LF);
        if end == self.bytes.len() {
            return None;
        }
        let stop: usize = if end > from && self.bytes[end - 1] == CR {
            (end - 1) as usize
        } else {
            end
        };
        let raw = copy_range(&self.bytes, from, stop);
        proof {
            lemma_position_bounds(pending, LF);
            assert(before(pending, LF) =~= self@.subrange(from as int, end as int));
            assert(raw@ =~= strip_cr(before(pending, LF)));
            assert(after(pending, LF) =~= self@.skip(end + 1));
        }
        match string_from_utf8(raw) {
            Some(text) => Some((Ok(text), end + 1)),
            None => Some(
                (Err(ClientError::invalid_data("stream did not contain valid UTF-8")), end + 1),
            ),
        }
    }

    /// Reads one line, without its end. Where no line has arrived in full,
    /// nothing is read and the transport is reported as not ready.
    pub fn read_line(&mut self) -> (line: ClientResult<String>)
        ensures
            match next_line(old(self)@) {
                None => line is Err && line->Err_0 == ClientError::NotReady
                    && final(self)@ == old(self)@,
                Some((text, rest)) => result_view(line) == text && final(self)@ == rest,
            },
    {
        assert(self@.skip(0) =~= self@);
        match self.line_at(0) {
            None => Err(ClientError::NotReady),
            Some((line, next)) => {
                self.consume(next);
                line
            },
        }
    }

    /// Drops the first `count` bytes, or all of them where there are
    /// fewer.
    pub fn consume(&mut self, count: usize)
        ensures
            final(self)@ == old(self)@.skip(
                if count <= old(self)@.len() {
                    count as int
                } else {
                    old(self)@.len() as int
                },
            ),
    {
        let at: usize = if count <= self.bytes.len() {
            count
        } else {
            self.bytes.len()
        };
        let rest = self.bytes.split_off(at);
        self.bytes = rest;
        assert(self.bytes@ =~= old(self)@.skip(at as int));
    }
}

/// Bytes that were written and not carried away yet. A write puts bytes on
/// hold; a flush releases what is on hold to the transport. The buffer
/// holds at most `limit` bytes in all: a write that does not fit is
/// refused, as a socket that would block refuses it.
#[derive(Debug, Clone, PartialEq, Eq)]
pub struct OutputBuffer {
    flushed: Vec<u8>,
    held: Vec<u8>,
    limit: usize,
}

/// Mathematical value of an [`OutputBuffer`].
pub struct OutputView {
    /// The bytes that the transport may carry away.
    pub flushed: Seq<u8>,
    /// The bytes that wait for a flush.
    pub held: Seq<u8>,
    /// The most bytes that the buffer holds.
    pub limit: nat,
}

impl OutputView {
    /// How many more bytes fit.
    pub open spec fn room(self) -> int {
        self.limit - self.flushed.len() - self.held.len()
    }

    /// The value after a write of `bytes`, where they fit.
    pub open spec fn write(self, bytes: Seq<u8>) -> OutputView {
        OutputView { held: self.held + bytes, ..self }
    }

    /// The value after a flush.
    pub open spec fn flush(self) -> OutputView {
        OutputView { flushed: self.flushed + self.held, held: Seq::empty(), ..self }
    }

    /// The value after the transport has carried away the first `count`
    /// released bytes: all of them where there are fewer.
    pub open spec fn consumed(self, count: nat) -> OutputView {
        OutputView {
            flushed: if count <= self.flushed.len() {
                self.flushed.skip(count as int)
            } else {
                Seq::empty()
            },
            ..self
        }
    }

    /// The value after the transport has carried away all the released
    /// bytes.
    pub open spec fn drained(self) -> OutputView {
        OutputView { flushed: Seq::empty(), ..self }
    }
}

impl View for OutputBuffer {
    type V = OutputView;

    closed spec fn view(&self) -> OutputView {
        OutputView { flushed: self.flushed@, held: self.held@, limit: self.limit as nat }
    }
}

impl OutputBuffer {
    /// An empty buffer that holds as much as memory allows.
    pub fn new() -> (buffer: OutputBuffer)
        ensures
            buffer@ == (OutputView {
                flushed: Seq::empty(),
                held: Seq::empty(),
                limit: usize::MAX as nat,
            }),
    {
        OutputBuffer::with_limit(usize::MAX)
    }

    /// An empty buffer that holds at most `limit` bytes.
    pub fn with_limit(limit: usize) -> (buffer: OutputBuffer)
        ensures
            buffer@ == (OutputView {
                flushed: Seq::empty(),
                held: Seq::empty(),
                limit: limit as nat,
            }),
    {
        OutputBuffer { flushed: Vec::new(), held: Vec::new(), limit }
    }

    /// Tells whether `count` more bytes fit.
    pub fn fits(&self, count: usize) -> (fits: bool)
        ensures
            fits == (count <= self@.room()),
    {
        self.flushed.len() <= self.limit && self.held.len() <= self.limit - self.flushed.len()
            && count <= self.limit - self.flushed.len() - self.held.len()
    }

    /// Writes `bytes`, all of them or none: where they do not fit, the
    /// buffer stays as it is and the transport is reported as not ready.
    pub fn write_all(&mut self, bytes: &[u8]) -> (result: ClientResult<()>)
        ensures
            bytes@.len() <= old(self)@.room() ==> result is Ok
                && final(self)@ == old(self)@.write(bytes@),
            bytes@.len() > old(self)@.room() ==> result is Err
                && result->Err_0 == ClientError::NotReady && final(self)@ == old(self)@,
    {
        if self.fits(bytes.len()) {
            push_all(&mut self.held, bytes);
            Ok(())
        } else {
            Err(ClientError::NotReady)
        }
    }

    /// Releases to the transport what was written.
    pub fn flush(&mut self)
        ensures
            final(self)@ == old(self)@.flush(),
    {
        self.flushed.append(&mut self.held);
    }

    /// The bytes that the transport may carry away.
    pub fn flushed(&self) -> (bytes: &Vec<u8>)
        ensures
            bytes@ == self@.flushed,
    {
        &self.flushed
    }

    /// Takes the bytes that the transport may carry away.
    pub fn take(&mut self) -> (bytes: Vec<u8>)
        ensures
            bytes@ == old(self)@.flushed,
            final(self)@ == old(self)@.drained(),
    {
        let mut bytes: Vec<u8> = Vec::new();
        bytes.append(&mut self.flushed);
        bytes
    }

    /// Drops the first `count` released bytes, once the transport has
    /// carried them away: all of them where there are fewer.
    pub fn consume(&mut self, count: usize)
        ensures
            final(self)@ == old(self)@.consumed(count as nat),
    {
        let at: usize = if count <= self.flushed.len() {
            count
        } else {
            self.flushed.len()
        };
        let rest = self.flushed.split_off(at);
        self.flushed = rest;
        assert(self.flushed@ =~= old(self)@.consumed(count as nat).flushed);
    }
}

} // verus!
