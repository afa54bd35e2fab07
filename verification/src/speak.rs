//! The course of a speak exchange.
//!
//! To have a text spoken, the client sends `SPEAK` and waits for the reply
//! that the server receives data, sends the lines of the text and the line
//! that ends them, and waits for the reply that the message was queued.

use crate::constants::{ReturnCode, OK_RECEIVING_DATA};
use vstd::prelude::*;

verus! {

/// Where a speak exchange stands.
#[derive(Debug, Clone, Copy, PartialEq, Eq, Hash, Structural)]
pub enum SpeakState {
    /// No exchange is under way.
    Idle,
    /// `SPEAK` was sent: the reply that the server receives data is
    /// awaited.
    Speaking,
    /// The server receives data: lines of text may be sent.
    SendingText,
    /// The text was ended: the reply that the message was queued is
    /// awaited.
    Terminated,
}

/// What happens in a speak exchange.
#[derive(Debug, Clone, Copy, PartialEq, Eq, Hash, Structural)]
pub enum SpeakEvent {
    /// The client has sent `SPEAK`.
    Speak,
    /// The client has sent a line of text.
    Line,
    /// The client has sent the line that ends the text.
    End,
    /// The server has replied with this code.
    Reply(ReturnCode),
}

impl SpeakState {
    /// The state after `event`, where `event` may happen in this state.
    /// In `Speaking`, the reply that the server receives data opens the
    /// text, and any other reply ends the exchange; in `Terminated`, any
    /// reply ends it.
    pub open spec fn after(self, event: SpeakEvent) -> Option<SpeakState> {
        match (self, event) {
            (SpeakState::Idle, SpeakEvent::Speak) => Some(SpeakState::Speaking),
            (SpeakState::Speaking, SpeakEvent::Reply(code)) => if code == OK_RECEIVING_DATA {
                Some(SpeakState::SendingText)
            } else {
                Some(SpeakState::Idle)
            },
            (SpeakState::SendingText, SpeakEvent::Line) => Some(SpeakState::SendingText),
            (SpeakState::SendingText, SpeakEvent::End) => Some(SpeakState::Terminated),
            (SpeakState::Terminated, SpeakEvent::Reply(_)) => Some(SpeakState::Idle),
            _ => None,
        }
    }

    /// The state after each of `events` in turn, where each may happen in
    /// the state that the ones before it lead to.
    pub open spec fn after_all(self, events: Seq<SpeakEvent>) -> Option<SpeakState>
        decreases events.len(),
    {
        if events.len() == 0 {
            Some(self)
        } else {
            match self.after_all(events.drop_last()) {
                Some(state) => state.after(events.last()),
                None => None,
            }
        }
    }

    /// The state after `event`, or nothing where `event` may not happen
    /// in this state.
    pub fn step(self, event: SpeakEvent) -> (next: Option<SpeakState>)
        ensures
            next == self.after(event),
    {
        match (self, event) {
            (SpeakState::Idle, SpeakEvent::Speak) => Some(SpeakState::Speaking),
            (SpeakState::Speaking, SpeakEvent::Reply(code)) => {
                if code == OK_RECEIVING_DATA {
                    Some(SpeakState::SendingText)
                } else {
                    Some(SpeakState::Idle)
                }
            },
            (SpeakState::SendingText, SpeakEvent::Line) => Some(SpeakState::SendingText),
            (SpeakState::SendingText, SpeakEvent::End) => Some(SpeakState::Terminated),
            (SpeakState::Terminated, SpeakEvent::Reply(_)) => Some(SpeakState::Idle),
            _ => None,
        }
    }
}

/// The events of an exchange that speaks `lines` lines of text and ends
/// with the reply `code`.
pub open spec fn exchange(lines: nat, code: ReturnCode) -> Seq<SpeakEvent> {
    seq![SpeakEvent::Speak, SpeakEvent::Reply(OK_RECEIVING_DATA)] + Seq::new(
        lines,
        |i: int| SpeakEvent::Line,
    ) + seq![SpeakEvent::End, SpeakEvent::Reply(code)]
}

/// While the server receives data, any number of lines may be sent.
pub proof fn lines_keep_the_text_open(lines: nat)
    ensures
        SpeakState::SendingText.after_all(Seq::new(lines, |i: int| SpeakEvent::Line)) == Some(
            SpeakState::SendingText,
        ),
    decreases lines,
{
    let events = Seq::new(lines, |i: int| SpeakEvent::Line);
    if lines > 0 {
        lines_keep_the_text_open((lines - 1) as nat);
        assert(events.drop_last() =~= Seq::new((lines - 1) as nat, |i: int| SpeakEvent::Line));
    }
}

/// A speak exchange with any number of lines, none included, leads from
/// `Idle` back to `Idle`; and a reply other than that the server receives
/// data ends the exchange at once.
pub proof fn an_exchange_returns_to_idle(lines: nat, code: ReturnCode)
    ensures
        SpeakState::Idle.after_all(exchange(lines, code)) == Some(SpeakState::Idle),
        code != OK_RECEIVING_DATA ==> SpeakState::Idle.after_all(
            seq![SpeakEvent::Speak, SpeakEvent::Reply(code)],
        ) == Some(SpeakState::Idle),
{
    let opening = seq![SpeakEvent::Speak, SpeakEvent::Reply(OK_RECEIVING_DATA)];
    let text = Seq::new(lines, |i: int| SpeakEvent::Line);
    lemma_after_all_two(SpeakState::Idle, SpeakEvent::Speak, SpeakEvent::Reply(OK_RECEIVING_DATA));
    lemma_after_all_two(SpeakState::Idle, SpeakEvent::Speak, SpeakEvent::Reply(code));
    lines_keep_the_text_open(lines);
    lemma_after_all_concat(SpeakState::Idle, opening, text);
    lemma_after_all_two(SpeakState::SendingText, SpeakEvent::End, SpeakEvent::Reply(code));
    lemma_after_all_concat(
        SpeakState::Idle,
        opening + text,
        seq![SpeakEvent::End, SpeakEvent::Reply(code)],
    );
}

/// The state after two events.
proof fn lemma_after_all_two(state: SpeakState, first: SpeakEvent, second: SpeakEvent)
    ensures
        state.after_all(seq![first, second]) == match state.after(first) {
            Some(next) => next.after(second),
            None => None,
        },
{
    let events = seq![first, second];
    assert(events.drop_last() =~= seq![first]);
    assert(seq![first].drop_last() =~= Seq::<SpeakEvent>::empty());
    assert(state.after_all(seq![first].drop_last()) == Some(state));
    assert(state.after_all(seq![first]) == state.after(first));
}

/// The state after some events and then some more is the state after the
/// second ones, from the state after the first.
proof fn lemma_after_all_concat(state: SpeakState, first: Seq<SpeakEvent>, second: Seq<SpeakEvent>)
    ensures
        state.after_all(first + second) == match state.after_all(first) {
            Some(next) => next.after_all(second),
            None => None,
        },
    decreases second.len(),
{
    if second.len() == 0 {
        assert(first + second =~= first);
    } else {
        lemma_after_all_concat(state, first, second.drop_last());
        assert((first + second).drop_last() =~= first + second.drop_last());
        assert((first + second).last() == second.last());
    }
}

} // verus!
