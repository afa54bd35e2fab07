use ssip_client::speak::{SpeakEvent, SpeakState};

#[test]
fn a_speak_exchange_returns_to_idle() {
    let mut state = SpeakState::Idle;
    let events = [
        SpeakEvent::Speak,
        SpeakEvent::Reply(230),
        SpeakEvent::Line,
        SpeakEvent::Line,
        SpeakEvent::End,
        SpeakEvent::Reply(225),
    ];
    let expected = [
        SpeakState::Speaking,
        SpeakState::SendingText,
        SpeakState::SendingText,
        SpeakState::SendingText,
        SpeakState::Terminated,
        SpeakState::Idle,
    ];
    for (event, next) in events.iter().zip(expected.iter()) {
        state = state.step(*event).unwrap();
        assert_eq!(*next, state);
    }
    // No line of text at all.
    let state = SpeakState::SendingText.step(SpeakEvent::End).unwrap();
    assert_eq!(Some(SpeakState::Idle), state.step(SpeakEvent::Reply(225)));
}

#[test]
fn a_failure_ends_the_exchange() {
    assert_eq!(Some(SpeakState::Idle), SpeakState::Speaking.step(SpeakEvent::Reply(300)));
    assert_eq!(Some(SpeakState::Idle), SpeakState::Speaking.step(SpeakEvent::Reply(514)));
    assert_eq!(Some(SpeakState::Idle), SpeakState::Speaking.step(SpeakEvent::Reply(208)));
    assert_eq!(Some(SpeakState::Idle), SpeakState::Terminated.step(SpeakEvent::Reply(401)));
}

#[test]
fn events_out_of_turn_are_refused() {
    let refused = [
        (SpeakState::Idle, SpeakEvent::Line),
        (SpeakState::Idle, SpeakEvent::End),
        (SpeakState::Idle, SpeakEvent::Reply(230)),
        (SpeakState::Speaking, SpeakEvent::Speak),
        (SpeakState::Speaking, SpeakEvent::Line),
        (SpeakState::Speaking, SpeakEvent::End),
        (SpeakState::SendingText, SpeakEvent::Speak),
        (SpeakState::SendingText, SpeakEvent::Reply(225)),
        (SpeakState::Terminated, SpeakEvent::Speak),
        (SpeakState::Terminated, SpeakEvent::Line),
        (SpeakState::Terminated, SpeakEvent::End),
    ];
    for (state, event) in refused.iter() {
        assert_eq!(None, state.step(*event), "{:?} in {:?}", event, state);
    }
}
