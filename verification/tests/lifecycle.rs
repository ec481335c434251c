use tee_integrity::api::{EventPayload, Signature, TEEResponse};
use tee_integrity::error::TEEError;
use tee_integrity::lifecycle::{ExchangeSignal, ExchangeState};
use tee_integrity::TEEProof;

fn response() -> TEEResponse {
    TEEResponse {
        vkey: [1u8; 32],
        public_values: vec![2, 3],
        signature: Signature { r: [4u8; 32], s: [5u8; 32] },
        recovery_id: 0,
    }
}

fn all_signals() -> Vec<ExchangeSignal> {
    vec![
        ExchangeSignal::RequestSent,
        ExchangeSignal::StreamOpened,
        ExchangeSignal::Outcome(EventPayload::Success(response())),
        ExchangeSignal::Outcome(EventPayload::Error("execution failed".to_string())),
        ExchangeSignal::Disconnected,
    ]
}

#[test]
fn exchange_runs_to_a_success() {
    let state = ExchangeState::Created;
    let state = state.advance(ExchangeSignal::RequestSent).unwrap();
    assert_eq!(state, ExchangeState::Sent);
    let state = state.advance(ExchangeSignal::StreamOpened).unwrap();
    assert_eq!(state, ExchangeState::Streaming);
    let state = state.advance(ExchangeSignal::Outcome(EventPayload::Success(response()))).unwrap();
    assert_eq!(state, ExchangeState::Success(response()));
    assert!(state.is_terminal());
    assert_eq!(state.outcome(), Some(Ok(response())));
}

#[test]
fn exchange_runs_to_a_remote_error() {
    let state = ExchangeState::Streaming;
    let event = EventPayload::Error("execution failed".to_string());
    let state = state.advance(ExchangeSignal::Outcome(event)).unwrap();
    assert_eq!(state, ExchangeState::Error("execution failed".to_string()));
    assert!(state.is_terminal());
    assert_eq!(state.outcome(), Some(Err(TEEError::RemoteError("execution failed".to_string()))));
}

#[test]
fn lost_connection_is_a_transport_failure() {
    let state = ExchangeState::Streaming.advance(ExchangeSignal::Disconnected).unwrap();
    assert_eq!(state, ExchangeState::Disconnected);
    assert!(state.is_terminal());
    assert_eq!(state.outcome(), Some(Err(TEEError::TransportFailure)));
}

#[test]
fn ended_exchange_admits_no_signal() {
    let ended = vec![
        ExchangeState::Success(response()),
        ExchangeState::Error("e".to_string()),
        ExchangeState::Disconnected,
    ];
    for state in ended {
        for signal in all_signals() {
            assert_eq!(state.advance(signal), None);
        }
    }
}

#[test]
fn signals_out_of_turn_are_refused() {
    let created = ExchangeState::Created;
    assert_eq!(created.advance(ExchangeSignal::StreamOpened), None);
    assert_eq!(created.advance(ExchangeSignal::Disconnected), None);
    assert_eq!(created.advance(ExchangeSignal::Outcome(EventPayload::Success(response()))), None);
    let sent = ExchangeState::Sent;
    assert_eq!(sent.advance(ExchangeSignal::RequestSent), None);
    assert_eq!(sent.advance(ExchangeSignal::Disconnected), None);
    assert_eq!(sent.advance(ExchangeSignal::Outcome(EventPayload::Error("e".to_string()))), None);
    let streaming = ExchangeState::Streaming;
    assert_eq!(streaming.advance(ExchangeSignal::RequestSent), None);
    assert_eq!(streaming.advance(ExchangeSignal::StreamOpened), None);
}

#[test]
fn running_exchange_has_no_outcome() {
    for state in [ExchangeState::Created, ExchangeState::Sent, ExchangeState::Streaming] {
        assert!(!state.is_terminal());
        assert_eq!(state.outcome(), None);
    }
}

#[test]
fn event_becomes_the_result_for_the_caller() {
    assert_eq!(EventPayload::Success(response()).into_result(), Ok(response()));
    assert_eq!(
        EventPayload::Error("execution failed".to_string()).into_result(),
        Err(TEEError::RemoteError("execution failed".to_string()))
    );
}

#[test]
fn remote_error_message_is_passed_through_verbatim() {
    let message = "  Error: SignatureRecoveryFailure\n\tretry? ".to_string();
    assert_eq!(
        EventPayload::Error(message.clone()).into_result(),
        Err(TEEError::RemoteError(message))
    );
}

#[test]
fn proof_kinds_are_distinct() {
    assert_ne!(TEEProof::NitroIntegrity, TEEProof::NoProof);
    assert_eq!(TEEProof::NitroIntegrity, TEEProof::NitroIntegrity);
}
