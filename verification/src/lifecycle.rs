//! The life cycle of one request.
//!
//! A request is created, sent, and answered by a stream that ends in one of
//! three ways: with a response, with the server's error message, or with the
//! loss of the connection. The transport performs each step and reports it as
//! an [`ExchangeSignal`]; the state of the exchange says which signals it
//! admits, and what the caller is handed at the end.

use vstd::prelude::*;
use crate::api::{EventPayload, EventView, ResponseView, TEEResponse};
use crate::error::{ErrorView, TEEError};

verus! {

/// Where the exchange for one request stands.
#[derive(Clone, Debug, PartialEq, Eq)]
pub enum ExchangeState {
    /// The request exists and has not been sent.
    Created,
    /// The request was sent; the stream of events has not opened.
    Sent,
    /// The stream of events is open and no outcome has arrived.
    Streaming,
    /// The exchange ended with a response.
    Success(TEEResponse),
    /// The exchange ended with the server's error message.
    Error(String),
    /// The exchange ended because the connection was lost.
    Disconnected,
}

/// What the transport reports of an exchange.
#[derive(Clone, Debug, PartialEq, Eq)]
pub enum ExchangeSignal {
    /// The request was handed to the server.
    RequestSent,
    /// The stream of events opened. It carries no payload.
    StreamOpened,
    /// The event that ends the stream arrived.
    Outcome(EventPayload),
    /// The connection was lost.
    Disconnected,
}

/// What an [`ExchangeState`] is.
pub enum StateView {
    Created,
    Sent,
    Streaming,
    Success(ResponseView),
    Error(Seq<char>),
    Disconnected,
}

/// What an [`ExchangeSignal`] is.
pub enum SignalView {
    RequestSent,
    StreamOpened,
    Outcome(EventView),
    Disconnected,
}

impl View for ExchangeState {
    type V = StateView;

    open spec fn view(&self) -> StateView {
        match self {
            ExchangeState::Created => StateView::Created,
            ExchangeState::Sent => StateView::Sent,
            ExchangeState::Streaming => StateView::Streaming,
            ExchangeState::Success(response) => StateView::Success(response@),
            ExchangeState::Error(message) => StateView::Error(message@),
            ExchangeState::Disconnected => StateView::Disconnected,
        }
    }
}

impl View for ExchangeSignal {
    type V = SignalView;

    open spec fn view(&self) -> SignalView {
        match self {
            ExchangeSignal::RequestSent => SignalView::RequestSent,
            ExchangeSignal::StreamOpened => SignalView::StreamOpened,
            ExchangeSignal::Outcome(event) => SignalView::Outcome(event@),
            ExchangeSignal::Disconnected => SignalView::Disconnected,
        }
    }
}

impl StateView {
    /// Whether the exchange has ended.
    pub open spec fn is_terminal(self) -> bool {
        self is Success || self is Error || self is Disconnected
    }
}

/// The state that follows `state` on `signal`, where `state` admits the
/// signal: a created request is sent, a sent one starts streaming, and a
/// streaming one ends with the outcome that arrives or with the loss of the
/// connection.
pub open spec fn next_state(state: StateView, signal: SignalView) -> Option<StateView> {
    match (state, signal) {
        (StateView::Created, SignalView::RequestSent) => Some(StateView::Sent),
        (StateView::Sent, SignalView::StreamOpened) => Some(StateView::Streaming),
        (StateView::Streaming, SignalView::Outcome(EventView::Success(response))) => Some(
            StateView::Success(response),
        ),
        (StateView::Streaming, SignalView::Outcome(EventView::Error(message))) => Some(
            StateView::Error(message),
        ),
        (StateView::Streaming, SignalView::Disconnected) => Some(StateView::Disconnected),
        _ => None,
    }
}

/// What the caller is handed when the exchange has ended in `state`: the
/// response, or the failure. There is nothing to hand out before the end.
pub open spec fn outcome_spec(state: StateView) -> Option<Result<ResponseView, ErrorView>> {
    match state {
        StateView::Success(response) => Some(Ok(response)),
        StateView::Error(message) => Some(Err(ErrorView::RemoteError(message))),
        StateView::Disconnected => Some(Err(ErrorView::TransportFailure)),
        _ => None,
    }
}

/// What an event that ends a stream means for the caller.
pub open spec fn event_result_spec(event: EventView) -> Result<ResponseView, ErrorView> {
    match event {
        EventView::Success(response) => Ok(response),
        EventView::Error(message) => Err(ErrorView::RemoteError(message)),
    }
}

/// A state that may follow another, as what it is.
pub open spec fn next_view(next: Option<ExchangeState>) -> Option<StateView> {
    match next {
        Some(state) => Some(state@),
        None => None,
    }
}

/// A result for the caller, as what it is.
pub open spec fn result_view(result: Result<TEEResponse, TEEError>) -> Result<
    ResponseView,
    ErrorView,
> {
    match result {
        Ok(response) => Ok(response@),
        Err(error) => Err(error@),
    }
}

/// An outcome for the caller, as what it is.
pub open spec fn outcome_view(outcome: Option<Result<TEEResponse, TEEError>>) -> Option<
    Result<ResponseView, ErrorView>,
> {
    match outcome {
        Some(result) => Some(result_view(result)),
        None => None,
    }
}

impl EventPayload {
    /// Turns the event that ended a stream into what the caller is handed: the
    /// response of a success, or the server's message as a
    /// [`TEEError::RemoteError`], unread and unchanged.
    pub fn into_result(self) -> (result: Result<TEEResponse, TEEError>)
        ensures
            result_view(result) == event_result_spec(self@),
    {
        match self {
            EventPayload::Success(response) => Ok(response),
            EventPayload::Error(message) => Err(TEEError::RemoteError(message)),
        }
    }
}

impl ExchangeState {
    /// Whether the exchange has ended.
    pub fn is_terminal(&self) -> (terminal: bool)
        ensures
            terminal == self@.is_terminal(),
    {
        match self {
            ExchangeState::Success(_) => true,
            ExchangeState::Error(_) => true,
            ExchangeState::Disconnected => true,
            _ => false,
        }
    }

    /// Moves the exchange on by one signal of the transport.
    ///
    /// Gives the next state where this state admits the signal, and `None`
    /// where it does not: then the signal came out of turn.
    pub fn advance(&self, signal: ExchangeSignal) -> (next: Option<ExchangeState>)
        ensures
            next_view(next) == next_state(self@, signal@),
    {
        match (self, signal) {
            (ExchangeState::Created, ExchangeSignal::RequestSent) => Some(ExchangeState::Sent),
            (ExchangeState::Sent, ExchangeSignal::StreamOpened) => Some(ExchangeState::Streaming),
            (ExchangeState::Streaming, ExchangeSignal::Outcome(event)) => {
                match event {
                    EventPayload::Success(response) => Some(ExchangeState::Success(response)),
                    EventPayload::Error(message) => Some(ExchangeState::Error(message)),
                }
            },
            (ExchangeState::Streaming, ExchangeSignal::Disconnected) => Some(
                ExchangeState::Disconnected,
            ),
            _ => None,
        }
    }

    /// Hands out what the exchange ended with: the response, the server's
    /// message as a [`TEEError::RemoteError`], or a
    /// [`TEEError::TransportFailure`] for a lost connection. Gives `None`
    /// while the exchange has not ended.
    pub fn outcome(self) -> (outcome: Option<Result<TEEResponse, TEEError>>)
        ensures
            outcome_view(outcome) == outcome_spec(self@),
    {
        match self {
            ExchangeState::Success(response) => Some(Ok(response)),
            ExchangeState::Error(message) => Some(Err(TEEError::RemoteError(message))),
            ExchangeState::Disconnected => Some(Err(TEEError::TransportFailure)),
            _ => None,
        }
    }
}

/// An exchange that has ended admits no further signal.
pub proof fn lemma_terminal_states_are_final(state: StateView, signal: SignalView)
    requires
        state.is_terminal(),
    ensures
        next_state(state, signal) is None,
{
}

/// An exchange has an outcome for the caller exactly when it has ended.
pub proof fn lemma_outcome_iff_terminal(state: StateView)
    ensures
        outcome_spec(state) is Some <==> state.is_terminal(),
{
}

/// The loss of the connection is a failure of its own: it never ends an
/// exchange as a server error, and the caller never sees it as a
/// `RemoteError`.
pub proof fn lemma_disconnect_is_not_an_error(state: StateView)
    ensures
        !(next_state(state, SignalView::Disconnected) matches Some(StateView::Error(_))),
        next_state(state, SignalView::Disconnected) matches Some(next) ==> outcome_spec(next)
            == Some(Err::<ResponseView, ErrorView>(ErrorView::TransportFailure)),
{
}

/// The server's message reaches the caller as it arrived.
pub proof fn lemma_remote_error_is_verbatim(message: Seq<char>)
    ensures
        next_state(StateView::Streaming, SignalView::Outcome(EventView::Error(message))) == Some(
            StateView::Error(message),
        ),
        outcome_spec(StateView::Error(message)) == Some(
            Err::<ResponseView, ErrorView>(ErrorView::RemoteError(message)),
        ),
        event_result_spec(EventView::Error(message)) == Err::<ResponseView, ErrorView>(
            ErrorView::RemoteError(message),
        ),
{
}

} // verus!
