//! The failures that this crate reports.

use vstd::prelude::*;

verus! {

/// Why a step of an exchange with the TEE server failed.
///
/// Every failure reaches the caller as one of these. None is retried here and
/// none is turned into another.
#[derive(Clone, Debug, PartialEq, Eq)]
pub enum TEEError {
    /// The bytes of a payload do not have the layout of that payload.
    MalformedPayload,
    /// No signer can be recovered: the signature is not one that the curve
    /// admits, or the recovery id is out of range.
    SignatureRecoveryFailure,
    /// A signer was recovered, and it is not the trusted one.
    AddressMismatch,
    /// The server reported that the execution failed. The message is the
    /// server's, word for word.
    RemoteError(String),
    /// The transport ended the exchange before an outcome arrived.
    TransportFailure,
}

/// What a [`TEEError`] is.
pub enum ErrorView {
    MalformedPayload,
    SignatureRecoveryFailure,
    AddressMismatch,
    RemoteError(Seq<char>),
    TransportFailure,
}

impl View for TEEError {
    type V = ErrorView;

    open spec fn view(&self) -> ErrorView {
        match self {
            TEEError::MalformedPayload => ErrorView::MalformedPayload,
            TEEError::SignatureRecoveryFailure => ErrorView::SignatureRecoveryFailure,
            TEEError::AddressMismatch => ErrorView::AddressMismatch,
            TEEError::RemoteError(message) => ErrorView::RemoteError(message@),
            TEEError::TransportFailure => ErrorView::TransportFailure,
        }
    }
}

} // verus!
