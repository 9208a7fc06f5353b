//! The error taxonomy shared by the contracts.

use vstd::prelude::*;

verus! {

#[derive(Clone, Copy, Debug, PartialEq, Eq, Structural)]
pub enum AuthorizationError {
    NotInitialized,
    NotAuthorized,
    NotApprovedReporter,
    AlreadyInitialized,
    RateLimitExceeded,
    InvalidState,
}

#[derive(Clone, Copy, Debug, PartialEq, Eq, Structural)]
pub enum StateError {
    AlreadyInitialized,
    InvalidState,
    NotInitialized,
}

#[derive(Clone, Copy, Debug, PartialEq, Eq, Structural)]
pub enum ValidationError {
    MissingRequiredField,
    NotInitialized,
    InvalidState,
}

#[derive(Clone, Copy, Debug, PartialEq, Eq, Structural)]
pub enum CryptoError {
    SignatureVerificationFailed,
    InvalidSignature,
    ReplayedAttestation,
    NotInitialized,
    NotAuthorized,
}

#[derive(Clone, Copy, Debug, PartialEq, Eq, Structural)]
pub enum ContractError {
    Unauthorized,
    InvalidState,
    NotInitialized,
}

} // verus!
