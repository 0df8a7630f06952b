//! The error taxonomy of the receiver.
//!
//! Every rejected call surfaces a distinct, machine-matchable error kind;
//! no error is silently swallowed, and a rejected call changes no state.

use vstd::prelude::*;

verus! {

/// Why a payload failed to decode.
#[derive(Clone, Copy, Debug, PartialEq, Eq, Structural)]
pub enum DecodeError {
    /// The buffer ends before the field that was being read.
    TooShort,
    /// The message-type tag is not one this receiver supports.
    UnknownTag,
    /// The recipient field is not a well-formed local identity.
    BadRecipient,
    /// The amount does not fit the local 128-bit representation.
    AmountOverflow,
    /// The amount is zero; a transfer instruction must move something.
    ZeroAmount,
    /// Bytes remain after the last field; deviations are never tolerated.
    TrailingBytes,
    /// The token identifier maps to no configured, transferable denomination.
    UnknownToken,
}

/// Every way a call into the receiver can fail.
#[derive(Clone, Copy, Debug, PartialEq, Eq, Structural)]
pub enum ContractError {
    /// The caller is not the trusted gateway.
    Unauthorized,
    /// The remote sender is not on the configured allow-list.
    UntrustedSource,
    /// The payload could not be decoded.
    Decode(DecodeError),
    /// The message was already settled once; it is never settled again.
    AlreadySettled,
    /// An identity handed to initialization or reconfiguration is malformed.
    ConfigError,
}

} // verus!
