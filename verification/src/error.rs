//! What the channel engine can refuse.

use vstd::prelude::*;

verus! {

/// Why the engine refused a request. A refusal leaves the channel as it was.
#[derive(Clone, Copy, Debug, PartialEq, Eq, Structural)]
pub enum Error {
    /// A balance does not cover the amount asked of it.
    InsufficientBalance,
    /// A proposal of this instance is still waiting for its answer.
    AlreadyWaiting,
    /// The operation does not come from the channel account.
    IllegalSender,
    /// The operation does not carry the next nonce of the history.
    IllegalNonce,
    /// The operation's deployment prefix is not the channel's.
    IllegalInitcode,
    /// A fee or gas field differs from the protocol's constant, or a
    /// paymaster is named.
    IllegalConstant,
    /// The call payload is neither a transfer update nor a cooperative
    /// withdrawal.
    IllegalCalldata,
    /// A withdrawal names another net transfer value than the one agreed on.
    IllegalValueTransfer,
    /// The signature is not one of the counterparty over the operation, or
    /// is too long to be one.
    IllegalSignature,
    /// An amount is zero where something must be moved, or leaves the range
    /// of the integers that carry it.
    AmountOutOfRange,
    /// The channel's own state cannot be relied on: a stored key is no
    /// private key, a stored history is not numbered 0, 1, 2, ..., or the
    /// own key gives no signature.
    IntegrityViolation,
}

impl Error {
    /// A short description of the refusal.
    pub fn describe(&self) -> (text: &'static str)
        ensures
            text@ == match *self {
                Error::InsufficientBalance => "insufficient balance"@,
                Error::AlreadyWaiting => "already awaiting a signature"@,
                Error::IllegalSender => "illegal sender"@,
                Error::IllegalNonce => "illegal nonce"@,
                Error::IllegalInitcode => "illegal initcode"@,
                Error::IllegalConstant => "illegal constant"@,
                Error::IllegalCalldata => "illegal calldata"@,
                Error::IllegalValueTransfer => "illegal value transfer"@,
                Error::IllegalSignature => "illegal signature"@,
                Error::AmountOutOfRange => "amount out of range"@,
                Error::IntegrityViolation => "integrity violation"@,
            },
    {
        match *self {
            Error::InsufficientBalance => "insufficient balance",
            Error::AlreadyWaiting => "already awaiting a signature",
            Error::IllegalSender => "illegal sender",
            Error::IllegalNonce => "illegal nonce",
            Error::IllegalInitcode => "illegal initcode",
            Error::IllegalConstant => "illegal constant",
            Error::IllegalCalldata => "illegal calldata",
            Error::IllegalValueTransfer => "illegal value transfer",
            Error::IllegalSignature => "illegal signature",
            Error::AmountOutOfRange => "amount out of range",
            Error::IntegrityViolation => "integrity violation",
        }
    }
}

} // verus!
