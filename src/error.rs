use vstd::prelude::*;

verus! {

/// The broad class of a failure, telling a caller whether to re-prompt,
/// abandon the swap, supply other signing material, or adjust a broadcast.
#[derive(Debug, Clone, Copy, PartialEq, Eq, Structural)]
pub enum ErrorKind {
    Input,
    Validation,
    Signing,
    Broadcast,
}

/// Every way an operation of this library can fail.
#[derive(Debug, Clone, Copy, PartialEq, Eq, Structural)]
pub enum SwapError {
    /// A public key that is not a valid curve point encoding.
    InvalidKey,
    /// A preimage of the wrong length or encoding.
    InvalidPreimage,
    /// A hash that is not exactly 32 bytes.
    InvalidLength,
    /// A chain tag other than "BTC" or "L-BTC".
    UnknownChain,
    /// An address chain tag other than "BTC" or "L-BTC".
    InvalidChain,
    /// A network tag other than "main", "testnet" or "regtest".
    InvalidNetwork,
    /// An address that does not parse in the chain's format.
    InvalidAddress,
    /// A swap tree that does not match the locally known parameters.
    ScriptMismatch,
    /// A preimage whose hash is not the one the swap tree locks to.
    PreimageMismatch,
    /// A key that is not the one the swap tree or the signer expects.
    KeyMismatch,
    /// A timeout that is not in the future of the chain tip.
    TimeoutInvalid,
    /// A spend that the swap's direction does not allow.
    WrongSwapType,
    /// A refund attempted before the script's timeout height.
    TimeoutNotReached,
}

impl SwapError {
    pub open spec fn spec_kind(self) -> ErrorKind {
        match self {
            SwapError::InvalidKey | SwapError::InvalidPreimage | SwapError::InvalidLength
            | SwapError::UnknownChain | SwapError::InvalidChain | SwapError::InvalidNetwork
            | SwapError::InvalidAddress => ErrorKind::Input,
            SwapError::ScriptMismatch | SwapError::PreimageMismatch | SwapError::TimeoutInvalid => {
                ErrorKind::Validation
            },
            SwapError::KeyMismatch | SwapError::WrongSwapType | SwapError::TimeoutNotReached => {
                ErrorKind::Signing
            },
        }
    }

    /// The class this error belongs to.
    pub fn kind(&self) -> (r: ErrorKind)
        ensures
            r == self.spec_kind(),
    {
        match self {
            SwapError::InvalidKey | SwapError::InvalidPreimage | SwapError::InvalidLength
            | SwapError::UnknownChain | SwapError::InvalidChain | SwapError::InvalidNetwork
            | SwapError::InvalidAddress => ErrorKind::Input,
            SwapError::ScriptMismatch | SwapError::PreimageMismatch | SwapError::TimeoutInvalid => {
                ErrorKind::Validation
            },
            SwapError::KeyMismatch | SwapError::WrongSwapType | SwapError::TimeoutNotReached => {
                ErrorKind::Signing
            },
        }
    }
}

} // verus!
