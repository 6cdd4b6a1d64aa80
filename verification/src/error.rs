//! The ways an operation of the pool can be refused.

use vstd::prelude::*;

verus! {

/// The condition that a caller failed to meet. None of these is detected
/// after a remote call has been issued.
#[derive(Clone, Copy, Debug, PartialEq, Eq, Structural)]
pub enum Precondition {
    /// The front has not completed its initialization.
    NotInitialized,
    /// The component was initialized before.
    AlreadyInitialized,
    /// The quantity to deposit or to swap is zero.
    ZeroQuantity,
    /// One of the two reserves is empty.
    ZeroReserves,
    /// The caller is not the one this operation is reserved for.
    Unauthorized,
    /// The call does not carry the payment of exactly one unit.
    MissingPayment,
    /// A text is not a well-formed account identifier.
    InvalidAccount,
    /// The account is neither of the two assets of the pool.
    UnknownAsset,
    /// Another swap of this front has not settled yet.
    SwapInFlight,
    /// No swap of this front is waiting to be settled.
    NoSwapInFlight,
    /// The swap has not reached a final stage.
    SwapNotSettled,
}

/// The remote step of a chain that failed.
#[derive(Clone, Copy, Debug, PartialEq, Eq, Structural)]
pub enum Step {
    /// Fetching the display metadata of an asset.
    Metadata,
    /// Creating, funding and loading the custody engine.
    WalletCreation,
    /// Handing the two asset identifiers to the new custody engine.
    WalletInit,
    /// Enrolling an account with an asset service.
    Registration,
    /// The operator's transfer into custody.
    DepositTransfer,
    /// The first leg of a swap, from the caller into custody.
    SourceTransfer,
    /// The second leg of a swap, from custody to the caller.
    DestinationWithdraw,
    /// A transfer out of custody, back to a counterparty.
    Refund,
}

/// Why an operation was refused. A refused operation leaves every reserve
/// and every balance as it was.
#[derive(Clone, Copy, Debug, PartialEq, Eq, Structural)]
pub enum AmmError {
    /// The caller broke a rule that is checked before any remote call.
    PreconditionViolation(Precondition),
    /// A remote call failed; the payload names the step.
    RemoteCallFailure(Step),
    /// A reserve or a balance would leave the range of `u128`.
    InvariantViolation,
    /// A remote call answered with bytes that are no metadata.
    MalformedRemoteResponse,
}

impl AmmError {
    /// The words that go with the error.
    pub open spec fn spec_message(self) -> Seq<char> {
        match self {
            AmmError::PreconditionViolation(p) => match p {
                Precondition::NotInitialized => "contract is not initialized yet"@,
                Precondition::AlreadyInitialized => "Already initialized"@,
                Precondition::ZeroQuantity => "input quantity must be positive"@,
                Precondition::ZeroReserves => "must deposit for both tokens before swap"@,
                Precondition::Unauthorized => "Method is private"@,
                Precondition::MissingPayment => "Requires attached deposit of exactly 1 yoctoNEAR"@,
                Precondition::InvalidAccount => "the account ID is invalid"@,
                Precondition::UnknownAsset => "Unexpected address"@,
                Precondition::SwapInFlight => "another swap is in flight"@,
                Precondition::NoSwapInFlight => "no swap is in flight"@,
                Precondition::SwapNotSettled => "the swap has not settled"@,
            },
            AmmError::RemoteCallFailure(s) => match s {
                Step::Metadata => "Failed to get token metadata"@,
                Step::WalletCreation => "failed to create wallet"@,
                Step::WalletInit => "failed to init wallet"@,
                Step::Registration => "failed to register account"@,
                Step::DepositTransfer => "failed to transfer"@,
                Step::SourceTransfer => "failed to transfer source token"@,
                Step::DestinationWithdraw => "failed to withdraw destination token"@,
                Step::Refund => "failed to transfer back"@,
            },
            AmmError::InvariantViolation => "balance out of range"@,
            AmmError::MalformedRemoteResponse => "malformed token metadata"@,
        }
    }

    /// The words that go with the error.
    pub fn message(self) -> (res: &'static str)
        ensures
            res@ == self.spec_message(),
    {
        match self {
            AmmError::PreconditionViolation(p) => match p {
                Precondition::NotInitialized => "contract is not initialized yet",
                Precondition::AlreadyInitialized => "Already initialized",
                Precondition::ZeroQuantity => "input quantity must be positive",
                Precondition::ZeroReserves => "must deposit for both tokens before swap",
                Precondition::Unauthorized => "Method is private",
                Precondition::MissingPayment => "Requires attached deposit of exactly 1 yoctoNEAR",
                Precondition::InvalidAccount => "the account ID is invalid",
                Precondition::UnknownAsset => "Unexpected address",
                Precondition::SwapInFlight => "another swap is in flight",
                Precondition::NoSwapInFlight => "no swap is in flight",
                Precondition::SwapNotSettled => "the swap has not settled",
            },
            AmmError::RemoteCallFailure(s) => match s {
                Step::Metadata => "Failed to get token metadata",
                Step::WalletCreation => "failed to create wallet",
                Step::WalletInit => "failed to init wallet",
                Step::Registration => "failed to register account",
                Step::DepositTransfer => "failed to transfer",
                Step::SourceTransfer => "failed to transfer source token",
                Step::DestinationWithdraw => "failed to withdraw destination token",
                Step::Refund => "failed to transfer back",
            },
            AmmError::InvariantViolation => "balance out of range",
            AmmError::MalformedRemoteResponse => "malformed token metadata",
        }
    }
}

} // verus!
