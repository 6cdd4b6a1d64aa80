//! The remote calls that the pool asks its host to make, and what the host
//! reports of them.

use crate::account::AccountId;
use vstd::prelude::*;

verus! {

/// One of the two assets of the pool.
#[derive(Clone, Copy, Debug, PartialEq, Eq, Structural)]
pub enum Asset {
    A,
    B,
}

impl Asset {
    /// The asset on the other side of the pool.
    pub open spec fn spec_other(self) -> Asset {
        match self {
            Asset::A => Asset::B,
            Asset::B => Asset::A,
        }
    }

    /// The asset on the other side of the pool.
    #[verifier::when_used_as_spec(spec_other)]
    pub fn other(self) -> (res: Asset)
        ensures
            res == self.spec_other(),
    {
        match self {
            Asset::A => Asset::B,
            Asset::B => Asset::A,
        }
    }
}

/// How a remote step ended.
#[derive(Clone, Copy, Debug, PartialEq, Eq, Structural)]
pub enum StepResult {
    Succeeded,
    Failed,
}

/// What a remote call has answered.
#[derive(Debug, PartialEq)]
pub enum PromiseResult {
    /// The call succeeded and returned these bytes.
    Successful(Vec<u8>),
    /// The call failed.
    Failed,
}

/// The note that goes with a transfer.
#[derive(Clone, Copy, Debug, PartialEq, Eq, Structural)]
pub enum Memo {
    /// The operator's deposit into custody.
    Deposit,
    /// Asset A on its way back to a counterparty.
    BackA,
    /// Asset B on its way back to a counterparty.
    BackB,
    /// The second leg of a swap.
    Withdraw,
}

impl Memo {
    /// The words of the note.
    pub open spec fn spec_text(self) -> Seq<char> {
        match self {
            Memo::Deposit => "deposit from amm contract"@,
            Memo::BackA => "deposit a back to user"@,
            Memo::BackB => "deposit b back to user"@,
            Memo::Withdraw => "withdraw from amm wallet"@,
        }
    }

    /// The words of the note.
    pub fn text(self) -> (res: &'static str)
        ensures
            res@ == self.spec_text(),
    {
        match self {
            Memo::Deposit => "deposit from amm contract",
            Memo::BackA => "deposit a back to user",
            Memo::BackB => "deposit b back to user",
            Memo::Withdraw => "withdraw from amm wallet",
        }
    }

    /// The note for `asset` going back to a counterparty.
    pub open spec fn back(asset: Asset) -> Memo {
        match asset {
            Asset::A => Memo::BackA,
            Asset::B => Memo::BackB,
        }
    }
}

/// A remote call for the host to make. The pool commits nothing on issuing
/// one: it commits in the callback that takes the outcome.
#[derive(Debug, PartialEq)]
pub enum Action {
    /// Ask the asset service `token` for its display metadata.
    FetchMetadata { token: AccountId },
    /// Create the account `wallet`, fund it with `balance` and load the
    /// custody engine into it.
    CreateWallet { wallet: AccountId, balance: u128 },
    /// Hand the two asset identifiers to the custody engine at `wallet`.
    InitWallet { wallet: AccountId, a: AccountId, b: AccountId },
    /// Load new code into the custody engine at `wallet`; its state stays.
    DeployCode { wallet: AccountId },
    /// Enrol `account` with the asset service `token`.
    Register { token: AccountId, account: AccountId },
    /// Send `amount` of `token` out of the caller's own holdings to
    /// `receiver`.
    Transfer { token: AccountId, receiver: AccountId, amount: u128, memo: Memo },
    /// Have the asset service `token` move `amount` from `sender` to
    /// `receiver`.
    TransferFrom { token: AccountId, sender: AccountId, receiver: AccountId, amount: u128 },
    /// Ask the custody engine at `wallet` to send `qty` of `asset` to
    /// `account`.
    Withdraw { wallet: AccountId, asset: Asset, account: AccountId, qty: u128 },
}

/// A remote call as mathematical values.
pub enum ActionView {
    FetchMetadata { token: Seq<char> },
    CreateWallet { wallet: Seq<char>, balance: nat },
    InitWallet { wallet: Seq<char>, a: Seq<char>, b: Seq<char> },
    DeployCode { wallet: Seq<char> },
    Register { token: Seq<char>, account: Seq<char> },
    Transfer { token: Seq<char>, receiver: Seq<char>, amount: nat, memo: Memo },
    TransferFrom { token: Seq<char>, sender: Seq<char>, receiver: Seq<char>, amount: nat },
    Withdraw { wallet: Seq<char>, asset: Asset, account: Seq<char>, qty: nat },
}

impl View for Action {
    type V = ActionView;

    open spec fn view(&self) -> ActionView {
        match *self {
            Action::FetchMetadata { token } => ActionView::FetchMetadata { token: token@ },
            Action::CreateWallet { wallet, balance } => ActionView::CreateWallet {
                wallet: wallet@,
                balance: balance as nat,
            },
            Action::InitWallet { wallet, a, b } => ActionView::InitWallet {
                wallet: wallet@,
                a: a@,
                b: b@,
            },
            Action::DeployCode { wallet } => ActionView::DeployCode { wallet: wallet@ },
            Action::Register { token, account } => ActionView::Register {
                token: token@,
                account: account@,
            },
            Action::Transfer { token, receiver, amount, memo } => ActionView::Transfer {
                token: token@,
                receiver: receiver@,
                amount: amount as nat,
                memo,
            },
            Action::TransferFrom { token, sender, receiver, amount } => ActionView::TransferFrom {
                token: token@,
                sender: sender@,
                receiver: receiver@,
                amount: amount as nat,
            },
            Action::Withdraw { wallet, asset, account, qty } => ActionView::Withdraw {
                wallet: wallet@,
                asset,
                account: account@,
                qty: qty as nat,
            },
        }
    }
}

/// The views of a list of remote calls, in order.
pub open spec fn action_views(actions: Seq<Action>) -> Seq<ActionView> {
    actions.map_values(|a: Action| a@)
}

/// The view of an optional remote call.
pub open spec fn optional_action_view(action: Option<Action>) -> Option<ActionView> {
    match action {
        Some(a) => Some(a@),
        None => None,
    }
}

} // verus!
