//! The custody engine: the holder of both balances and of the constant
//! product `k`.
//!
//! The engine credits what an asset service reports as received. A receipt
//! from the owner sets `k` anew; a receipt from anybody else is a swap, paid
//! out of the other asset so that the product of the balances comes back to
//! `k`. Whatever leaves the engine is debited only after the transfer has
//! been confirmed.

use crate::account::AccountId;
use crate::action::optional_action_view;
use crate::action::Action;
use crate::action::ActionView;
use crate::action::Asset;
use crate::action::Memo;
use crate::action::StepResult;
use crate::error::AmmError;
use crate::error::Precondition;
use crate::error::Step;
use vstd::prelude::*;

verus! {

/// The custody engine of one front.
#[derive(Debug)]
pub struct AmmWallet {
    a: AccountId,
    a_balance: u128,
    b: AccountId,
    b_balance: u128,
    k: u128,
    owner: AccountId,
}

/// The custody engine as mathematical values.
pub struct WalletView {
    pub a: Seq<char>,
    pub a_balance: nat,
    pub b: Seq<char>,
    pub b_balance: nat,
    pub k: nat,
    pub owner: Seq<char>,
}

/// What a receipt leaves behind: the engine after it, and the transfer back
/// to the sender where one is due.
pub type Receipt = Result<(WalletView, Option<ActionView>), AmmError>;

impl WalletView {
    /// An engine that holds nothing yet.
    pub open spec fn fresh(a: Seq<char>, b: Seq<char>, owner: Seq<char>) -> WalletView {
        WalletView { a, a_balance: 0, b, b_balance: 0, k: 0, owner }
    }

    /// The asset that the service `token` keeps, if it is one of the two.
    pub open spec fn asset_of(self, token: Seq<char>) -> Option<Asset> {
        if token == self.a {
            Some(Asset::A)
        } else if token == self.b {
            Some(Asset::B)
        } else {
            None
        }
    }

    /// The service that keeps `asset`.
    pub open spec fn token(self, asset: Asset) -> Seq<char> {
        match asset {
            Asset::A => self.a,
            Asset::B => self.b,
        }
    }

    /// The balance of `asset`.
    pub open spec fn balance(self, asset: Asset) -> nat {
        match asset {
            Asset::A => self.a_balance,
            Asset::B => self.b_balance,
        }
    }

    /// The engine with the balance of `asset` set to `balance`.
    pub open spec fn with_balance(self, asset: Asset, balance: nat) -> WalletView {
        match asset {
            Asset::A => WalletView { a_balance: balance, ..self },
            Asset::B => WalletView { b_balance: balance, ..self },
        }
    }

    /// What a counterparty gets back of the other asset once the balance of
    /// the asset `received` has risen to `credited`: what the other balance
    /// holds above `k / credited`, and nothing where it holds less.
    pub open spec fn refund(self, received: Asset, credited: nat) -> nat {
        let required = self.k as int / credited as int;
        let other = self.balance(received.spec_other());
        if other > required {
            (other - required) as nat
        } else {
            0
        }
    }

    /// The effect of `amount` arriving from `sender` through the asset
    /// service `token`.
    pub open spec fn receive(self, token: Seq<char>, sender: Seq<char>, amount: nat) -> Receipt {
        match self.asset_of(token) {
            None => Ok((self, None)),
            Some(asset) => {
                let credited = self.balance(asset) + amount;
                let next = self.with_balance(asset, credited);
                if credited > u128::MAX {
                    Err(AmmError::InvariantViolation)
                } else if sender == self.owner {
                    let k = next.a_balance * next.b_balance;
                    if k > u128::MAX {
                        Err(AmmError::InvariantViolation)
                    } else {
                        Ok((WalletView { k, ..next }, None))
                    }
                } else if credited == 0 {
                    Err(AmmError::PreconditionViolation(Precondition::ZeroReserves))
                } else {
                    let refund = self.refund(asset, credited);
                    if refund == 0 {
                        Ok((next, None))
                    } else {
                        Ok(
                            (
                                next,
                                Some(
                                    ActionView::Transfer {
                                        token: self.token(asset.spec_other()),
                                        receiver: sender,
                                        amount: refund,
                                        memo: Memo::back(asset.spec_other()),
                                    },
                                ),
                            ),
                        )
                    }
                }
            },
        }
    }

    /// The transfer that the engine issues when `caller` asks it to send
    /// `qty` of `asset` to `account`.
    pub open spec fn withdraw(
        self,
        asset: Asset,
        caller: Seq<char>,
        account: Seq<char>,
        qty: nat,
    ) -> Result<ActionView, AmmError> {
        if caller != self.owner {
            Err(AmmError::PreconditionViolation(Precondition::Unauthorized))
        } else if qty == 0 {
            Err(AmmError::PreconditionViolation(Precondition::ZeroQuantity))
        } else if qty > self.balance(asset) {
            Err(AmmError::InvariantViolation)
        } else {
            Ok(
                ActionView::Transfer {
                    token: self.token(asset),
                    receiver: account,
                    amount: qty,
                    memo: Memo::Withdraw,
                },
            )
        }
    }

    /// The engine after a transfer of `amount` of `asset` out of custody has
    /// ended with `result`.
    pub open spec fn transfer_back(self, asset: Asset, amount: nat, result: StepResult) -> Result<
        WalletView,
        AmmError,
    > {
        if result == StepResult::Failed {
            Err(AmmError::RemoteCallFailure(Step::Refund))
        } else if amount > self.balance(asset) {
            Err(AmmError::InvariantViolation)
        } else {
            Ok(self.with_balance(asset, (self.balance(asset) - amount) as nat))
        }
    }
}

impl View for AmmWallet {
    type V = WalletView;

    closed spec fn view(&self) -> WalletView {
        WalletView {
            a: self.a@,
            a_balance: self.a_balance as nat,
            b: self.b@,
            b_balance: self.b_balance as nat,
            k: self.k as nat,
            owner: self.owner@,
        }
    }
}

impl Clone for AmmWallet {
    fn clone(&self) -> (res: Self)
        ensures
            res@ == self@,
    {
        AmmWallet {
            a: self.a.clone(),
            a_balance: self.a_balance,
            b: self.b.clone(),
            b_balance: self.b_balance,
            k: self.k,
            owner: self.owner.clone(),
        }
    }
}

impl AmmWallet {
    /// Sets the engine up for the assets `a` and `b`. The caller, `owner`,
    /// becomes the owner. `state_exists` tells whether the engine has been
    /// set up before; then nothing is created.
    pub fn init(a: AccountId, b: AccountId, owner: AccountId, state_exists: bool) -> (res: Result<
        AmmWallet,
        AmmError,
    >)
        ensures
            match res {
                Ok(w) => !state_exists && w@ == WalletView::fresh(a@, b@, owner@),
                Err(e) => state_exists && e == AmmError::PreconditionViolation(
                    Precondition::AlreadyInitialized,
                ),
            },
    {
        if state_exists {
            return Err(AmmError::PreconditionViolation(Precondition::AlreadyInitialized));
        }
        Ok(AmmWallet { a, a_balance: 0, b, b_balance: 0, k: 0, owner })
    }

    /// The engine with exactly these values.
    pub fn from_parts(
        a: AccountId,
        a_balance: u128,
        b: AccountId,
        b_balance: u128,
        k: u128,
        owner: AccountId,
    ) -> (res: AmmWallet)
        ensures
            res@ == (WalletView {
                a: a@,
                a_balance: a_balance as nat,
                b: b@,
                b_balance: b_balance as nat,
                k: k as nat,
                owner: owner@,
            }),
    {
        AmmWallet { a, a_balance, b, b_balance, k, owner }
    }

    /// A copy of the engine's state.
    pub fn state(&self) -> (res: AmmWallet)
        ensures
            res@ == self@,
    {
        self.clone()
    }

    /// The asset service of asset A.
    pub fn a(&self) -> (res: &AccountId)
        ensures
            res@ == self@.a,
    {
        &self.a
    }

    /// The asset service of asset B.
    pub fn b(&self) -> (res: &AccountId)
        ensures
            res@ == self@.b,
    {
        &self.b
    }

    /// The front that owns the engine.
    pub fn owner(&self) -> (res: &AccountId)
        ensures
            res@ == self@.owner,
    {
        &self.owner
    }

    /// The balance of asset A.
    pub fn a_balance(&self) -> (res: u128)
        ensures
            res == self@.a_balance,
    {
        self.a_balance
    }

    /// The balance of asset B.
    pub fn b_balance(&self) -> (res: u128)
        ensures
            res == self@.b_balance,
    {
        self.b_balance
    }

    /// The constant product as the owner's last deposit has set it.
    pub fn k(&self) -> (res: u128)
        ensures
            res == self@.k,
    {
        self.k
    }

    /// The balance of `asset`.
    pub fn balance(&self, asset: Asset) -> (res: u128)
        ensures
            res == self@.balance(asset),
    {
        match asset {
            Asset::A => self.a_balance,
            Asset::B => self.b_balance,
        }
    }

    /// The asset service of `asset`.
    pub fn token(&self, asset: Asset) -> (res: &AccountId)
        ensures
            res@ == self@.token(asset),
    {
        match asset {
            Asset::A => &self.a,
            Asset::B => &self.b,
        }
    }

    /// The asset that the service `token` keeps, if it is one of the two.
    pub fn asset_of(&self, token: &AccountId) -> (res: Option<Asset>)
        ensures
            res == self@.asset_of(token@),
    {
        if *token == self.a {
            Some(Asset::A)
        } else if *token == self.b {
            Some(Asset::B)
        } else {
            None
        }
    }

    fn set_balance(&mut self, asset: Asset, balance: u128)
        ensures
            final(self)@ == old(self)@.with_balance(asset, balance as nat),
    {
        match asset {
            Asset::A => { self.a_balance = balance; },
            Asset::B => { self.b_balance = balance; },
        }
    }

    /// Takes note that `amount` has arrived from `sender_id`; `token` is
    /// the asset service that reports it.
    ///
    /// The balance of the asset rises by `amount`. From the owner, that is
    /// a deposit: `k` becomes the product of the two balances. From anybody
    /// else it is a swap: the result is the transfer of the other asset
    /// that brings the product back to `k`, if there is anything to send.
    /// The other balance is not touched here; `on_transfer_a_back` or
    /// `on_transfer_b_back` debits it once the transfer is confirmed.
    ///
    /// A report from a service that keeps neither asset changes nothing.
    /// A receipt that would carry a balance or `k` beyond `u128` is
    /// refused, and so is an empty receipt from a counterparty into an
    /// empty balance.
    pub fn ft_on_transfer(
        &mut self,
        token: &AccountId,
        sender_id: &AccountId,
        amount: u128,
        msg: &str,
    ) -> (res: Result<Option<Action>, AmmError>)
        ensures
            match res {
                Ok(action) => old(self)@.receive(token@, sender_id@, amount as nat) == Ok::<
                    (WalletView, Option<ActionView>),
                    AmmError,
                >((final(self)@, optional_action_view(action))),
                Err(e) => old(self)@.receive(token@, sender_id@, amount as nat) == Err::<
                    (WalletView, Option<ActionView>),
                    AmmError,
                >(e) && final(self)@ == old(self)@,
            },
            res is Ok && sender_id@ == old(self)@.owner && old(self)@.asset_of(token@) is Some
                ==> final(self)@.k == final(self)@.a_balance * final(self)@.b_balance,
    {
        let asset = match self.asset_of(token) {
            Some(asset) => asset,
            None => { return Ok(None); },
        };
        let credited = match self.balance(asset).checked_add(amount) {
            Some(credited) => credited,
            None => { return Err(AmmError::InvariantViolation); },
        };
        if *sender_id == self.owner {
            let product = match asset {
                Asset::A => credited.checked_mul(self.b_balance),
                Asset::B => self.a_balance.checked_mul(credited),
            };
            match product {
                Some(k) => {
                    self.set_balance(asset, credited);
                    self.k = k;
                    Ok(None)
                },
                None => Err(AmmError::InvariantViolation),
            }
        } else if credited == 0 {
            Err(AmmError::PreconditionViolation(Precondition::ZeroReserves))
        } else {
            let required = self.k / credited;
            let refund = self.balance(asset.other()).saturating_sub(required);
            let back = if refund == 0 {
                None
            } else {
                Some(
                    Action::Transfer {
                        token: self.token(asset.other()).clone(),
                        receiver: sender_id.clone(),
                        amount: refund,
                        memo: match asset {
                            Asset::A => Memo::BackB,
                            Asset::B => Memo::BackA,
                        },
                    },
                )
            };
            self.set_balance(asset, credited);
            Ok(back)
        }
    }

    /// The transfer by which the engine sends `qty` of `asset` to
    /// `account_id`, for the owner alone. The balance is debited by
    /// `on_transfer_back` once the transfer is confirmed.
    pub fn withdraw(
        &self,
        asset: Asset,
        predecessor: &AccountId,
        account_id: AccountId,
        qty: u128,
    ) -> (res: Result<Action, AmmError>)
        ensures
            match res {
                Ok(action) => self@.withdraw(asset, predecessor@, account_id@, qty as nat) == Ok::<
                    ActionView,
                    AmmError,
                >(action@),
                Err(e) => self@.withdraw(asset, predecessor@, account_id@, qty as nat) == Err::<
                    ActionView,
                    AmmError,
                >(e),
            },
    {
        if *predecessor != self.owner {
            Err(AmmError::PreconditionViolation(Precondition::Unauthorized))
        } else if qty == 0 {
            Err(AmmError::PreconditionViolation(Precondition::ZeroQuantity))
        } else if qty > self.balance(asset) {
            Err(AmmError::InvariantViolation)
        } else {
            Ok(
                Action::Transfer {
                    token: self.token(asset).clone(),
                    receiver: account_id,
                    amount: qty,
                    memo: Memo::Withdraw,
                },
            )
        }
    }

    /// `withdraw` of asset A.
    pub fn withdraw_a(&self, predecessor: &AccountId, account_id: AccountId, qty: u128) -> (res:
        Result<Action, AmmError>)
        ensures
            match res {
                Ok(action) => self@.withdraw(Asset::A, predecessor@, account_id@, qty as nat)
                    == Ok::<ActionView, AmmError>(action@),
                Err(e) => self@.withdraw(Asset::A, predecessor@, account_id@, qty as nat) == Err::<
                    ActionView,
                    AmmError,
                >(e),
            },
    {
        self.withdraw(Asset::A, predecessor, account_id, qty)
    }

    /// `withdraw` of asset B.
    pub fn withdraw_b(&self, predecessor: &AccountId, account_id: AccountId, qty: u128) -> (res:
        Result<Action, AmmError>)
        ensures
            match res {
                Ok(action) => self@.withdraw(Asset::B, predecessor@, account_id@, qty as nat)
                    == Ok::<ActionView, AmmError>(action@),
                Err(e) => self@.withdraw(Asset::B, predecessor@, account_id@, qty as nat) == Err::<
                    ActionView,
                    AmmError,
                >(e),
            },
    {
        self.withdraw(Asset::B, predecessor, account_id, qty)
    }

    /// Settles a transfer of `amount` of `asset` out of custody. Only a
    /// confirmed transfer is debited, and only if the balance covers it;
    /// otherwise the engine stays as it is.
    pub fn on_transfer_back(&mut self, asset: Asset, amount: u128, result: StepResult) -> (res:
        Result<(), AmmError>)
        ensures
            match res {
                Ok(_) => old(self)@.transfer_back(asset, amount as nat, result) == Ok::<
                    WalletView,
                    AmmError,
                >(final(self)@),
                Err(e) => old(self)@.transfer_back(asset, amount as nat, result) == Err::<
                    WalletView,
                    AmmError,
                >(e) && final(self)@ == old(self)@,
            },
    {
        match result {
            StepResult::Failed => Err(AmmError::RemoteCallFailure(Step::Refund)),
            StepResult::Succeeded => {
                match self.balance(asset).checked_sub(amount) {
                    Some(rest) => {
                        self.set_balance(asset, rest);
                        Ok(())
                    },
                    None => Err(AmmError::InvariantViolation),
                }
            },
        }
    }

    /// `on_transfer_back` for asset A.
    pub fn on_transfer_a_back(&mut self, amount: u128, result: StepResult) -> (res: Result<
        (),
        AmmError,
    >)
        ensures
            match res {
                Ok(_) => old(self)@.transfer_back(Asset::A, amount as nat, result) == Ok::<
                    WalletView,
                    AmmError,
                >(final(self)@),
                Err(e) => old(self)@.transfer_back(Asset::A, amount as nat, result) == Err::<
                    WalletView,
                    AmmError,
                >(e) && final(self)@ == old(self)@,
            },
    {
        self.on_transfer_back(Asset::A, amount, result)
    }

    /// `on_transfer_back` for asset B.
    pub fn on_transfer_b_back(&mut self, amount: u128, result: StepResult) -> (res: Result<
        (),
        AmmError,
    >)
        ensures
            match res {
                Ok(_) => old(self)@.transfer_back(Asset::B, amount as nat, result) == Ok::<
                    WalletView,
                    AmmError,
                >(final(self)@),
                Err(e) => old(self)@.transfer_back(Asset::B, amount as nat, result) == Err::<
                    WalletView,
                    AmmError,
                >(e) && final(self)@ == old(self)@,
            },
    {
        self.on_transfer_back(Asset::B, amount, result)
    }
}

} // verus!
