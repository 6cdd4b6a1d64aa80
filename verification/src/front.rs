//! The reserve front: the door through which deposits and swaps enter the
//! pool.
//!
//! The front holds no funds. It keeps, for each asset, the quantity that it
//! believes the custody engine to hold on its behalf, and it changes such a
//! quantity in one place only: in the callback that takes the outcome of the
//! remote steps, and only if every step was confirmed.

use crate::account::valid_account_id;
use crate::account::AccountId;
use crate::action::action_views;
use crate::action::Action;
use crate::action::ActionView;
use crate::action::Asset;
use crate::action::Memo;
use crate::action::PromiseResult;
use crate::action::StepResult;
use crate::error::AmmError;
use crate::error::Precondition;
use crate::error::Step;
use crate::metadata::metadata_in;
use crate::metadata::metadata_view;
use crate::metadata::read_metadata;
use crate::metadata::TokenMetadata;
use crate::metadata::TokenMetadataView;
use crate::naming::wallet_account_id;
use crate::naming::wallet_account_name;
use crate::pricing::get_des_diff_from_src_qty;
use crate::pricing::swap_output;
use crate::swap::Swap;
use crate::swap::SwapEvent;
use crate::swap::SwapStage;
use crate::swap::SwapView;
use vstd::prelude::*;

verus! {

/// The gas set aside for a callback.
pub const CALLBACK_GAS: u64 = 5_000_000_000_000;

/// What a new custody engine is funded with, to pay for what it will do.
pub const INITIAL_BALANCE: u128 = 100_000_000_000_000_000_000_000_000;

/// The payment that a deposit must carry.
pub const ONE_YOCTO: u128 = 1;

/// One asset as the front sees it.
#[derive(Debug)]
pub struct Token {
    addr: AccountId,
    meta: Option<TokenMetadata>,
    qty: u128,
}

/// One asset of the front as mathematical values.
pub struct TokenView {
    pub addr: Seq<char>,
    pub meta: Option<TokenMetadataView>,
    pub qty: nat,
}

impl View for Token {
    type V = TokenView;

    closed spec fn view(&self) -> TokenView {
        TokenView { addr: self.addr@, meta: metadata_view(self.meta), qty: self.qty as nat }
    }
}

impl Clone for Token {
    fn clone(&self) -> (res: Self)
        ensures
            res@ == self@,
    {
        let meta = match &self.meta {
            Some(m) => Some(m.clone()),
            None => None,
        };
        Token { addr: self.addr.clone(), meta, qty: self.qty }
    }
}

impl Token {
    /// The record of the asset at `addr`, with `qty` of it in custody.
    pub fn new(addr: AccountId, meta: Option<TokenMetadata>, qty: u128) -> (res: Token)
        ensures
            res@ == (TokenView { addr: addr@, meta: metadata_view(meta), qty: qty as nat }),
    {
        Token { addr, meta, qty }
    }

    /// The asset service.
    pub fn addr(&self) -> (res: &AccountId)
        ensures
            res@ == self@.addr,
    {
        &self.addr
    }

    /// The display metadata, once it has been fetched.
    pub fn meta(&self) -> (res: &Option<TokenMetadata>)
        ensures
            metadata_view(*res) == self@.meta,
    {
        &self.meta
    }

    /// The quantity that the front believes to be in custody.
    pub fn qty(&self) -> (res: u128)
        ensures
            res == self@.qty,
    {
        self.qty
    }
}

/// The reserve front.
#[derive(Debug)]
pub struct Contract {
    a: Token,
    b: Token,
    wallet: AccountId,
    initialized: bool,
    swap_in_flight: bool,
}

/// The reserve front as mathematical values.
pub struct ContractView {
    pub a: TokenView,
    pub b: TokenView,
    pub wallet: Seq<char>,
    pub initialized: bool,
    pub swap_in_flight: bool,
}

/// The remote calls that create a custody engine at `wallet` for the front
/// `current` and make both known to the two asset services.
pub open spec fn provisioning_plan(
    a: Seq<char>,
    b: Seq<char>,
    wallet: Seq<char>,
    current: Seq<char>,
) -> Seq<ActionView> {
    seq![
        ActionView::CreateWallet { wallet, balance: INITIAL_BALANCE as nat },
        ActionView::InitWallet { wallet, a, b },
        ActionView::Register { token: a, account: current },
        ActionView::Register { token: a, account: wallet },
        ActionView::Register { token: b, account: current },
        ActionView::Register { token: b, account: wallet },
    ]
}

/// The remote calls of an initialization: the metadata of both assets, then
/// the provisioning of the custody engine.
pub open spec fn init_plan(a: Seq<char>, b: Seq<char>, wallet: Seq<char>, current: Seq<char>) -> Seq<
    ActionView,
> {
    seq![ActionView::FetchMetadata { token: a }, ActionView::FetchMetadata { token: b }]
        + provisioning_plan(a, b, wallet, current)
}

/// Whether `results` reports the step at place `i` as confirmed. A step
/// without a result is not.
pub open spec fn step_confirmed(results: Seq<StepResult>, i: int) -> bool {
    0 <= i < results.len() && results[i] == StepResult::Succeeded
}

/// The first step of the provisioning plan that is not reported as
/// confirmed, in a report of one result for each of the six steps in order.
pub open spec fn provisioning_failure(results: Seq<StepResult>) -> Option<Step> {
    if !step_confirmed(results, 0) {
        Some(Step::WalletCreation)
    } else if !step_confirmed(results, 1) {
        Some(Step::WalletInit)
    } else if !step_confirmed(results, 2) || !step_confirmed(results, 3) || !step_confirmed(
        results,
        4,
    ) || !step_confirmed(results, 5) {
        Some(Step::Registration)
    } else {
        None
    }
}

impl ContractView {
    /// A front that has not been initialized. Until it is, every account in
    /// it is the front's own.
    pub open spec fn fresh(current: Seq<char>) -> ContractView {
        ContractView {
            a: TokenView { addr: current, meta: None, qty: 0 },
            b: TokenView { addr: current, meta: None, qty: 0 },
            wallet: current,
            initialized: false,
            swap_in_flight: false,
        }
    }

    /// The front's record of `asset`.
    pub open spec fn token(self, asset: Asset) -> TokenView {
        match asset {
            Asset::A => self.a,
            Asset::B => self.b,
        }
    }

    /// The reserve of `asset`.
    pub open spec fn reserve(self, asset: Asset) -> nat {
        self.token(asset).qty
    }

    /// The front with the reserve of `asset` set to `qty`.
    pub open spec fn with_reserve(self, asset: Asset, qty: nat) -> ContractView {
        match asset {
            Asset::A => ContractView { a: TokenView { qty, ..self.a }, ..self },
            Asset::B => ContractView { b: TokenView { qty, ..self.b }, ..self },
        }
    }

    /// Why an initialization for the assets `a` and `b` is refused, if it
    /// is.
    pub open spec fn init_refusal(
        self,
        a: Seq<char>,
        b: Seq<char>,
        current: Seq<char>,
        salt: nat,
    ) -> Option<AmmError> {
        if self.initialized {
            Some(AmmError::PreconditionViolation(Precondition::AlreadyInitialized))
        } else if !valid_account_id(a) || !valid_account_id(b) || !valid_account_id(
            wallet_account_name(salt, current),
        ) {
            Some(AmmError::PreconditionViolation(Precondition::InvalidAccount))
        } else {
            None
        }
    }

    /// The front once an initialization for `a` and `b` is under way: the
    /// assets are noted, their metadata is still to come.
    pub open spec fn init_started(self, a: Seq<char>, b: Seq<char>) -> ContractView {
        ContractView {
            a: TokenView { addr: a, meta: None, qty: self.a.qty },
            b: TokenView { addr: b, meta: None, qty: self.b.qty },
            ..self
        }
    }

    /// Why the provisioning of a custody engine is refused, if it is.
    pub open spec fn provisioning_refusal(self, current: Seq<char>, salt: nat) -> Option<AmmError> {
        if self.initialized {
            Some(AmmError::PreconditionViolation(Precondition::AlreadyInitialized))
        } else if !valid_account_id(wallet_account_name(salt, current)) {
            Some(AmmError::PreconditionViolation(Precondition::InvalidAccount))
        } else {
            None
        }
    }

    /// Why what was read as metadata of `addr` is refused, if it is.
    pub open spec fn metadata_refusal(self, addr: Seq<char>, parsed: Option<TokenMetadataView>)
        -> Option<AmmError> {
        if parsed is None {
            Some(AmmError::MalformedRemoteResponse)
        } else if addr != self.a.addr && addr != self.b.addr {
            Some(AmmError::PreconditionViolation(Precondition::UnknownAsset))
        } else {
            None
        }
    }

    /// The front with `meta` noted for the asset at `addr`: for asset A if
    /// `addr` is its service, else for asset B.
    pub open spec fn with_metadata(self, addr: Seq<char>, meta: TokenMetadataView) -> ContractView {
        if addr == self.a.addr {
            ContractView { a: TokenView { meta: Some(meta), ..self.a }, ..self }
        } else {
            ContractView { b: TokenView { meta: Some(meta), ..self.b }, ..self }
        }
    }

    /// Why an initialization cannot be completed, if it cannot.
    pub open spec fn completion_refusal(
        self,
        metadata_a: StepResult,
        metadata_b: StepResult,
        wallet: StepResult,
    ) -> Option<AmmError> {
        if self.initialized {
            Some(AmmError::PreconditionViolation(Precondition::AlreadyInitialized))
        } else if metadata_a == StepResult::Failed || metadata_b == StepResult::Failed {
            Some(AmmError::RemoteCallFailure(Step::Metadata))
        } else if wallet == StepResult::Failed {
            Some(AmmError::RemoteCallFailure(Step::WalletCreation))
        } else {
            None
        }
    }

    /// The front after its initialization: the custody engine is recorded
    /// and the front is open for deposits and swaps.
    pub open spec fn init_completed(self, wallet: Seq<char>) -> ContractView {
        ContractView { wallet, initialized: true, ..self }
    }

    /// Why the front does not ask for new code in its custody engine, if
    /// it does not.
    pub open spec fn redeploy_refusal(self, predecessor: Seq<char>, current: Seq<char>) -> Option<
        AmmError,
    > {
        if !self.initialized {
            Some(AmmError::PreconditionViolation(Precondition::NotInitialized))
        } else if predecessor != current {
            Some(AmmError::PreconditionViolation(Precondition::Unauthorized))
        } else {
            None
        }
    }

    /// Why a deposit of `qty` is refused, if it is.
    pub open spec fn deposit_refusal(
        self,
        qty: nat,
        predecessor: Seq<char>,
        current: Seq<char>,
        attached_deposit: nat,
    ) -> Option<AmmError> {
        if !self.initialized {
            Some(AmmError::PreconditionViolation(Precondition::NotInitialized))
        } else if predecessor != current {
            Some(AmmError::PreconditionViolation(Precondition::Unauthorized))
        } else if attached_deposit != ONE_YOCTO {
            Some(AmmError::PreconditionViolation(Precondition::MissingPayment))
        } else if qty == 0 {
            Some(AmmError::PreconditionViolation(Precondition::ZeroQuantity))
        } else {
            None
        }
    }

    /// The transfer by which the operator deposits `qty` of `asset`.
    pub open spec fn deposit_transfer(self, asset: Asset, qty: nat) -> ActionView {
        ActionView::Transfer {
            token: self.token(asset).addr,
            receiver: self.wallet,
            amount: qty,
            memo: Memo::Deposit,
        }
    }

    /// Why a deposit of `qty` of `asset` is not credited, if it is not.
    pub open spec fn credit_refusal(self, asset: Asset, qty: nat, result: StepResult) -> Option<
        AmmError,
    > {
        if !self.initialized {
            Some(AmmError::PreconditionViolation(Precondition::NotInitialized))
        } else if result == StepResult::Failed {
            Some(AmmError::RemoteCallFailure(Step::DepositTransfer))
        } else if self.reserve(asset) + qty > u128::MAX {
            Some(AmmError::InvariantViolation)
        } else {
            None
        }
    }

    /// The front with `qty` more of `asset`.
    pub open spec fn credited(self, asset: Asset, qty: nat) -> ContractView {
        self.with_reserve(asset, self.reserve(asset) + qty)
    }

    /// Why a swap of `qty` of the asset `source` is refused, if it is.
    pub open spec fn swap_refusal(self, source: Asset, qty: nat) -> Option<AmmError> {
        if !self.initialized {
            Some(AmmError::PreconditionViolation(Precondition::NotInitialized))
        } else if self.a.qty == 0 || self.b.qty == 0 {
            Some(AmmError::PreconditionViolation(Precondition::ZeroReserves))
        } else if qty == 0 {
            Some(AmmError::PreconditionViolation(Precondition::ZeroQuantity))
        } else if self.swap_in_flight {
            Some(AmmError::PreconditionViolation(Precondition::SwapInFlight))
        } else if self.reserve(source) + qty > u128::MAX {
            Some(AmmError::InvariantViolation)
        } else {
            None
        }
    }

    /// The swap that the front accepts for `qty` of `source` from `caller`:
    /// it pays what the curve gives for the reserves as they stand.
    pub open spec fn swap_accepted(self, source: Asset, qty: nat, caller: Seq<char>) -> SwapView {
        SwapView {
            source,
            qty,
            diff: swap_output(self.reserve(source), qty, self.reserve(source.spec_other())),
            caller,
            stage: SwapStage::Requested,
        }
    }

    /// The front while a swap is on its way.
    pub open spec fn locked(self) -> ContractView {
        ContractView { swap_in_flight: true, ..self }
    }

    /// The front with no swap on its way.
    pub open spec fn released(self) -> ContractView {
        ContractView { swap_in_flight: false, ..self }
    }

    /// The remote call with which `swap` enters `stage`.
    pub open spec fn swap_action(self, swap: SwapView, stage: SwapStage) -> Option<ActionView> {
        match stage {
            SwapStage::SourceTransferPending => Some(
                ActionView::TransferFrom {
                    token: self.token(swap.source).addr,
                    sender: swap.caller,
                    receiver: self.wallet,
                    amount: swap.qty,
                },
            ),
            SwapStage::DestinationWithdrawPending => Some(
                ActionView::Withdraw {
                    wallet: self.wallet,
                    asset: swap.source.spec_other(),
                    account: swap.caller,
                    qty: swap.diff,
                },
            ),
            _ => None,
        }
    }

    /// What `event` makes of `swap`: its next stage, and the remote call to
    /// make if the stage has changed.
    pub open spec fn swap_advanced(self, swap: SwapView, event: SwapEvent) -> (
        SwapView,
        Option<ActionView>,
    ) {
        let stage = swap.stage.spec_next(event, swap.diff);
        (
            SwapView { stage, ..swap },
            if stage == swap.stage {
                None
            } else {
                self.swap_action(swap, stage)
            },
        )
    }

    /// Why a swap that has come to `stage` is not committed, if it is not.
    pub open spec fn settle_refusal(self, source: Asset, qty: nat, diff: nat, stage: SwapStage)
        -> Option<AmmError> {
        if !self.initialized {
            Some(AmmError::PreconditionViolation(Precondition::NotInitialized))
        } else if !self.swap_in_flight {
            Some(AmmError::PreconditionViolation(Precondition::NoSwapInFlight))
        } else {
            match stage {
                SwapStage::Reconciled => if self.reserve(source) + qty > u128::MAX || diff
                    > self.reserve(source.spec_other()) {
                    Some(AmmError::InvariantViolation)
                } else {
                    None
                },
                SwapStage::Failed(step) => Some(AmmError::RemoteCallFailure(step)),
                _ => Some(AmmError::PreconditionViolation(Precondition::SwapNotSettled)),
            }
        }
    }

    /// The front after a swap of `qty` of `source` for `diff` of the other
    /// asset has been committed.
    pub open spec fn swapped(self, source: Asset, qty: nat, diff: nat) -> ContractView {
        self.released().with_reserve(source, self.reserve(source) + qty).with_reserve(
            source.spec_other(),
            (self.reserve(source.spec_other()) - diff) as nat,
        )
    }

    /// The front after the callback of a swap that has come to `stage`. A
    /// swap that has ended gives the front free for the next one, whether
    /// it is committed or not; a reserve changes only where it is.
    pub open spec fn settled(self, source: Asset, qty: nat, diff: nat, stage: SwapStage)
        -> ContractView {
        if self.settle_refusal(source, qty, diff, stage) is None {
            self.swapped(source, qty, diff)
        } else if self.initialized && self.swap_in_flight && stage.spec_is_final() {
            self.released()
        } else {
            self
        }
    }
}

impl View for Contract {
    type V = ContractView;

    closed spec fn view(&self) -> ContractView {
        ContractView {
            a: self.a@,
            b: self.b@,
            wallet: self.wallet@,
            initialized: self.initialized,
            swap_in_flight: self.swap_in_flight,
        }
    }
}

impl Clone for Contract {
    fn clone(&self) -> (res: Self)
        ensures
            res@ == self@,
    {
        Contract {
            a: self.a.clone(),
            b: self.b.clone(),
            wallet: self.wallet.clone(),
            initialized: self.initialized,
            swap_in_flight: self.swap_in_flight,
        }
    }
}

/// The first step of the provisioning plan that `results` does not report
/// as confirmed. The report holds one result for each of the six steps, in
/// the order of the plan; a step without a result counts as failed.
pub fn first_provisioning_failure(results: &Vec<StepResult>) -> (res: Option<Step>)
    ensures
        res == provisioning_failure(results@),
{
    let mut i: usize = 0;
    while i < 6
        invariant
            0 <= i <= 6,
            forall|j: int| 0 <= j < i ==> step_confirmed(results@, j),
        decreases 6 - i,
    {
        let confirmed = i < results.len() && match results[i] {
            StepResult::Succeeded => true,
            StepResult::Failed => false,
        };
        if !confirmed {
            return Some(
                if i == 0 {
                    Step::WalletCreation
                } else if i == 1 {
                    Step::WalletInit
                } else {
                    Step::Registration
                },
            );
        }
        i = i + 1;
    }
    None
}

impl Contract {
    /// A front that has not been initialized, for the account
    /// `current_account_id`. Until it is initialized, every account in it is
    /// that one.
    pub fn default(current_account_id: AccountId) -> (res: Contract)
        ensures
            res@ == ContractView::fresh(current_account_id@),
    {
        Contract {
            a: Token { addr: current_account_id.clone(), meta: None, qty: 0 },
            b: Token { addr: current_account_id.clone(), meta: None, qty: 0 },
            wallet: current_account_id,
            initialized: false,
            swap_in_flight: false,
        }
    }

    /// The front with exactly these values.
    pub fn from_parts(
        a: Token,
        b: Token,
        wallet: AccountId,
        initialized: bool,
        swap_in_flight: bool,
    ) -> (res: Contract)
        ensures
            res@ == (ContractView {
                a: a@,
                b: b@,
                wallet: wallet@,
                initialized,
                swap_in_flight,
            }),
    {
        Contract { a, b, wallet, initialized, swap_in_flight }
    }

    /// The front's record of asset A.
    pub fn a(&self) -> (res: &Token)
        ensures
            res@ == self@.a,
    {
        &self.a
    }

    /// The front's record of asset B.
    pub fn b(&self) -> (res: &Token)
        ensures
            res@ == self@.b,
    {
        &self.b
    }

    /// The custody engine of the front.
    pub fn wallet(&self) -> (res: &AccountId)
        ensures
            res@ == self@.wallet,
    {
        &self.wallet
    }

    /// Whether the front has been initialized.
    pub fn initialized(&self) -> (res: bool)
        ensures
            res == self@.initialized,
    {
        self.initialized
    }

    /// Whether a swap is on its way.
    pub fn swap_in_flight(&self) -> (res: bool)
        ensures
            res == self@.swap_in_flight,
    {
        self.swap_in_flight
    }

    /// The front's record of `asset`.
    pub fn token(&self, asset: Asset) -> (res: &Token)
        ensures
            res@ == self@.token(asset),
    {
        match asset {
            Asset::A => &self.a,
            Asset::B => &self.b,
        }
    }

    /// The reserve of `asset`.
    pub fn reserve(&self, asset: Asset) -> (res: u128)
        ensures
            res == self@.reserve(asset),
    {
        self.token(asset).qty
    }

    fn set_reserve(&mut self, asset: Asset, qty: u128)
        ensures
            final(self)@ == old(self)@.with_reserve(asset, qty as nat),
    {
        match asset {
            Asset::A => { self.a.qty = qty; },
            Asset::B => { self.b.qty = qty; },
        }
    }

    /// Refuses unless the front has been initialized.
    pub fn assert_initialized(&self) -> (res: Result<(), AmmError>)
        ensures
            match res {
                Ok(_) => self@.initialized,
                Err(e) => !self@.initialized && e == AmmError::PreconditionViolation(
                    Precondition::NotInitialized,
                ),
            },
    {
        if self.initialized {
            Ok(())
        } else {
            Err(AmmError::PreconditionViolation(Precondition::NotInitialized))
        }
    }

    /// Refuses unless the front holds some of both assets.
    pub fn assert_deposited(&self) -> (res: Result<(), AmmError>)
        ensures
            match res {
                Ok(_) => self@.a.qty > 0 && self@.b.qty > 0,
                Err(e) => (self@.a.qty == 0 || self@.b.qty == 0) && e
                    == AmmError::PreconditionViolation(Precondition::ZeroReserves),
            },
    {
        if self.a.qty > 0 && self.b.qty > 0 {
            Ok(())
        } else {
            Err(AmmError::PreconditionViolation(Precondition::ZeroReserves))
        }
    }

    /// Starts the initialization of the front for the asset services `a`
    /// and `b`.
    ///
    /// `current_account_id` is the front's own account, and `salt` a number
    /// that the host has not handed to an earlier attempt; the custody
    /// engine is to be created under `wallet_account_name` of the two. The
    /// result is the list of remote calls to make. The front notes the two
    /// assets and nothing else: it is initialized by `init_done`, once the
    /// calls have been made.
    ///
    /// A front that has been initialized refuses, and so creates no second
    /// custody engine. A front whose earlier attempt has failed accepts.
    pub fn init(&mut self, a: String, b: String, current_account_id: &AccountId, salt: u64) -> (res:
        Result<Vec<Action>, AmmError>)
        ensures
            match res {
                Ok(plan) => old(self)@.init_refusal(a@, b@, current_account_id@, salt as nat)
                    is None && final(self)@ == old(self)@.init_started(a@, b@) && action_views(
                    plan@,
                ) == init_plan(
                    a@,
                    b@,
                    wallet_account_name(salt as nat, current_account_id@),
                    current_account_id@,
                ),
                Err(e) => old(self)@.init_refusal(a@, b@, current_account_id@, salt as nat) == Some(
                    e,
                ) && final(self)@ == old(self)@,
            },
    {
        if self.initialized {
            return Err(AmmError::PreconditionViolation(Precondition::AlreadyInitialized));
        }
        let a_account_id = match AccountId::try_from(a) {
            Some(id) => id,
            None => {
                return Err(AmmError::PreconditionViolation(Precondition::InvalidAccount));
            },
        };
        let b_account_id = match AccountId::try_from(b) {
            Some(id) => id,
            None => {
                return Err(AmmError::PreconditionViolation(Precondition::InvalidAccount));
            },
        };
        let mut plan: Vec<Action> = Vec::new();
        plan.push(self.solve_token_metadata(a_account_id.clone()));
        plan.push(self.solve_token_metadata(b_account_id.clone()));
        let mut provisioning = match self.create_wallet(
            a_account_id.clone(),
            b_account_id.clone(),
            current_account_id,
            salt,
        ) {
            Ok(provisioning) => provisioning,
            Err(e) => { return Err(e); },
        };
        let ghost fetching = plan@;
        let ghost rest = provisioning@;
        plan.append(&mut provisioning);
        self.a = Token { addr: a_account_id, meta: None, qty: self.a.qty };
        self.b = Token { addr: b_account_id, meta: None, qty: self.b.qty };
        proof {
            assert(action_views(plan@) =~= action_views(fetching) + action_views(rest));
            assert(action_views(fetching) =~= seq![
                ActionView::FetchMetadata { token: a@ },
                ActionView::FetchMetadata { token: b@ },
            ]);
        }
        Ok(plan)
    }

    /// The remote call that fetches the display metadata of the asset
    /// service `addr`.
    pub fn solve_token_metadata(&self, addr: AccountId) -> (res: Action)
        ensures
            res@ == (ActionView::FetchMetadata { token: addr@ }),
    {
        Action::FetchMetadata { token: addr }
    }

    /// Notes the metadata `meta` for the asset at `addr`. `meta` is what
    /// was read out of the service's answer; where nothing could be read,
    /// or `addr` is neither asset of the front, the front stays as it is.
    pub fn set_token_metadata(&mut self, addr: &AccountId, meta: Option<TokenMetadata>) -> (res:
        Result<(), AmmError>)
        ensures
            match res {
                Ok(_) => metadata_view(meta) matches Some(m) && old(self)@.metadata_refusal(
                    addr@,
                    Some(m),
                ) is None && final(self)@ == old(self)@.with_metadata(addr@, m),
                Err(e) => old(self)@.metadata_refusal(addr@, metadata_view(meta)) == Some(e)
                    && final(self)@ == old(self)@,
            },
    {
        let meta = match meta {
            Some(meta) => meta,
            None => { return Err(AmmError::MalformedRemoteResponse); },
        };
        if *addr == self.a.addr {
            self.a.meta = Some(meta);
            Ok(())
        } else if *addr == self.b.addr {
            self.b.meta = Some(meta);
            Ok(())
        } else {
            Err(AmmError::PreconditionViolation(Precondition::UnknownAsset))
        }
    }

    /// Takes the answer of the asset service `addr` to the request for its
    /// metadata. A failed request, an answer that cannot be read and an
    /// asset that the front does not know each leave the front as it is.
    pub fn solve_token_metadata_callback(&mut self, addr: AccountId, result: PromiseResult) -> (res:
        Result<(), AmmError>)
        ensures
            match result {
                PromiseResult::Failed => res == Err::<(), AmmError>(
                    AmmError::RemoteCallFailure(Step::Metadata),
                ) && final(self)@ == old(self)@,
                PromiseResult::Successful(bytes) => match res {
                    Ok(_) => metadata_in(bytes@) matches Some(m) && old(self)@.metadata_refusal(
                        addr@,
                        Some(m),
                    ) is None && final(self)@ == old(self)@.with_metadata(addr@, m),
                    Err(e) => old(self)@.metadata_refusal(addr@, metadata_in(bytes@)) == Some(e)
                        && final(self)@ == old(self)@,
                },
            },
    {
        match result {
            PromiseResult::Failed => Err(AmmError::RemoteCallFailure(Step::Metadata)),
            PromiseResult::Successful(bytes) => {
                let meta = read_metadata(&bytes);
                self.set_token_metadata(&addr, meta)
            },
        }
    }

    /// The remote calls that create the custody engine of the front
    /// `current_account_id` for the assets `a` and `b`, fund it, hand it the
    /// two assets and enrol both the front and the engine with both asset
    /// services. A front that has been initialized refuses.
    pub fn create_wallet(
        &self,
        a: AccountId,
        b: AccountId,
        current_account_id: &AccountId,
        salt: u64,
    ) -> (res: Result<Vec<Action>, AmmError>)
        ensures
            match res {
                Ok(plan) => self@.provisioning_refusal(current_account_id@, salt as nat) is None
                    && action_views(plan@) == provisioning_plan(
                    a@,
                    b@,
                    wallet_account_name(salt as nat, current_account_id@),
                    current_account_id@,
                ),
                Err(e) => self@.provisioning_refusal(current_account_id@, salt as nat) == Some(e),
            },
    {
        if self.initialized {
            return Err(AmmError::PreconditionViolation(Precondition::AlreadyInitialized));
        }
        let unchecked = wallet_account_id(salt, current_account_id);
        let wallet = match AccountId::try_from(unchecked.as_str().to_owned()) {
            Some(wallet) => wallet,
            None => {
                return Err(AmmError::PreconditionViolation(Precondition::InvalidAccount));
            },
        };
        let mut plan: Vec<Action> = Vec::new();
        plan.push(Action::CreateWallet { wallet: wallet.clone(), balance: INITIAL_BALANCE });
        plan.push(Action::InitWallet { wallet: wallet.clone(), a: a.clone(), b: b.clone() });
        plan.push(Action::Register { token: a.clone(), account: current_account_id.clone() });
        plan.push(Action::Register { token: a, account: wallet.clone() });
        plan.push(Action::Register { token: b.clone(), account: current_account_id.clone() });
        plan.push(Action::Register { token: b, account: wallet });
        proof {
            assert(action_views(plan@) =~= provisioning_plan(
                a@,
                b@,
                wallet_account_name(salt as nat, current_account_id@),
                current_account_id@,
            ));
        }
        Ok(plan)
    }

    /// Judges the provisioning of the custody engine `wallet_account_id` by
    /// the results of its six steps: the engine stands only if every step
    /// is confirmed, and otherwise the first step that is not is named.
    pub fn create_wallet_callback(&self, wallet_account_id: AccountId, results: &Vec<StepResult>)
        -> (res: Result<AccountId, AmmError>)
        ensures
            match res {
                Ok(wallet) => provisioning_failure(results@) is None && wallet@
                    == wallet_account_id@,
                Err(e) => provisioning_failure(results@) matches Some(step) && e
                    == AmmError::RemoteCallFailure(step),
            },
    {
        match first_provisioning_failure(results) {
            None => Ok(wallet_account_id),
            Some(step) => Err(AmmError::RemoteCallFailure(step)),
        }
    }

    /// Completes the initialization: records the custody engine and opens
    /// the front, both at once, provided that both metadata requests and
    /// the provisioning of the engine have succeeded. Otherwise the front
    /// stays closed and `init` may be called again.
    pub fn init_done(
        &mut self,
        wallet_account_id: AccountId,
        metadata_a: StepResult,
        metadata_b: StepResult,
        wallet: StepResult,
    ) -> (res: Result<(), AmmError>)
        ensures
            match res {
                Ok(_) => old(self)@.completion_refusal(metadata_a, metadata_b, wallet) is None
                    && final(self)@ == old(self)@.init_completed(wallet_account_id@),
                Err(e) => old(self)@.completion_refusal(metadata_a, metadata_b, wallet) == Some(e)
                    && final(self)@ == old(self)@,
            },
    {
        if self.initialized {
            return Err(AmmError::PreconditionViolation(Precondition::AlreadyInitialized));
        }
        match metadata_a {
            StepResult::Failed => { return Err(AmmError::RemoteCallFailure(Step::Metadata)); },
            StepResult::Succeeded => {},
        }
        match metadata_b {
            StepResult::Failed => { return Err(AmmError::RemoteCallFailure(Step::Metadata)); },
            StepResult::Succeeded => {},
        }
        match wallet {
            StepResult::Failed => {
                return Err(AmmError::RemoteCallFailure(Step::WalletCreation));
            },
            StepResult::Succeeded => {},
        }
        self.wallet = wallet_account_id;
        self.initialized = true;
        Ok(())
    }

    /// A copy of the front's state.
    pub fn stat(&self) -> (res: Contract)
        ensures
            res@ == self@,
    {
        self.clone()
    }

    /// The remote call that loads new code into the custody engine, for the
    /// operator of an initialized front alone. The engine keeps its state,
    /// and the front changes nothing.
    pub fn redeploy_custody_code(&self, predecessor: &AccountId, current_account_id: &AccountId)
        -> (res: Result<Action, AmmError>)
        ensures
            match res {
                Ok(action) => self@.redeploy_refusal(predecessor@, current_account_id@) is None
                    && action@ == (ActionView::DeployCode { wallet: self@.wallet }),
                Err(e) => self@.redeploy_refusal(predecessor@, current_account_id@) == Some(e),
            },
    {
        if !self.initialized {
            Err(AmmError::PreconditionViolation(Precondition::NotInitialized))
        } else if *predecessor != *current_account_id {
            Err(AmmError::PreconditionViolation(Precondition::Unauthorized))
        } else {
            Ok(Action::DeployCode { wallet: self.wallet.clone() })
        }
    }

    /// The transfer by which the operator deposits `qty` of `asset` into
    /// custody. Only the front's own account may ask, with a payment of
    /// exactly one unit, for a quantity above zero. The reserve is credited
    /// by `deposit_callback`, once the transfer is confirmed.
    pub fn deposit(
        &self,
        asset: Asset,
        qty: u128,
        predecessor: &AccountId,
        current_account_id: &AccountId,
        attached_deposit: u128,
    ) -> (res: Result<Action, AmmError>)
        ensures
            match res {
                Ok(action) => self@.deposit_refusal(
                    qty as nat,
                    predecessor@,
                    current_account_id@,
                    attached_deposit as nat,
                ) is None && action@ == self@.deposit_transfer(asset, qty as nat),
                Err(e) => self@.deposit_refusal(
                    qty as nat,
                    predecessor@,
                    current_account_id@,
                    attached_deposit as nat,
                ) == Some(e),
            },
    {
        if !self.initialized {
            Err(AmmError::PreconditionViolation(Precondition::NotInitialized))
        } else if *predecessor != *current_account_id {
            Err(AmmError::PreconditionViolation(Precondition::Unauthorized))
        } else if attached_deposit != ONE_YOCTO {
            Err(AmmError::PreconditionViolation(Precondition::MissingPayment))
        } else if qty == 0 {
            Err(AmmError::PreconditionViolation(Precondition::ZeroQuantity))
        } else {
            Ok(
                Action::Transfer {
                    token: self.token(asset).addr.clone(),
                    receiver: self.wallet.clone(),
                    amount: qty,
                    memo: Memo::Deposit,
                },
            )
        }
    }

    /// Settles a deposit of `qty` of `asset`: the reserve rises by `qty` if
    /// the front is initialized, the transfer is confirmed and the sum
    /// fits, and stays as it is otherwise.
    pub fn deposit_callback(&mut self, asset: Asset, qty: u128, result: StepResult) -> (res: Result<
        (),
        AmmError,
    >)
        ensures
            match res {
                Ok(_) => old(self)@.credit_refusal(asset, qty as nat, result) is None && final(self)@ == old(self)@.credited(asset, qty as nat),
                Err(e) => old(self)@.credit_refusal(asset, qty as nat, result) == Some(e) && final(self)@ == old(self)@,
            },
    {
        match self.assert_initialized() {
            Err(e) => { return Err(e); },
            Ok(_) => {},
        }
        match result {
            StepResult::Failed => Err(AmmError::RemoteCallFailure(Step::DepositTransfer)),
            StepResult::Succeeded => match self.reserve(asset).checked_add(qty) {
                Some(sum) => {
                    self.set_reserve(asset, sum);
                    Ok(())
                },
                None => Err(AmmError::InvariantViolation),
            },
        }
    }

    /// `deposit` of asset A.
    pub fn deposit_a(
        &self,
        qty: u128,
        predecessor: &AccountId,
        current_account_id: &AccountId,
        attached_deposit: u128,
    ) -> (res: Result<Action, AmmError>)
        ensures
            match res {
                Ok(action) => self@.deposit_refusal(
                    qty as nat,
                    predecessor@,
                    current_account_id@,
                    attached_deposit as nat,
                ) is None && action@ == self@.deposit_transfer(Asset::A, qty as nat),
                Err(e) => self@.deposit_refusal(
                    qty as nat,
                    predecessor@,
                    current_account_id@,
                    attached_deposit as nat,
                ) == Some(e),
            },
    {
        self.deposit(Asset::A, qty, predecessor, current_account_id, attached_deposit)
    }

    /// `deposit_callback` for asset A.
    pub fn deposit_a_callback(&mut self, qty: u128, result: StepResult) -> (res: Result<
        (),
        AmmError,
    >)
        ensures
            match res {
                Ok(_) => old(self)@.credit_refusal(Asset::A, qty as nat, result) is None && final(self)@ == old(self)@.credited(Asset::A, qty as nat),
                Err(e) => old(self)@.credit_refusal(Asset::A, qty as nat, result) == Some(e)
                    && final(self)@ == old(self)@,
            },
    {
        self.deposit_callback(Asset::A, qty, result)
    }

    /// `deposit` of asset B.
    pub fn deposit_b(
        &self,
        qty: u128,
        predecessor: &AccountId,
        current_account_id: &AccountId,
        attached_deposit: u128,
    ) -> (res: Result<Action, AmmError>)
        ensures
            match res {
                Ok(action) => self@.deposit_refusal(
                    qty as nat,
                    predecessor@,
                    current_account_id@,
                    attached_deposit as nat,
                ) is None && action@ == self@.deposit_transfer(Asset::B, qty as nat),
                Err(e) => self@.deposit_refusal(
                    qty as nat,
                    predecessor@,
                    current_account_id@,
                    attached_deposit as nat,
                ) == Some(e),
            },
    {
        self.deposit(Asset::B, qty, predecessor, current_account_id, attached_deposit)
    }

    /// `deposit_callback` for asset B.
    pub fn deposit_b_callback(&mut self, qty: u128, result: StepResult) -> (res: Result<
        (),
        AmmError,
    >)
        ensures
            match res {
                Ok(_) => old(self)@.credit_refusal(Asset::B, qty as nat, result) is None && final(self)@ == old(self)@.credited(Asset::B, qty as nat),
                Err(e) => old(self)@.credit_refusal(Asset::B, qty as nat, result) == Some(e)
                    && final(self)@ == old(self)@,
            },
    {
        self.deposit_callback(Asset::B, qty, result)
    }

    /// Accepts a swap of `qty` of the asset `source` from `caller`.
    ///
    /// The front must be initialized, hold some of both assets and have no
    /// other swap on its way, and `qty` must be above zero and fit on top
    /// of the reserve. The swap pays what the curve gives for the reserves
    /// as they stand. Until `swap_callback` has settled it, the front
    /// accepts no other swap, so that no two swaps are priced on the same
    /// reserves. No reserve changes here.
    pub fn swap(&mut self, source: Asset, qty: u128, caller: &AccountId) -> (res: Result<
        Swap,
        AmmError,
    >)
        ensures
            match res {
                Ok(swap) => old(self)@.swap_refusal(source, qty as nat) is None && swap@ == old(self)@.swap_accepted(source, qty as nat, caller@) && final(self)@ == old(self)@.locked(),
                Err(e) => old(self)@.swap_refusal(source, qty as nat) == Some(e) && final(self)@
                    == old(self)@,
            },
    {
        match self.assert_initialized() {
            Err(e) => { return Err(e); },
            Ok(_) => {},
        }
        match self.assert_deposited() {
            Err(e) => { return Err(e); },
            Ok(_) => {},
        }
        if qty == 0 {
            return Err(AmmError::PreconditionViolation(Precondition::ZeroQuantity));
        }
        if self.swap_in_flight {
            return Err(AmmError::PreconditionViolation(Precondition::SwapInFlight));
        }
        let src_balance = self.reserve(source);
        if src_balance > u128::MAX - qty {
            return Err(AmmError::InvariantViolation);
        }
        let diff = get_des_diff_from_src_qty(src_balance, qty, self.reserve(source.other()));
        self.swap_in_flight = true;
        Ok(Swap { source, qty, diff, caller: caller.clone(), stage: SwapStage::Requested })
    }

    /// Moves `swap` on by `event` and returns the remote call to make next,
    /// if there is one: the transfer of the source asset into custody when
    /// the swap is dispatched, the payment out of custody when that
    /// transfer is confirmed. A failed step ends the swap and asks for
    /// nothing more.
    pub fn advance_swap(&self, swap: &mut Swap, event: SwapEvent) -> (res: Option<Action>)
        ensures
            final(swap)@ == self@.swap_advanced(old(swap)@, event).0,
            crate::action::optional_action_view(res) == self@.swap_advanced(old(swap)@, event).1,
    {
        let stage = swap.stage.next(event, swap.diff);
        let changed = match (stage, swap.stage) {
            (SwapStage::SourceTransferPending, SwapStage::Requested) => true,
            (SwapStage::DestinationWithdrawPending, SwapStage::SourceTransferPending) => true,
            _ => false,
        };
        swap.stage = stage;
        if !changed {
            return None;
        }
        match stage {
            SwapStage::SourceTransferPending => Some(
                Action::TransferFrom {
                    token: self.token(swap.source).addr.clone(),
                    sender: swap.caller.clone(),
                    receiver: self.wallet.clone(),
                    amount: swap.qty,
                },
            ),
            SwapStage::DestinationWithdrawPending => Some(
                Action::Withdraw {
                    wallet: self.wallet.clone(),
                    asset: swap.source.other(),
                    account: swap.caller.clone(),
                    qty: swap.diff,
                },
            ),
            _ => None,
        }
    }

    /// Settles a swap of `qty` of `source` for `diff` of the other asset
    /// that has come to `stage`.
    ///
    /// Only a reconciled swap is committed: the reserve of `source` rises
    /// by `qty` and the other falls by `diff`, both or neither. A swap
    /// that has failed, or whose quantities the reserves cannot take,
    /// leaves both reserves as they were before it was requested. Either
    /// way the front is free for the next swap. A swap that has not come
    /// to an end, or a call while no swap is on its way or before the front
    /// is initialized, changes nothing.
    pub fn swap_callback(&mut self, source: Asset, qty: u128, diff: u128, stage: SwapStage) -> (res:
        Result<(), AmmError>)
        ensures
            final(self)@ == old(self)@.settled(source, qty as nat, diff as nat, stage),
            match res {
                Ok(_) => old(self)@.settle_refusal(source, qty as nat, diff as nat, stage)
                    is None,
                Err(e) => old(self)@.settle_refusal(source, qty as nat, diff as nat, stage)
                    == Some(e),
            },
            res is Err ==> final(self)@.a.qty == old(self)@.a.qty && final(self)@.b.qty == old(self)@.b.qty,
    {
        match self.assert_initialized() {
            Err(e) => { return Err(e); },
            Ok(_) => {},
        }
        if !self.swap_in_flight {
            return Err(AmmError::PreconditionViolation(Precondition::NoSwapInFlight));
        }
        match stage {
            SwapStage::Reconciled => {
                self.swap_in_flight = false;
                let raised = self.reserve(source).checked_add(qty);
                let lowered = self.reserve(source.other()).checked_sub(diff);
                match (raised, lowered) {
                    (Some(raised), Some(lowered)) => {
                        self.set_reserve(source, raised);
                        self.set_reserve(source.other(), lowered);
                        Ok(())
                    },
                    _ => Err(AmmError::InvariantViolation),
                }
            },
            SwapStage::Failed(step) => {
                self.swap_in_flight = false;
                Err(AmmError::RemoteCallFailure(step))
            },
            _ => Err(AmmError::PreconditionViolation(Precondition::SwapNotSettled)),
        }
    }

    /// `swap` with asset A as the source.
    pub fn swap_a(&mut self, qty: u128, caller: &AccountId) -> (res: Result<Swap, AmmError>)
        ensures
            match res {
                Ok(swap) => old(self)@.swap_refusal(Asset::A, qty as nat) is None && swap@ == old(self)@.swap_accepted(Asset::A, qty as nat, caller@) && final(self)@ == old(self)@.locked(),
                Err(e) => old(self)@.swap_refusal(Asset::A, qty as nat) == Some(e) && final(self)@
                    == old(self)@,
            },
    {
        self.swap(Asset::A, qty, caller)
    }

    /// `swap_callback` for a swap with asset A as the source.
    pub fn swap_a_callback(&mut self, qty: u128, diff: u128, stage: SwapStage) -> (res: Result<
        (),
        AmmError,
    >)
        ensures
            final(self)@ == old(self)@.settled(Asset::A, qty as nat, diff as nat, stage),
            match res {
                Ok(_) => old(self)@.settle_refusal(Asset::A, qty as nat, diff as nat, stage)
                    is None,
                Err(e) => old(self)@.settle_refusal(Asset::A, qty as nat, diff as nat, stage)
                    == Some(e),
            },
    {
        self.swap_callback(Asset::A, qty, diff, stage)
    }

    /// `swap` with asset B as the source.
    pub fn swap_b(&mut self, qty: u128, caller: &AccountId) -> (res: Result<Swap, AmmError>)
        ensures
            match res {
                Ok(swap) => old(self)@.swap_refusal(Asset::B, qty as nat) is None && swap@ == old(self)@.swap_accepted(Asset::B, qty as nat, caller@) && final(self)@ == old(self)@.locked(),
                Err(e) => old(self)@.swap_refusal(Asset::B, qty as nat) == Some(e) && final(self)@
                    == old(self)@,
            },
    {
        self.swap(Asset::B, qty, caller)
    }

    /// `swap_callback` for a swap with asset B as the source.
    pub fn swap_b_callback(&mut self, qty: u128, diff: u128, stage: SwapStage) -> (res: Result<
        (),
        AmmError,
    >)
        ensures
            final(self)@ == old(self)@.settled(Asset::B, qty as nat, diff as nat, stage),
            match res {
                Ok(_) => old(self)@.settle_refusal(Asset::B, qty as nat, diff as nat, stage)
                    is None,
                Err(e) => old(self)@.settle_refusal(Asset::B, qty as nat, diff as nat, stage)
                    == Some(e),
            },
    {
        self.swap_callback(Asset::B, qty, diff, stage)
    }
}

} // verus!
