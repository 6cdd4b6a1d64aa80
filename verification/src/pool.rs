//! The front and its custody engine taken together.
//!
//! Each of the two keeps its own books, and each learns of a transfer by a
//! notice of its own. This module follows an operation through both and
//! states what holds of the pair once the operation has settled.
//!
//! Funds that the front moves into custody, for a deposit or as the first
//! leg of a swap, are announced to the engine with the front as the sender:
//! the front is the one that instructed the asset service.

use crate::action::ActionView;
use crate::action::Asset;
use crate::action::StepResult;
use crate::error::AmmError;
use crate::error::Precondition;
use crate::error::Step;
use crate::front::ContractView;
use crate::front::ONE_YOCTO;
use crate::pricing::lemma_swap_output_at_most_reserve;
use crate::swap::SwapEvent;
use crate::swap::SwapStage;
use crate::swap::SwapView;
use crate::wallet::WalletView;
use vstd::arithmetic::div_mod::lemma_div_pos_is_pos;
use vstd::prelude::*;

verus! {

/// A front and its custody engine.
pub struct Pool {
    pub front: ContractView,
    pub wallet: WalletView,
}

/// An operation that enters the pool through the front.
pub enum Operation {
    /// The operator deposits `qty` of `asset`.
    Deposit { asset: Asset, qty: nat },
    /// `caller` swaps `qty` of `source` for the other asset.
    Swap { source: Asset, qty: nat, caller: Seq<char> },
}

impl Pool {
    /// The two components belong together: the front is open and at rest,
    /// the engine keeps the front's two assets, and these are two
    /// different assets.
    pub open spec fn well_formed(self) -> bool {
        &&& self.front.initialized
        &&& !self.front.swap_in_flight
        &&& self.wallet.a == self.front.a.addr
        &&& self.wallet.b == self.front.b.addr
        &&& self.wallet.a != self.wallet.b
    }

    /// The front believes of each asset exactly what the engine holds.
    pub open spec fn converged(self) -> bool {
        &&& self.front.a.qty == self.wallet.a_balance
        &&& self.front.b.qty == self.wallet.b_balance
    }

    /// Every quantity of the pool fits in 128 bits.
    pub open spec fn bounded(self) -> bool {
        &&& self.front.a.qty <= u128::MAX
        &&& self.front.b.qty <= u128::MAX
        &&& self.wallet.a_balance <= u128::MAX
        &&& self.wallet.b_balance <= u128::MAX
        &&& self.wallet.k <= u128::MAX
    }

    /// The engine after the front has moved `qty` of `asset` into custody,
    /// if the engine accepts the receipt.
    pub open spec fn custody_credited(self, asset: Asset, qty: nat) -> Option<WalletView> {
        match self.wallet.receive(self.front.token(asset).addr, self.wallet.owner, qty) {
            Ok((wallet, _)) => Some(wallet),
            Err(_) => None,
        }
    }

    /// The engine `wallet` after it has paid `qty` of `asset` to `account`
    /// at the front's request, if it accepts the request.
    pub open spec fn custody_paid(wallet: WalletView, asset: Asset, account: Seq<char>, qty: nat)
        -> Option<WalletView> {
        if wallet.withdraw(asset, wallet.owner, account, qty) is Ok {
            match wallet.transfer_back(asset, qty, StepResult::Succeeded) {
                Ok(paid) => Some(paid),
                Err(_) => None,
            }
        } else {
            None
        }
    }

    /// The pool after a deposit of `qty` of `asset` in which every step has
    /// succeeded; nothing where a step is refused.
    pub open spec fn deposited(self, asset: Asset, qty: nat) -> Option<Pool> {
        if self.front.deposit_refusal(qty, self.wallet.owner, self.wallet.owner, ONE_YOCTO as nat)
            is Some {
            None
        } else if self.front.credit_refusal(asset, qty, StepResult::Succeeded) is Some {
            None
        } else {
            match self.custody_credited(asset, qty) {
                Some(wallet) => Some(Pool { front: self.front.credited(asset, qty), wallet }),
                None => None,
            }
        }
    }

    /// The swap of `qty` of `source` from `caller` after the events
    /// `events` have come in, one after the other.
    pub open spec fn swap_after(
        self,
        source: Asset,
        qty: nat,
        caller: Seq<char>,
        events: Seq<SwapEvent>,
    ) -> SwapView
        decreases events.len(),
    {
        if events.len() == 0 {
            self.front.swap_accepted(source, qty, caller)
        } else {
            self.front.locked().swap_advanced(
                self.swap_after(source, qty, caller, events.drop_last()),
                events.last(),
            ).0
        }
    }

    /// The pool after a swap of `qty` of `source` from `caller` in which
    /// every step has succeeded; nothing where a step is refused.
    pub open spec fn swapped(self, source: Asset, qty: nat, caller: Seq<char>) -> Option<Pool> {
        let swap = self.front.swap_accepted(source, qty, caller);
        let target = source.spec_other();
        if self.front.swap_refusal(source, qty) is Some {
            None
        } else if self.front.locked().settle_refusal(source, qty, swap.diff, SwapStage::Reconciled)
            is Some {
            None
        } else {
            match self.custody_credited(source, qty) {
                Some(credited) => {
                    let front = self.front.locked().settled(
                        source,
                        qty,
                        swap.diff,
                        SwapStage::Reconciled,
                    );
                    if swap.diff == 0 {
                        Some(Pool { front, wallet: credited })
                    } else {
                        match Pool::custody_paid(credited, target, caller, swap.diff) {
                            Some(wallet) => Some(Pool { front, wallet }),
                            None => None,
                        }
                    }
                },
                None => None,
            }
        }
    }

    /// The pool after the same swap where the engine learns of the arrival
    /// of the source asset only after it has paid: the two notices of one
    /// transfer come in no fixed order.
    pub open spec fn swapped_notice_last(self, source: Asset, qty: nat, caller: Seq<char>)
        -> Option<Pool> {
        let swap = self.front.swap_accepted(source, qty, caller);
        let target = source.spec_other();
        let front = self.front.locked().settled(source, qty, swap.diff, SwapStage::Reconciled);
        if self.front.swap_refusal(source, qty) is Some {
            None
        } else if self.front.locked().settle_refusal(source, qty, swap.diff, SwapStage::Reconciled)
            is Some {
            None
        } else if swap.diff == 0 {
            match self.custody_credited(source, qty) {
                Some(wallet) => Some(Pool { front, wallet }),
                None => None,
            }
        } else {
            match Pool::custody_paid(self.wallet, target, caller, swap.diff) {
                Some(paid) => match (Pool { front: self.front, wallet: paid }).custody_credited(
                    source,
                    qty,
                ) {
                    Some(wallet) => Some(Pool { front, wallet }),
                    None => None,
                },
                None => None,
            }
        }
    }

    /// The pool after `op`, if every step of it has succeeded.
    pub open spec fn applied(self, op: Operation) -> Option<Pool> {
        match op {
            Operation::Deposit { asset, qty } => self.deposited(asset, qty),
            Operation::Swap { source, qty, caller } => self.swapped(source, qty, caller),
        }
    }

    /// The pool after the operations `ops`, one after the other, if every
    /// step of every one has succeeded.
    pub open spec fn run(self, ops: Seq<Operation>) -> Option<Pool>
        decreases ops.len(),
    {
        if ops.len() == 0 {
            Some(self)
        } else {
            match self.run(ops.drop_last()) {
                Some(pool) => pool.applied(ops.last()),
                None => None,
            }
        }
    }
}

/// The events of a swap in which every step is confirmed.
pub open spec fn confirmed_events(diff: nat) -> Seq<SwapEvent> {
    if diff == 0 {
        seq![SwapEvent::Dispatched, SwapEvent::StepSucceeded]
    } else {
        seq![SwapEvent::Dispatched, SwapEvent::StepSucceeded, SwapEvent::StepSucceeded]
    }
}

/// A swap whose steps are all confirmed comes to `Reconciled`, and on the
/// way the front asks for the very transfers that `Pool::swapped` follows
/// into custody: `qty` of the source asset in, then `diff` of the other
/// asset out to the caller, if `diff` is not zero.
pub proof fn lemma_confirmed_swap_reconciles(
    pool: Pool,
    source: Asset,
    qty: nat,
    caller: Seq<char>,
)
    ensures
        ({
            let swap = pool.front.swap_accepted(source, qty, caller);
            let front = pool.front.locked();
            let sent = front.swap_advanced(swap, SwapEvent::Dispatched);
            let arrived = front.swap_advanced(sent.0, SwapEvent::StepSucceeded);
            let paid = front.swap_advanced(arrived.0, SwapEvent::StepSucceeded);
            &&& sent.1 == Some(
                ActionView::TransferFrom {
                    token: pool.front.token(source).addr,
                    sender: caller,
                    receiver: pool.front.wallet,
                    amount: qty,
                },
            )
            &&& swap.diff == 0 ==> arrived.0.stage == SwapStage::Reconciled && arrived.1 is None
            &&& swap.diff != 0 ==> arrived.1 == Some(
                ActionView::Withdraw {
                    wallet: pool.front.wallet,
                    asset: source.spec_other(),
                    account: caller,
                    qty: swap.diff,
                },
            ) && paid.0.stage == SwapStage::Reconciled && paid.1 is None
            &&& pool.swap_after(source, qty, caller, confirmed_events(swap.diff)).stage
                == SwapStage::Reconciled
        }),
{
    let swap = pool.front.swap_accepted(source, qty, caller);
    let events = confirmed_events(swap.diff);
    reveal_with_fuel(Pool::swap_after, 4);
    if swap.diff == 0 {
        assert(events.drop_last() =~= seq![SwapEvent::Dispatched]);
        assert(events.drop_last().drop_last() =~= Seq::<SwapEvent>::empty());
    } else {
        assert(events.drop_last() =~= seq![SwapEvent::Dispatched, SwapEvent::StepSucceeded]);
        assert(events.drop_last().drop_last() =~= seq![SwapEvent::Dispatched]);
        assert(events.drop_last().drop_last().drop_last() =~= Seq::<SwapEvent>::empty());
    }
}

/// One operation in which every step has succeeded takes a pool whose
/// front believes what the engine holds to another such pool.
pub proof fn lemma_operation_conserves(pool: Pool, op: Operation)
    requires
        pool.well_formed(),
        pool.converged(),
        pool.bounded(),
        pool.applied(op) is Some,
    ensures
        pool.applied(op)->Some_0.well_formed(),
        pool.applied(op)->Some_0.converged(),
        pool.applied(op)->Some_0.bounded(),
{
    match op {
        Operation::Deposit { asset, qty } => {},
        Operation::Swap { source, qty, caller } => {
            lemma_swap_output_at_most_reserve(
                pool.front.reserve(source),
                qty,
                pool.front.reserve(source.spec_other()),
            );
        },
    }
}

/// The order of the two notices does not matter to the balances: a swap
/// whose arrival the engine learns of last leaves the same reserves and the
/// same balances as one whose arrival it learns of first. In that order `k`
/// comes out as the product of the two reserves after the swap.
pub proof fn lemma_notice_order_is_immaterial(
    pool: Pool,
    source: Asset,
    qty: nat,
    caller: Seq<char>,
)
    requires
        pool.well_formed(),
        pool.converged(),
        pool.bounded(),
        pool.swapped_notice_last(source, qty, caller) is Some,
    ensures
        ({
            let late = pool.swapped_notice_last(source, qty, caller)->Some_0;
            &&& late.well_formed()
            &&& late.converged()
            &&& late.bounded()
            &&& late.wallet.k == late.front.a.qty * late.front.b.qty
            &&& pool.swapped(source, qty, caller) matches Some(early) ==> early.front
                == late.front && early.wallet.a_balance == late.wallet.a_balance
                && early.wallet.b_balance == late.wallet.b_balance
        }),
{
    lemma_swap_output_at_most_reserve(
        pool.front.reserve(source),
        qty,
        pool.front.reserve(source.spec_other()),
    );
}

/// Conservation: after any sequence of deposits and swaps in which every
/// step has succeeded, the front's reserve of each asset is the engine's
/// balance of it.
pub proof fn lemma_conservation(pool: Pool, ops: Seq<Operation>)
    requires
        pool.well_formed(),
        pool.converged(),
        pool.bounded(),
        pool.run(ops) is Some,
    ensures
        pool.run(ops)->Some_0.well_formed(),
        pool.run(ops)->Some_0.converged(),
        pool.run(ops)->Some_0.bounded(),
    decreases ops.len(),
{
    if ops.len() > 0 {
        lemma_conservation(pool, ops.drop_last());
        lemma_operation_conserves(pool.run(ops.drop_last())->Some_0, ops.last());
    }
}

/// A front that has just been initialized and an engine that has just been
/// set up for it form a pool to which `lemma_conservation` applies.
pub proof fn lemma_new_pool_converged(
    current: Seq<char>,
    a: Seq<char>,
    b: Seq<char>,
    wallet: Seq<char>,
)
    requires
        a != b,
    ensures
        ({
            let pool = Pool {
                front: ContractView::fresh(current).init_started(a, b).init_completed(wallet),
                wallet: WalletView::fresh(a, b, current),
            };
            pool.well_formed() && pool.converged() && pool.bounded()
        }),
{
}

/// After a deposit in which every step has succeeded, the product of the
/// front's two reserves is the engine's `k`.
pub proof fn lemma_deposit_reconverges_k(pool: Pool, asset: Asset, qty: nat)
    requires
        pool.well_formed(),
        pool.converged(),
        pool.deposited(asset, qty) is Some,
    ensures
        ({
            let after = pool.deposited(asset, qty)->Some_0;
            after.wallet.k == after.front.a.qty * after.front.b.qty
        }),
{
}

/// Initialization happens once: a front that has completed it refuses to
/// start another, to provision another custody engine and to complete
/// another, whatever the arguments, and so stays as it is.
pub proof fn lemma_init_happens_once(
    front: ContractView,
    a: Seq<char>,
    b: Seq<char>,
    current: Seq<char>,
    salt: nat,
    wallet: Seq<char>,
    metadata_a: StepResult,
    metadata_b: StepResult,
    provisioned: StepResult,
)
    ensures
        ({
            let refused = Some(AmmError::PreconditionViolation(Precondition::AlreadyInitialized));
            let opened = front.init_completed(wallet);
            &&& opened.initialized
            &&& opened.init_refusal(a, b, current, salt) == refused
            &&& opened.provisioning_refusal(current, salt) == refused
            &&& opened.completion_refusal(metadata_a, metadata_b, provisioned) == refused
        }),
{
}

/// The accounts of an initialized front are fixed: neither a deposit nor a
/// swap, in any stage and with any outcome, nor metadata that arrives late
/// changes the two assets, the custody engine or the fact that the front is
/// initialized.
pub proof fn lemma_front_identities_are_fixed(
    front: ContractView,
    asset: Asset,
    qty: nat,
    diff: nat,
    stage: SwapStage,
    addr: Seq<char>,
    meta: crate::metadata::TokenMetadataView,
)
    requires
        front.initialized,
    ensures
        same_identities(front.credited(asset, qty), front),
        same_identities(front.locked(), front),
        same_identities(front.settled(asset, qty, diff, stage), front),
        same_identities(front.with_metadata(addr, meta), front),
{
}

/// Whether two states of a front name the same assets and the same custody
/// engine and are both initialized or both not.
pub open spec fn same_identities(one: ContractView, other: ContractView) -> bool {
    &&& one.a.addr == other.a.addr
    &&& one.b.addr == other.b.addr
    &&& one.wallet == other.wallet
    &&& one.initialized == other.initialized
}

/// The assets and the owner of a custody engine are fixed: no receipt and
/// no transfer out of custody changes them.
pub proof fn lemma_wallet_identities_are_fixed(
    wallet: WalletView,
    token: Seq<char>,
    sender: Seq<char>,
    asset: Asset,
    amount: nat,
    result: StepResult,
)
    ensures
        wallet.receive(token, sender, amount) matches Ok(after) ==> after.0.a == wallet.a
            && after.0.b == wallet.b && after.0.owner == wallet.owner,
        wallet.transfer_back(asset, amount, result) matches Ok(after) ==> after.a == wallet.a
            && after.b == wallet.b && after.owner == wallet.owner,
{
}

/// A swap that fails leaves the front exactly as it was before the swap
/// was requested, whichever step has failed.
pub proof fn lemma_failed_swap_leaves_front(
    front: ContractView,
    source: Asset,
    qty: nat,
    caller: Seq<char>,
    step: Step,
)
    requires
        front.swap_refusal(source, qty) is None,
    ensures
        ({
            let swap = front.swap_accepted(source, qty, caller);
            &&& front.locked().settle_refusal(source, qty, swap.diff, SwapStage::Failed(step))
                == Some(AmmError::RemoteCallFailure(step))
            &&& front.locked().settled(source, qty, swap.diff, SwapStage::Failed(step)) == front
        }),
{
}

/// A swap whose second step fails ends in `Failed`, and no event leads it
/// on from there.
pub proof fn lemma_failed_withdraw_ends_swap(
    front: ContractView,
    source: Asset,
    qty: nat,
    caller: Seq<char>,
    later: SwapEvent,
)
    requires
        front.swap_accepted(source, qty, caller).diff != 0,
    ensures
        ({
            let swap = front.swap_accepted(source, qty, caller);
            let sent = front.swap_advanced(swap, SwapEvent::Dispatched).0;
            let arrived = front.swap_advanced(sent, SwapEvent::StepSucceeded).0;
            let failed = front.swap_advanced(arrived, SwapEvent::StepFailed);
            &&& failed.0.stage == SwapStage::Failed(Step::DestinationWithdraw)
            &&& failed.1 is None
            &&& front.swap_advanced(failed.0, later) == (failed.0, None::<ActionView>)
        }),
{
}

/// A payment out of custody that fails leaves the engine exactly as it
/// was when the payment was asked for: the request changes nothing, and
/// the failure is debited nowhere.
///
/// If the engine has not yet learned of the arrival of the source asset,
/// it is therefore exactly as it was before the swap was requested. If it
/// has, the balance of the asset to be paid is as it was before the swap,
/// and the balance of the source asset holds, on top, the quantity that
/// arrived in the first step: those funds are in custody.
pub proof fn lemma_failed_withdraw_leaves_wallet(
    pool: Pool,
    source: Asset,
    qty: nat,
    caller: Seq<char>,
)
    requires
        pool.well_formed(),
        pool.custody_credited(source, qty) is Some,
    ensures
        ({
            let credited = pool.custody_credited(source, qty)->Some_0;
            let target = source.spec_other();
            let diff = pool.front.swap_accepted(source, qty, caller).diff;
            let failed = Err::<WalletView, AmmError>(AmmError::RemoteCallFailure(Step::Refund));
            &&& pool.wallet.transfer_back(target, diff, StepResult::Failed) == failed
            &&& credited.transfer_back(target, diff, StepResult::Failed) == failed
            &&& credited.balance(target) == pool.wallet.balance(target)
            &&& credited.balance(source) == pool.wallet.balance(source) + qty
        }),
{
}

/// No reserve of the front is ever clamped: a swap is committed only if
/// the reserve of the asset paid covers `diff`, and then it falls by
/// exactly `diff` while the other rises by exactly `qty`; in every other
/// case both reserves stay as they are.
pub proof fn lemma_front_never_clamps(
    front: ContractView,
    source: Asset,
    qty: nat,
    diff: nat,
    stage: SwapStage,
)
    ensures
        ({
            let target = source.spec_other();
            let after = front.settled(source, qty, diff, stage);
            if front.settle_refusal(source, qty, diff, stage) is None {
                &&& diff <= front.reserve(target)
                &&& after.reserve(target) + diff == front.reserve(target)
                &&& after.reserve(source) == front.reserve(source) + qty
                &&& after.reserve(source) <= u128::MAX
            } else {
                &&& after.reserve(target) == front.reserve(target)
                &&& after.reserve(source) == front.reserve(source)
            }
        }),
        front.initialized && front.swap_in_flight && stage == SwapStage::Reconciled && diff
            > front.reserve(
            source.spec_other(),
        ) ==> front.settle_refusal(source, qty, diff, stage) == Some(AmmError::InvariantViolation),
{
}

/// No balance of the engine is ever clamped: a confirmed transfer out of
/// custody is debited only if the balance covers it, and then the balance
/// falls by exactly the amount. What a counterparty gets back is never
/// more than the engine holds of that asset.
pub proof fn lemma_wallet_never_clamps(
    wallet: WalletView,
    asset: Asset,
    amount: nat,
    credited: nat,
)
    ensures
        amount > wallet.balance(asset) ==> wallet.transfer_back(
            asset,
            amount,
            StepResult::Succeeded,
        ) == Err::<WalletView, AmmError>(AmmError::InvariantViolation),
        wallet.transfer_back(asset, amount, StepResult::Succeeded) matches Ok(after)
            ==> after.balance(asset) + amount == wallet.balance(asset) && after.balance(
            asset.spec_other(),
        ) == wallet.balance(asset.spec_other()) && after.k == wallet.k,
        credited > 0 ==> wallet.refund(asset, credited) <= wallet.balance(asset.spec_other()),
{
    if credited > 0 {
        lemma_div_pos_is_pos(wallet.k as int, credited as int);
    }
}

/// A deposit of the owner sets `k` to the product of the two balances as
/// they stand after it, whatever `k` was before.
pub proof fn lemma_owner_deposit_sets_k(wallet: WalletView, token: Seq<char>, amount: nat)
    requires
        wallet.asset_of(token) is Some,
        wallet.receive(token, wallet.owner, amount) is Ok,
    ensures
        ({
            let after = wallet.receive(token, wallet.owner, amount)->Ok_0.0;
            &&& after.k == after.a_balance * after.b_balance
            &&& after.balance(wallet.asset_of(token)->Some_0) == wallet.balance(
                wallet.asset_of(token)->Some_0,
            ) + amount
        }),
{
}

/// A swap of a counterparty never changes `k`.
pub proof fn lemma_counterparty_keeps_k(
    wallet: WalletView,
    token: Seq<char>,
    sender: Seq<char>,
    amount: nat,
)
    requires
        sender != wallet.owner,
        wallet.receive(token, sender, amount) is Ok,
    ensures
        wallet.receive(token, sender, amount)->Ok_0.0.k == wallet.k,
{
}

} // verus!
