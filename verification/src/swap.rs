//! The stages of a swap that the front drives.
//!
//! A swap is a chain of two remote steps: the caller's funds move into
//! custody, then the custody engine pays the caller. The chain advances
//! only on a confirmed step, and a failed step ends it.

use crate::account::AccountId;
use crate::action::Asset;
use crate::error::Step;
use vstd::prelude::*;

verus! {

/// Where a swap stands.
#[derive(Clone, Copy, Debug, PartialEq, Eq, Structural)]
pub enum SwapStage {
    /// Accepted by the front; nothing has been sent yet.
    Requested,
    /// The transfer of the source asset into custody is under way.
    SourceTransferPending,
    /// The payment of the destination asset is under way.
    DestinationWithdrawPending,
    /// Both steps are confirmed; the front may commit the change.
    Reconciled,
    /// The named step failed; the front commits nothing.
    Failed(Step),
}

/// What the host reports to a swap.
#[derive(Clone, Copy, Debug, PartialEq, Eq, Structural)]
pub enum SwapEvent {
    /// The host is ready to send the first step.
    Dispatched,
    /// The step under way is confirmed.
    StepSucceeded,
    /// The step under way failed.
    StepFailed,
}

impl SwapStage {
    /// Whether the swap has come to an end.
    pub open spec fn spec_is_final(self) -> bool {
        self is Reconciled || self is Failed
    }

    /// Whether the swap has come to an end.
    #[verifier::when_used_as_spec(spec_is_final)]
    pub fn is_final(self) -> (res: bool)
        ensures
            res == self.spec_is_final(),
    {
        match self {
            SwapStage::Reconciled => true,
            SwapStage::Failed(_) => true,
            _ => false,
        }
    }

    /// The stage that follows on `event`, for a swap that pays `diff`. A
    /// swap that pays nothing is done once the source asset has arrived.
    /// An event that the stage does not wait for changes nothing.
    pub open spec fn spec_next(self, event: SwapEvent, diff: nat) -> SwapStage {
        match (self, event) {
            (SwapStage::Requested, SwapEvent::Dispatched) => SwapStage::SourceTransferPending,
            (SwapStage::SourceTransferPending, SwapEvent::StepSucceeded) => if diff == 0 {
                SwapStage::Reconciled
            } else {
                SwapStage::DestinationWithdrawPending
            },
            (SwapStage::SourceTransferPending, SwapEvent::StepFailed) => SwapStage::Failed(
                Step::SourceTransfer,
            ),
            (SwapStage::DestinationWithdrawPending, SwapEvent::StepSucceeded) => SwapStage::Reconciled,
            (SwapStage::DestinationWithdrawPending, SwapEvent::StepFailed) => SwapStage::Failed(
                Step::DestinationWithdraw,
            ),
            _ => self,
        }
    }

    /// The stage that follows on `event`, for a swap that pays `diff`.
    pub fn next(self, event: SwapEvent, diff: u128) -> (res: SwapStage)
        ensures
            res == self.spec_next(event, diff as nat),
    {
        match self {
            SwapStage::Requested => match event {
                SwapEvent::Dispatched => SwapStage::SourceTransferPending,
                _ => self,
            },
            SwapStage::SourceTransferPending => match event {
                SwapEvent::StepSucceeded => if diff == 0 {
                    SwapStage::Reconciled
                } else {
                    SwapStage::DestinationWithdrawPending
                },
                SwapEvent::StepFailed => SwapStage::Failed(Step::SourceTransfer),
                SwapEvent::Dispatched => self,
            },
            SwapStage::DestinationWithdrawPending => match event {
                SwapEvent::StepSucceeded => SwapStage::Reconciled,
                SwapEvent::StepFailed => SwapStage::Failed(Step::DestinationWithdraw),
                SwapEvent::Dispatched => self,
            },
            _ => self,
        }
    }
}

/// A swap on its way: what was asked, what it pays, and its stage.
#[derive(Debug, PartialEq)]
pub struct Swap {
    pub source: Asset,
    pub qty: u128,
    pub diff: u128,
    pub caller: AccountId,
    pub stage: SwapStage,
}

/// A swap as mathematical values.
pub struct SwapView {
    pub source: Asset,
    pub qty: nat,
    pub diff: nat,
    pub caller: Seq<char>,
    pub stage: SwapStage,
}

impl View for Swap {
    type V = SwapView;

    open spec fn view(&self) -> SwapView {
        SwapView {
            source: self.source,
            qty: self.qty as nat,
            diff: self.diff as nat,
            caller: self.caller@,
            stage: self.stage,
        }
    }
}

/// A final stage is left by no event.
pub proof fn lemma_final_stage_stays(stage: SwapStage, event: SwapEvent, diff: nat)
    requires
        stage.spec_is_final(),
    ensures
        stage.spec_next(event, diff) == stage,
{
}

/// A swap reaches `Reconciled` only over a confirmed step, and never from a
/// failed one.
pub proof fn lemma_reconciled_only_on_success(stage: SwapStage, event: SwapEvent, diff: nat)
    requires
        !(stage is Reconciled),
        stage.spec_next(event, diff) is Reconciled,
    ensures
        event == SwapEvent::StepSucceeded,
        stage is SourceTransferPending || stage is DestinationWithdrawPending,
        stage is SourceTransferPending ==> diff == 0,
{
}

} // verus!
