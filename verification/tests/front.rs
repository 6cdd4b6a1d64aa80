use amm::account::AccountId;
use amm::action::Action;
use amm::action::Asset;
use amm::action::Memo;
use amm::action::PromiseResult;
use amm::action::StepResult;
use amm::error::AmmError;
use amm::error::Precondition;
use amm::error::Step;
use amm::front::first_provisioning_failure;
use amm::front::Contract;
use amm::front::Token;
use amm::front::CALLBACK_GAS;
use amm::front::INITIAL_BALANCE;
use amm::metadata::read_metadata;
use amm::metadata::TokenMetadata;
use amm::swap::Swap;
use amm::swap::SwapEvent;
use amm::swap::SwapStage;

const OK: StepResult = StepResult::Succeeded;
const FAILED: StepResult = StepResult::Failed;

fn id(text: &str) -> AccountId {
    AccountId::new_unchecked(text.to_string())
}

fn opened_front() -> Contract {
    let mut front = Contract::default(id("amm.near"));
    front.init("ft1.near".to_string(), "ft2.near".to_string(), &id("amm.near"), 42).unwrap();
    front.init_done(id("wallet_42.amm.near"), OK, OK, OK).unwrap();
    front
}

fn funded_front() -> Contract {
    let mut front = opened_front();
    front.deposit_a_callback(1000, OK).unwrap();
    front.deposit_b_callback(1000, OK).unwrap();
    front
}

fn reserves(front: &Contract) -> (u128, u128) {
    (front.a().qty(), front.b().qty())
}

fn metadata_json(name: &str, symbol: &str, decimals: u8) -> Vec<u8> {
    format!(
        "{{\"spec\":\"ft-1.0.0\",\"name\":\"{}\",\"symbol\":\"{}\",\"icon\":null,\"reference\":null,\"reference_hash\":null,\"decimals\":{}}}",
        name, symbol, decimals
    )
    .into_bytes()
}

#[test]
fn constants_of_the_front() {
    assert_eq!(CALLBACK_GAS, 5_000_000_000_000);
    assert_eq!(INITIAL_BALANCE, 100_000_000_000_000_000_000_000_000);
}

#[test]
fn fresh_front_is_closed() {
    let front = Contract::default(id("amm.near"));
    assert!(!front.initialized());
    assert!(!front.swap_in_flight());
    assert_eq!(front.a().addr().as_str(), "amm.near");
    assert_eq!(front.b().addr().as_str(), "amm.near");
    assert_eq!(front.wallet().as_str(), "amm.near");
    assert_eq!(reserves(&front), (0, 0));
    assert_eq!(front.a().meta(), &None);
    assert_eq!(
        front.assert_initialized(),
        Err(AmmError::PreconditionViolation(Precondition::NotInitialized))
    );
}

#[test]
fn init_returns_the_remote_calls() {
    let mut front = Contract::default(id("amm.near"));
    let plan =
        front.init("ft1.near".to_string(), "ft2.near".to_string(), &id("amm.near"), 42).unwrap();
    assert_eq!(
        plan,
        vec![
            Action::FetchMetadata { token: id("ft1.near") },
            Action::FetchMetadata { token: id("ft2.near") },
            Action::CreateWallet { wallet: id("wallet_42.amm.near"), balance: INITIAL_BALANCE },
            Action::InitWallet {
                wallet: id("wallet_42.amm.near"),
                a: id("ft1.near"),
                b: id("ft2.near"),
            },
            Action::Register { token: id("ft1.near"), account: id("amm.near") },
            Action::Register { token: id("ft1.near"), account: id("wallet_42.amm.near") },
            Action::Register { token: id("ft2.near"), account: id("amm.near") },
            Action::Register { token: id("ft2.near"), account: id("wallet_42.amm.near") },
        ]
    );
    assert_eq!(front.a().addr().as_str(), "ft1.near");
    assert_eq!(front.b().addr().as_str(), "ft2.near");
    assert_eq!(front.wallet().as_str(), "amm.near");
    assert!(!front.initialized());
}

#[test]
fn init_refuses_malformed_accounts() {
    let mut front = Contract::default(id("amm.near"));
    let refused = Err(AmmError::PreconditionViolation(Precondition::InvalidAccount));
    assert_eq!(front.init("FT1.near".to_string(), "ft2.near".to_string(), &id("amm.near"), 1), refused);
    assert_eq!(front.init("ft1.near".to_string(), "ft2..near".to_string(), &id("amm.near"), 1), refused);
    let long = id("a123456789.b123456789.c123456789.d123456789.e123456789.near");
    assert_eq!(front.init("ft1.near".to_string(), "ft2.near".to_string(), &long, 1), refused);
    assert_eq!(front.a().addr().as_str(), "amm.near");
    assert_eq!(front.b().addr().as_str(), "amm.near");
}

#[test]
fn init_done_opens_the_front() {
    let front = opened_front();
    assert!(front.initialized());
    assert_eq!(front.wallet().as_str(), "wallet_42.amm.near");
    assert_eq!(front.assert_initialized(), Ok(()));
    assert_eq!(reserves(&front), (0, 0));
}

#[test]
fn init_twice_is_refused() {
    let mut front = funded_front();
    let refused = AmmError::PreconditionViolation(Precondition::AlreadyInitialized);
    assert_eq!(
        front.init("ft3.near".to_string(), "ft4.near".to_string(), &id("amm.near"), 43),
        Err(refused)
    );
    assert_eq!(
        front.create_wallet(id("ft3.near"), id("ft4.near"), &id("amm.near"), 43),
        Err(refused)
    );
    assert_eq!(front.init_done(id("wallet_43.amm.near"), OK, OK, OK), Err(refused));
    assert_eq!(front.a().addr().as_str(), "ft1.near");
    assert_eq!(front.b().addr().as_str(), "ft2.near");
    assert_eq!(front.wallet().as_str(), "wallet_42.amm.near");
    assert_eq!(reserves(&front), (1000, 1000));
    assert!(front.initialized());
}

#[test]
fn failed_init_may_be_tried_again() {
    let mut front = Contract::default(id("amm.near"));
    front.init("ft1.near".to_string(), "ft2.near".to_string(), &id("amm.near"), 1).unwrap();
    assert_eq!(
        front.init_done(id("wallet_1.amm.near"), OK, FAILED, OK),
        Err(AmmError::RemoteCallFailure(Step::Metadata))
    );
    assert_eq!(
        front.init_done(id("wallet_1.amm.near"), FAILED, OK, OK),
        Err(AmmError::RemoteCallFailure(Step::Metadata))
    );
    assert_eq!(
        front.init_done(id("wallet_1.amm.near"), OK, OK, FAILED),
        Err(AmmError::RemoteCallFailure(Step::WalletCreation))
    );
    assert!(!front.initialized());
    assert_eq!(front.wallet().as_str(), "amm.near");
    front.init("ft3.near".to_string(), "ft4.near".to_string(), &id("amm.near"), 2).unwrap();
    assert_eq!(front.init_done(id("wallet_2.amm.near"), OK, OK, OK), Ok(()));
    assert!(front.initialized());
    assert_eq!(front.a().addr().as_str(), "ft3.near");
    assert_eq!(front.wallet().as_str(), "wallet_2.amm.near");
}

#[test]
fn provisioning_names_the_first_failed_step() {
    assert_eq!(first_provisioning_failure(&vec![OK, OK, OK, OK, OK, OK]), None);
    assert_eq!(first_provisioning_failure(&vec![OK, OK, OK, OK, OK, OK, FAILED]), None);
    assert_eq!(
        first_provisioning_failure(&vec![FAILED, FAILED, OK, OK, OK, OK]),
        Some(Step::WalletCreation)
    );
    assert_eq!(
        first_provisioning_failure(&vec![OK, FAILED, OK, OK, OK, FAILED]),
        Some(Step::WalletInit)
    );
    assert_eq!(
        first_provisioning_failure(&vec![OK, OK, OK, OK, OK, FAILED]),
        Some(Step::Registration)
    );
    assert_eq!(first_provisioning_failure(&vec![OK, OK, OK]), Some(Step::Registration));
    assert_eq!(first_provisioning_failure(&vec![OK]), Some(Step::WalletInit));
    assert_eq!(first_provisioning_failure(&vec![]), Some(Step::WalletCreation));
}

#[test]
fn create_wallet_callback_judges_the_provisioning() {
    let front = Contract::default(id("amm.near"));
    assert_eq!(
        front.create_wallet_callback(id("wallet_1.amm.near"), &vec![OK, OK, OK, OK, OK, OK]),
        Ok(id("wallet_1.amm.near"))
    );
    assert_eq!(
        front.create_wallet_callback(id("wallet_1.amm.near"), &vec![OK, OK, OK, FAILED, OK, OK]),
        Err(AmmError::RemoteCallFailure(Step::Registration))
    );
}

#[test]
fn metadata_is_read_and_noted() {
    let mut front = Contract::default(id("amm.near"));
    front.init("ft1.near".to_string(), "ft2.near".to_string(), &id("amm.near"), 1).unwrap();
    assert_eq!(
        front.solve_token_metadata(id("ft1.near")),
        Action::FetchMetadata { token: id("ft1.near") }
    );
    assert_eq!(
        front.solve_token_metadata_callback(
            id("ft2.near"),
            PromiseResult::Successful(metadata_json("Second", "SND", 18))
        ),
        Ok(())
    );
    assert_eq!(front.a().meta(), &None);
    assert_eq!(
        front.b().meta(),
        &Some(TokenMetadata { name: "Second".to_string(), symbol: "SND".to_string(), decimals: 18 })
    );
    assert_eq!(
        front.solve_token_metadata_callback(
            id("ft1.near"),
            PromiseResult::Successful(metadata_json("First", "FST", 6))
        ),
        Ok(())
    );
    assert_eq!(
        front.a().meta(),
        &Some(TokenMetadata { name: "First".to_string(), symbol: "FST".to_string(), decimals: 6 })
    );
}

#[test]
fn metadata_that_cannot_be_read_is_refused() {
    let mut front = Contract::default(id("amm.near"));
    front.init("ft1.near".to_string(), "ft2.near".to_string(), &id("amm.near"), 1).unwrap();
    assert_eq!(read_metadata(&b"not json".to_vec()), None);
    assert_eq!(read_metadata(&b"{\"name\":\"x\"}".to_vec()), None);
    assert_eq!(
        front.solve_token_metadata_callback(
            id("ft1.near"),
            PromiseResult::Successful(b"{\"name\": 5}".to_vec())
        ),
        Err(AmmError::MalformedRemoteResponse)
    );
    assert_eq!(
        front.solve_token_metadata_callback(id("ft1.near"), PromiseResult::Failed),
        Err(AmmError::RemoteCallFailure(Step::Metadata))
    );
    assert_eq!(
        front.solve_token_metadata_callback(
            id("ft9.near"),
            PromiseResult::Successful(metadata_json("Ninth", "NTH", 2))
        ),
        Err(AmmError::PreconditionViolation(Precondition::UnknownAsset))
    );
    assert_eq!(front.set_token_metadata(&id("ft1.near"), None), Err(AmmError::MalformedRemoteResponse));
    assert_eq!(front.a().meta(), &None);
    assert_eq!(front.b().meta(), &None);
}

#[test]
fn deposit_asks_for_the_transfer() {
    let front = opened_front();
    assert_eq!(
        front.deposit_a(1000, &id("amm.near"), &id("amm.near"), 1),
        Ok(Action::Transfer {
            token: id("ft1.near"),
            receiver: id("wallet_42.amm.near"),
            amount: 1000,
            memo: Memo::Deposit,
        })
    );
    assert_eq!(
        front.deposit_b(7, &id("amm.near"), &id("amm.near"), 1),
        Ok(Action::Transfer {
            token: id("ft2.near"),
            receiver: id("wallet_42.amm.near"),
            amount: 7,
            memo: Memo::Deposit,
        })
    );
    assert_eq!(Memo::Deposit.text(), "deposit from amm contract");
    assert_eq!(reserves(&front), (0, 0));
}

#[test]
fn deposit_checks_its_caller() {
    let closed = Contract::default(id("amm.near"));
    assert_eq!(
        closed.deposit_a(1000, &id("amm.near"), &id("amm.near"), 1),
        Err(AmmError::PreconditionViolation(Precondition::NotInitialized))
    );
    let front = opened_front();
    assert_eq!(
        front.deposit_a(1000, &id("user.near"), &id("amm.near"), 1),
        Err(AmmError::PreconditionViolation(Precondition::Unauthorized))
    );
    assert_eq!(
        front.deposit_b(1000, &id("amm.near"), &id("amm.near"), 0),
        Err(AmmError::PreconditionViolation(Precondition::MissingPayment))
    );
    assert_eq!(
        front.deposit_b(1000, &id("amm.near"), &id("amm.near"), 2),
        Err(AmmError::PreconditionViolation(Precondition::MissingPayment))
    );
    assert_eq!(
        front.deposit(Asset::A, 0, &id("amm.near"), &id("amm.near"), 1),
        Err(AmmError::PreconditionViolation(Precondition::ZeroQuantity))
    );
}

#[test]
fn deposit_is_credited_after_confirmation_only() {
    let mut front = opened_front();
    assert_eq!(
        front.deposit_a_callback(1000, FAILED),
        Err(AmmError::RemoteCallFailure(Step::DepositTransfer))
    );
    assert_eq!(reserves(&front), (0, 0));
    assert_eq!(front.deposit_a_callback(1000, OK), Ok(()));
    assert_eq!(reserves(&front), (1000, 0));
    assert_eq!(front.deposit_b_callback(250, OK), Ok(()));
    assert_eq!(front.deposit_callback(Asset::B, 750, OK), Ok(()));
    assert_eq!(reserves(&front), (1000, 1000));
    assert_eq!(front.reserve(Asset::B), 1000);
}

#[test]
fn callbacks_before_initialization_are_refused() {
    let refused = Err(AmmError::PreconditionViolation(Precondition::NotInitialized));
    let mut front = Contract::default(id("amm.near"));
    assert_eq!(front.deposit_a_callback(5, OK), refused);
    assert_eq!(front.deposit_b_callback(5, FAILED), refused);
    assert_eq!(front.swap_a_callback(5, 0, SwapStage::Reconciled), refused);
    let mut locked = Contract::from_parts(
        Token::new(id("ft1.near"), None, 5),
        Token::new(id("ft2.near"), None, 6),
        id("wallet.near"),
        false,
        true,
    );
    assert_eq!(locked.swap_b_callback(1, 1, SwapStage::Reconciled), refused);
    assert_eq!(locked.swap_b_callback(1, 1, SwapStage::Failed(Step::SourceTransfer)), refused);
    assert!(locked.swap_in_flight());
    assert_eq!(reserves(&locked), (5, 6));
    assert_eq!(reserves(&front), (0, 0));
}

#[test]
fn deposit_beyond_128_bits_is_refused() {
    let mut front = opened_front();
    front.deposit_a_callback(u128::MAX, OK).unwrap();
    assert_eq!(front.deposit_a_callback(1, OK), Err(AmmError::InvariantViolation));
    assert_eq!(reserves(&front), (u128::MAX, 0));
}

#[test]
fn swap_is_priced_on_the_reserves() {
    let mut front = funded_front();
    let swap = front.swap_a(200, &id("user.near")).unwrap();
    assert_eq!(
        swap,
        Swap {
            source: Asset::A,
            qty: 200,
            diff: 166,
            caller: id("user.near"),
            stage: SwapStage::Requested,
        }
    );
    assert!(front.swap_in_flight());
    assert_eq!(reserves(&front), (1000, 1000));
}

#[test]
fn swap_checks_the_front_and_the_quantity() {
    let mut closed = Contract::default(id("amm.near"));
    assert_eq!(
        closed.swap_a(200, &id("user.near")),
        Err(AmmError::PreconditionViolation(Precondition::NotInitialized))
    );
    let mut empty = opened_front();
    assert_eq!(
        empty.swap_a(200, &id("user.near")),
        Err(AmmError::PreconditionViolation(Precondition::ZeroReserves))
    );
    empty.deposit_a_callback(5, OK).unwrap();
    assert_eq!(
        empty.swap_b(200, &id("user.near")),
        Err(AmmError::PreconditionViolation(Precondition::ZeroReserves))
    );
    assert_eq!(
        empty.assert_deposited(),
        Err(AmmError::PreconditionViolation(Precondition::ZeroReserves))
    );
    let mut front = funded_front();
    assert_eq!(front.assert_deposited(), Ok(()));
    assert_eq!(
        front.swap_b(0, &id("user.near")),
        Err(AmmError::PreconditionViolation(Precondition::ZeroQuantity))
    );
    assert_eq!(front.swap_b(u128::MAX, &id("user.near")), Err(AmmError::InvariantViolation));
    assert!(!front.swap_in_flight());
}

#[test]
fn one_swap_at_a_time() {
    let mut front = funded_front();
    front.swap_a(200, &id("user.near")).unwrap();
    assert_eq!(
        front.swap_b(10, &id("other.near")),
        Err(AmmError::PreconditionViolation(Precondition::SwapInFlight))
    );
    assert_eq!(
        front.swap_a(10, &id("other.near")),
        Err(AmmError::PreconditionViolation(Precondition::SwapInFlight))
    );
    assert_eq!(
        front.swap_a_callback(200, 166, SwapStage::Failed(Step::SourceTransfer)),
        Err(AmmError::RemoteCallFailure(Step::SourceTransfer))
    );
    assert!(front.swap_b(10, &id("other.near")).is_ok());
}

#[test]
fn swap_runs_through_its_stages() {
    let mut front = funded_front();
    let mut swap = front.swap_a(200, &id("user.near")).unwrap();
    assert_eq!(
        front.advance_swap(&mut swap, SwapEvent::Dispatched),
        Some(Action::TransferFrom {
            token: id("ft1.near"),
            sender: id("user.near"),
            receiver: id("wallet_42.amm.near"),
            amount: 200,
        })
    );
    assert_eq!(swap.stage, SwapStage::SourceTransferPending);
    assert_eq!(front.advance_swap(&mut swap, SwapEvent::Dispatched), None);
    assert_eq!(swap.stage, SwapStage::SourceTransferPending);
    assert_eq!(
        front.advance_swap(&mut swap, SwapEvent::StepSucceeded),
        Some(Action::Withdraw {
            wallet: id("wallet_42.amm.near"),
            asset: Asset::B,
            account: id("user.near"),
            qty: 166,
        })
    );
    assert_eq!(swap.stage, SwapStage::DestinationWithdrawPending);
    assert!(!swap.stage.is_final());
    assert_eq!(front.advance_swap(&mut swap, SwapEvent::StepSucceeded), None);
    assert_eq!(swap.stage, SwapStage::Reconciled);
    assert!(swap.stage.is_final());
    assert_eq!(front.advance_swap(&mut swap, SwapEvent::StepFailed), None);
    assert_eq!(swap.stage, SwapStage::Reconciled);
    assert_eq!(reserves(&front), (1000, 1000));
    assert_eq!(front.swap_a_callback(swap.qty, swap.diff, swap.stage), Ok(()));
    assert_eq!(reserves(&front), (1200, 834));
    assert!(!front.swap_in_flight());
}

#[test]
fn swap_of_the_other_asset() {
    let mut front = funded_front();
    let mut swap = front.swap_b(1000, &id("user.near")).unwrap();
    assert_eq!(swap.diff, 500);
    assert_eq!(
        front.advance_swap(&mut swap, SwapEvent::Dispatched),
        Some(Action::TransferFrom {
            token: id("ft2.near"),
            sender: id("user.near"),
            receiver: id("wallet_42.amm.near"),
            amount: 1000,
        })
    );
    assert_eq!(
        front.advance_swap(&mut swap, SwapEvent::StepSucceeded),
        Some(Action::Withdraw {
            wallet: id("wallet_42.amm.near"),
            asset: Asset::A,
            account: id("user.near"),
            qty: 500,
        })
    );
    front.advance_swap(&mut swap, SwapEvent::StepSucceeded);
    assert_eq!(front.swap_b_callback(swap.qty, swap.diff, swap.stage), Ok(()));
    assert_eq!(reserves(&front), (500, 2000));
}

#[test]
fn swap_that_pays_nothing_skips_the_withdraw() {
    let mut front = opened_front();
    front.deposit_a_callback(1000, OK).unwrap();
    front.deposit_b_callback(3, OK).unwrap();
    let mut swap = front.swap_a(1, &id("user.near")).unwrap();
    assert_eq!(swap.diff, 0);
    assert!(front.advance_swap(&mut swap, SwapEvent::Dispatched).is_some());
    assert_eq!(front.advance_swap(&mut swap, SwapEvent::StepSucceeded), None);
    assert_eq!(swap.stage, SwapStage::Reconciled);
    assert_eq!(front.swap_callback(Asset::A, swap.qty, swap.diff, swap.stage), Ok(()));
    assert_eq!(reserves(&front), (1001, 3));
}

#[test]
fn failed_source_transfer_ends_the_swap() {
    let mut front = funded_front();
    let mut swap = front.swap_a(200, &id("user.near")).unwrap();
    front.advance_swap(&mut swap, SwapEvent::Dispatched);
    assert_eq!(front.advance_swap(&mut swap, SwapEvent::StepFailed), None);
    assert_eq!(swap.stage, SwapStage::Failed(Step::SourceTransfer));
    assert_eq!(front.advance_swap(&mut swap, SwapEvent::StepSucceeded), None);
    assert_eq!(swap.stage, SwapStage::Failed(Step::SourceTransfer));
    assert_eq!(
        front.swap_a_callback(swap.qty, swap.diff, swap.stage),
        Err(AmmError::RemoteCallFailure(Step::SourceTransfer))
    );
    assert_eq!(reserves(&front), (1000, 1000));
    assert!(!front.swap_in_flight());
}

#[test]
fn failed_withdraw_leaves_the_reserves() {
    let mut front = funded_front();
    let mut swap = front.swap_a(200, &id("user.near")).unwrap();
    front.advance_swap(&mut swap, SwapEvent::Dispatched);
    front.advance_swap(&mut swap, SwapEvent::StepSucceeded);
    assert_eq!(front.advance_swap(&mut swap, SwapEvent::StepFailed), None);
    assert_eq!(swap.stage, SwapStage::Failed(Step::DestinationWithdraw));
    assert_eq!(
        front.swap_a_callback(swap.qty, swap.diff, swap.stage),
        Err(AmmError::RemoteCallFailure(Step::DestinationWithdraw))
    );
    assert_eq!(reserves(&front), (1000, 1000));
    assert!(!front.swap_in_flight());
    assert!(front.initialized());
    assert_eq!(front.wallet().as_str(), "wallet_42.amm.near");
}

#[test]
fn swap_callback_needs_a_settled_swap() {
    let mut front = funded_front();
    assert_eq!(
        front.swap_a_callback(200, 166, SwapStage::Reconciled),
        Err(AmmError::PreconditionViolation(Precondition::NoSwapInFlight))
    );
    assert_eq!(reserves(&front), (1000, 1000));
    let swap = front.swap_a(200, &id("user.near")).unwrap();
    for stage in [
        SwapStage::Requested,
        SwapStage::SourceTransferPending,
        SwapStage::DestinationWithdrawPending,
    ] {
        assert_eq!(
            front.swap_a_callback(swap.qty, swap.diff, stage),
            Err(AmmError::PreconditionViolation(Precondition::SwapNotSettled))
        );
        assert!(front.swap_in_flight());
    }
    assert_eq!(reserves(&front), (1000, 1000));
}

#[test]
fn swap_callback_never_clamps_a_reserve() {
    let mut front = funded_front();
    front.swap_a(200, &id("user.near")).unwrap();
    assert_eq!(
        front.swap_a_callback(200, 1001, SwapStage::Reconciled),
        Err(AmmError::InvariantViolation)
    );
    assert_eq!(reserves(&front), (1000, 1000));
    front.swap_a(200, &id("user.near")).unwrap();
    assert_eq!(
        front.swap_a_callback(u128::MAX, 1, SwapStage::Reconciled),
        Err(AmmError::InvariantViolation)
    );
    assert_eq!(reserves(&front), (1000, 1000));
    front.swap_a(200, &id("user.near")).unwrap();
    assert_eq!(front.swap_a_callback(200, 1000, SwapStage::Reconciled), Ok(()));
    assert_eq!(reserves(&front), (1200, 0));
}

#[test]
fn stat_is_a_copy() {
    let front = funded_front();
    let copy = front.stat();
    assert_eq!(copy.a().addr().as_str(), "ft1.near");
    assert_eq!(copy.b().addr().as_str(), "ft2.near");
    assert_eq!(copy.wallet().as_str(), "wallet_42.amm.near");
    assert_eq!(copy.token(Asset::A).qty(), 1000);
    assert_eq!(reserves(&copy), (1000, 1000));
    assert!(copy.initialized());
}

#[test]
fn front_from_parts() {
    let front = Contract::from_parts(
        Token::new(id("ft1.near"), None, 5),
        Token::new(id("ft2.near"), None, 6),
        id("wallet.near"),
        true,
        true,
    );
    assert_eq!(reserves(&front), (5, 6));
    assert!(front.initialized());
    assert!(front.swap_in_flight());
    assert_eq!(front.wallet().as_str(), "wallet.near");
}

#[test]
fn redeploy_is_for_the_operator_alone() {
    let closed = Contract::default(id("amm.near"));
    assert_eq!(
        closed.redeploy_custody_code(&id("amm.near"), &id("amm.near")),
        Err(AmmError::PreconditionViolation(Precondition::NotInitialized))
    );
    let front = opened_front();
    assert_eq!(
        front.redeploy_custody_code(&id("user.near"), &id("amm.near")),
        Err(AmmError::PreconditionViolation(Precondition::Unauthorized))
    );
    assert_eq!(
        front.redeploy_custody_code(&id("amm.near"), &id("amm.near")),
        Ok(Action::DeployCode { wallet: id("wallet_42.amm.near") })
    );
}

#[test]
fn stages_follow_events() {
    let failed = SwapStage::Failed(Step::DestinationWithdraw);
    assert_eq!(SwapStage::Requested.next(SwapEvent::Dispatched, 5), SwapStage::SourceTransferPending);
    assert_eq!(SwapStage::Requested.next(SwapEvent::StepSucceeded, 5), SwapStage::Requested);
    assert_eq!(SwapStage::Requested.next(SwapEvent::StepFailed, 5), SwapStage::Requested);
    assert_eq!(
        SwapStage::SourceTransferPending.next(SwapEvent::StepSucceeded, 5),
        SwapStage::DestinationWithdrawPending
    );
    assert_eq!(
        SwapStage::SourceTransferPending.next(SwapEvent::StepSucceeded, 0),
        SwapStage::Reconciled
    );
    assert_eq!(SwapStage::DestinationWithdrawPending.next(SwapEvent::StepFailed, 5), failed);
    assert_eq!(failed.next(SwapEvent::StepSucceeded, 5), failed);
    assert_eq!(failed.next(SwapEvent::Dispatched, 5), failed);
    assert_eq!(SwapStage::Reconciled.next(SwapEvent::StepFailed, 5), SwapStage::Reconciled);
}

#[test]
fn every_error_has_its_words() {
    let preconditions = [
        (Precondition::NotInitialized, "contract is not initialized yet"),
        (Precondition::AlreadyInitialized, "Already initialized"),
        (Precondition::ZeroQuantity, "input quantity must be positive"),
        (Precondition::ZeroReserves, "must deposit for both tokens before swap"),
        (Precondition::Unauthorized, "Method is private"),
        (Precondition::MissingPayment, "Requires attached deposit of exactly 1 yoctoNEAR"),
        (Precondition::InvalidAccount, "the account ID is invalid"),
        (Precondition::UnknownAsset, "Unexpected address"),
        (Precondition::SwapInFlight, "another swap is in flight"),
        (Precondition::NoSwapInFlight, "no swap is in flight"),
        (Precondition::SwapNotSettled, "the swap has not settled"),
    ];
    for (precondition, words) in preconditions {
        assert_eq!(AmmError::PreconditionViolation(precondition).message(), words);
    }
    let steps = [
        (Step::Metadata, "Failed to get token metadata"),
        (Step::WalletCreation, "failed to create wallet"),
        (Step::WalletInit, "failed to init wallet"),
        (Step::Registration, "failed to register account"),
        (Step::DepositTransfer, "failed to transfer"),
        (Step::SourceTransfer, "failed to transfer source token"),
        (Step::DestinationWithdraw, "failed to withdraw destination token"),
        (Step::Refund, "failed to transfer back"),
    ];
    for (step, words) in steps {
        assert_eq!(AmmError::RemoteCallFailure(step).message(), words);
    }
    assert_eq!(AmmError::InvariantViolation.message(), "balance out of range");
    assert_eq!(AmmError::MalformedRemoteResponse.message(), "malformed token metadata");
}

#[test]
fn every_memo_has_its_words() {
    assert_eq!(Memo::Deposit.text(), "deposit from amm contract");
    assert_eq!(Memo::BackA.text(), "deposit a back to user");
    assert_eq!(Memo::BackB.text(), "deposit b back to user");
    assert_eq!(Memo::Withdraw.text(), "withdraw from amm wallet");
    assert_eq!(Asset::A.other(), Asset::B);
    assert_eq!(Asset::B.other(), Asset::A);
}
