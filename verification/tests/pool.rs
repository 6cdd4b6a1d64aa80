use amm::account::AccountId;
use amm::action::Action;
use amm::action::Asset;
use amm::action::StepResult;
use amm::error::AmmError;
use amm::error::Step;
use amm::front::Contract;
use amm::swap::SwapEvent;
use amm::swap::SwapStage;
use amm::wallet::AmmWallet;

fn id(text: &str) -> AccountId {
    AccountId::new_unchecked(text.to_string())
}

fn new_pool() -> (Contract, AmmWallet) {
    let mut front = Contract::default(id("amm.near"));
    front.init("ft1.near".to_string(), "ft2.near".to_string(), &id("amm.near"), 7).unwrap();
    front
        .init_done(
            id("wallet_7.amm.near"),
            StepResult::Succeeded,
            StepResult::Succeeded,
            StepResult::Succeeded,
        )
        .unwrap();
    let wallet = AmmWallet::init(id("ft1.near"), id("ft2.near"), id("amm.near"), false).unwrap();
    (front, wallet)
}

fn deposit(front: &mut Contract, wallet: &mut AmmWallet, asset: Asset, qty: u128) {
    let action = front.deposit(asset, qty, &id("amm.near"), &id("amm.near"), 1).unwrap();
    match action {
        Action::Transfer { token, receiver, amount, .. } => {
            assert_eq!(receiver.as_str(), "wallet_7.amm.near");
            assert_eq!(wallet.ft_on_transfer(&token, &id("amm.near"), amount, ""), Ok(None));
        }
        other => panic!("{:?}", other),
    }
    front.deposit_callback(asset, qty, StepResult::Succeeded).unwrap();
}

fn swap(front: &mut Contract, wallet: &mut AmmWallet, source: Asset, qty: u128, pay: StepResult) {
    let user = id("user.near");
    let mut swap = front.swap(source, qty, &user).unwrap();
    match front.advance_swap(&mut swap, SwapEvent::Dispatched) {
        Some(Action::TransferFrom { token, amount, .. }) => {
            assert_eq!(wallet.ft_on_transfer(&token, &id("amm.near"), amount, ""), Ok(None));
        }
        other => panic!("{:?}", other),
    }
    match front.advance_swap(&mut swap, SwapEvent::StepSucceeded) {
        Some(Action::Withdraw { asset, account, qty, .. }) => {
            let transfer = wallet.withdraw(asset, &id("amm.near"), account, qty).unwrap();
            assert!(matches!(transfer, Action::Transfer { amount, .. } if amount == qty));
            let settled = wallet.on_transfer_back(asset, qty, pay);
            let event = match pay {
                StepResult::Succeeded => {
                    assert_eq!(settled, Ok(()));
                    SwapEvent::StepSucceeded
                }
                StepResult::Failed => {
                    assert_eq!(settled, Err(AmmError::RemoteCallFailure(Step::Refund)));
                    SwapEvent::StepFailed
                }
            };
            assert_eq!(front.advance_swap(&mut swap, event), None);
        }
        None => assert_eq!(swap.diff, 0),
        other => panic!("{:?}", other),
    }
    assert!(swap.stage.is_final());
    let committed = front.swap_callback(source, swap.qty, swap.diff, swap.stage);
    assert_eq!(committed.is_ok(), swap.stage == SwapStage::Reconciled);
}

fn assert_converged(front: &Contract, wallet: &AmmWallet) {
    assert_eq!(front.a().qty(), wallet.a_balance());
    assert_eq!(front.b().qty(), wallet.b_balance());
}

#[test]
fn deposits_and_swaps_keep_front_and_custody_together() {
    let (mut front, mut wallet) = new_pool();
    assert_converged(&front, &wallet);
    deposit(&mut front, &mut wallet, Asset::A, 1000);
    assert_converged(&front, &wallet);
    deposit(&mut front, &mut wallet, Asset::B, 1000);
    assert_converged(&front, &wallet);
    assert_eq!(wallet.k(), 1_000_000);
    swap(&mut front, &mut wallet, Asset::A, 200, StepResult::Succeeded);
    assert_converged(&front, &wallet);
    assert_eq!((wallet.a_balance(), wallet.b_balance()), (1200, 834));
    swap(&mut front, &mut wallet, Asset::B, 300, StepResult::Succeeded);
    assert_converged(&front, &wallet);
    assert_eq!((wallet.a_balance(), wallet.b_balance()), (883, 1134));
    deposit(&mut front, &mut wallet, Asset::B, 66);
    swap(&mut front, &mut wallet, Asset::B, 1, StepResult::Succeeded);
    swap(&mut front, &mut wallet, Asset::A, 5000, StepResult::Succeeded);
    assert_converged(&front, &wallet);
    assert_eq!(wallet.a_balance(), 5883);
}

#[test]
fn failed_withdraw_leaves_front_and_paid_asset() {
    let (mut front, mut wallet) = new_pool();
    deposit(&mut front, &mut wallet, Asset::A, 1000);
    deposit(&mut front, &mut wallet, Asset::B, 1000);
    swap(&mut front, &mut wallet, Asset::A, 200, StepResult::Failed);
    assert_eq!((front.a().qty(), front.b().qty()), (1000, 1000));
    assert!(!front.swap_in_flight());
    assert_eq!(wallet.b_balance(), 1000);
    assert_eq!(wallet.a_balance(), 1200);
}
