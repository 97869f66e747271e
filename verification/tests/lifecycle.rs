use p2p_escrow::context::Context;
use p2p_escrow::contract::P2PContract;
use p2p_escrow::error::ContractError;
use p2p_escrow::types::{Address, FiatCurrency, OrderStatus, PaymentMethod, Transfer};

const MINTED: i128 = 1_000_000_000;

fn address(tag: u8) -> Address {
    Address { strkey: [tag; 56] }
}

struct Setup {
    env: Context,
    pauser: Address,
    dispute_resolver: Address,
    creator: Address,
    filler: Address,
}

fn setup() -> Setup {
    let mut env = Context::new(0);
    let admin = address(b'A');
    let pauser = address(b'P');
    let dispute_resolver = address(b'R');
    let creator = address(b'C');
    let filler = address(b'F');
    let token = address(b'T');

    P2PContract::initialize(
        &mut env,
        admin,
        dispute_resolver,
        pauser,
        token,
        2_592_000,
        1_800,
    )
    .unwrap();

    Setup {
        env,
        pauser,
        dispute_resolver,
        creator,
        filler,
    }
}

fn set_timestamp(e: &mut Context, timestamp: u64) {
    e.timestamp = timestamp;
}

/// What `who` holds of the asset: what was minted to it, less its deposits,
/// plus what was released to it.
fn balance(s: &Setup, who: &Address) -> i128 {
    let mut held = if *who == s.creator || *who == s.filler {
        MINTED
    } else {
        0
    };
    for transfer in s.env.transfers.iter() {
        match transfer {
            Transfer::Deposit { from, amount } if from == who => held -= amount,
            Transfer::Release { to, amount } if to == who => held += amount,
            _ => {}
        }
    }
    held
}

/// What custody holds of the asset.
fn custody_balance(s: &Setup) -> i128 {
    let mut held = 0;
    for transfer in s.env.transfers.iter() {
        match transfer {
            Transfer::Deposit { amount, .. } => held += amount,
            Transfer::Release { amount, .. } => held -= amount,
        }
    }
    held
}

#[test]
fn test_create_order_from_crypto_holds_funds() {
    let mut s = setup();

    set_timestamp(&mut s.env, 100);
    let order_id = P2PContract::create_order(
        &mut s.env,
        s.creator,
        FiatCurrency::Usd,
        PaymentMethod::BankTransfer,
        true,
        100,
        1200,
        600,
    )
    .unwrap();

    let order = P2PContract::get_order(&s.env, order_id).unwrap();
    assert_eq!(order.status, OrderStatus::AwaitingFiller);
    assert_eq!(order.creator, s.creator);
    assert_eq!(order.amount, 100);
    assert_eq!(order.remaining_amount, 100);
    assert_eq!(order.filled_amount, 0);
    assert_eq!(order.active_fill_amount, None);

    let contract_balance = custody_balance(&s);
    assert_eq!(contract_balance, 100);
}

#[test]
fn test_cancel_order_refunds_creator_for_from_crypto() {
    let mut s = setup();

    let creator_balance_before = balance(&s, &s.creator);
    let order_id = P2PContract::create_order(
        &mut s.env,
        s.creator,
        FiatCurrency::Usd,
        PaymentMethod::BankTransfer,
        true,
        500,
        1200,
        600,
    )
    .unwrap();

    P2PContract::cancel_order(&mut s.env, s.creator, order_id).unwrap();
    let order = P2PContract::get_order(&s.env, order_id).unwrap();
    assert_eq!(order.status, OrderStatus::Cancelled);

    let creator_balance_after = balance(&s, &s.creator);
    assert_eq!(creator_balance_after, creator_balance_before);
    assert_eq!(custody_balance(&s), 0);
}

#[test]
fn test_take_order_from_fiat_requires_filler_deposit() {
    let mut s = setup();

    let filler_balance_before = balance(&s, &s.filler);
    let order_id = P2PContract::create_order(
        &mut s.env,
        s.creator,
        FiatCurrency::Eur,
        PaymentMethod::MobileWallet,
        false,
        700,
        1250,
        600,
    )
    .unwrap();

    P2PContract::take_order(&mut s.env, s.filler, order_id).unwrap();
    let order = P2PContract::get_order(&s.env, order_id).unwrap();

    assert_eq!(order.status, OrderStatus::AwaitingPayment);
    assert_eq!(order.filler, Some(s.filler));
    assert_eq!(order.active_fill_amount, Some(700));

    let filler_balance_after = balance(&s, &s.filler);
    assert_eq!(filler_balance_before - filler_balance_after, 700);
    assert_eq!(custody_balance(&s), 700);
}

#[test]
fn test_submit_confirm_from_crypto_releases_to_filler() {
    let mut s = setup();

    let filler_before = balance(&s, &s.filler);
    let order_id = P2PContract::create_order(
        &mut s.env,
        s.creator,
        FiatCurrency::Usd,
        PaymentMethod::BankTransfer,
        true,
        400,
        1000,
        600,
    )
    .unwrap();

    P2PContract::take_order(&mut s.env, s.filler, order_id).unwrap();
    P2PContract::submit_fiat_payment(&mut s.env, s.filler, order_id).unwrap();
    P2PContract::confirm_fiat_payment(&mut s.env, s.creator, order_id).unwrap();

    let order = P2PContract::get_order(&s.env, order_id).unwrap();
    assert_eq!(order.status, OrderStatus::Completed);
    assert_eq!(order.remaining_amount, 0);
    assert_eq!(order.filled_amount, 400);
    assert_eq!(balance(&s, &s.filler), filler_before + 400);
    assert_eq!(custody_balance(&s), 0);
}

#[test]
fn test_submit_confirm_from_fiat_releases_to_creator() {
    let mut s = setup();

    let creator_before = balance(&s, &s.creator);
    let order_id = P2PContract::create_order(
        &mut s.env,
        s.creator,
        FiatCurrency::Usd,
        PaymentMethod::BankTransfer,
        false,
        450,
        1000,
        600,
    )
    .unwrap();

    P2PContract::take_order(&mut s.env, s.filler, order_id).unwrap();
    P2PContract::submit_fiat_payment(&mut s.env, s.creator, order_id).unwrap();
    P2PContract::confirm_fiat_payment(&mut s.env, s.filler, order_id).unwrap();

    let order = P2PContract::get_order(&s.env, order_id).unwrap();
    assert_eq!(order.status, OrderStatus::Completed);
    assert_eq!(order.remaining_amount, 0);
    assert_eq!(order.filled_amount, 450);
    assert_eq!(balance(&s, &s.creator), creator_before + 450);
    assert_eq!(custody_balance(&s), 0);
}

#[test]
fn test_timeout_resets_order_to_awaiting_filler() {
    let mut s = setup();
    let filler_balance_before = balance(&s, &s.filler);

    set_timestamp(&mut s.env, 1000);
    let order_id = P2PContract::create_order(
        &mut s.env,
        s.creator,
        FiatCurrency::Usd,
        PaymentMethod::BankTransfer,
        false,
        300,
        1000,
        5_000,
    )
    .unwrap();

    P2PContract::take_order(&mut s.env, s.filler, order_id).unwrap();
    assert_eq!(balance(&s, &s.filler), filler_balance_before - 300);
    assert_eq!(custody_balance(&s), 300);

    set_timestamp(&mut s.env, 3000);
    P2PContract::execute_fiat_transfer_timeout(&mut s.env, s.filler, order_id).unwrap();

    let order = P2PContract::get_order(&s.env, order_id).unwrap();
    assert_eq!(order.status, OrderStatus::AwaitingFiller);
    assert_eq!(order.filler, None);
    assert_eq!(order.active_fill_amount, None);
    assert_eq!(order.fiat_transfer_deadline, None);
    assert_eq!(balance(&s, &s.filler), filler_balance_before);
    assert_eq!(custody_balance(&s), 0);
}

#[test]
fn test_dispute_and_resolve_confirmed_completes() {
    let mut s = setup();

    let filler_before = balance(&s, &s.filler);
    let order_id = P2PContract::create_order(
        &mut s.env,
        s.creator,
        FiatCurrency::Usd,
        PaymentMethod::BankTransfer,
        true,
        250,
        1000,
        600,
    )
    .unwrap();

    P2PContract::take_order(&mut s.env, s.filler, order_id).unwrap();
    P2PContract::submit_fiat_payment(&mut s.env, s.filler, order_id).unwrap();
    // The party that is due the payment contests it: here the creator.
    P2PContract::dispute_fiat_payment(&mut s.env, s.creator, order_id).unwrap();
    P2PContract::resolve_dispute(&mut s.env, s.dispute_resolver, order_id, true).unwrap();

    let order = P2PContract::get_order(&s.env, order_id).unwrap();
    assert_eq!(order.status, OrderStatus::Completed);
    assert_eq!(order.filled_amount, 250);
    assert_eq!(order.remaining_amount, 0);
    assert_eq!(balance(&s, &s.filler), filler_before + 250);
}

#[test]
fn test_dispute_and_resolve_not_confirmed_refunds_depositor() {
    let mut s = setup();

    let creator_before = balance(&s, &s.creator);
    let order_id = P2PContract::create_order(
        &mut s.env,
        s.creator,
        FiatCurrency::Usd,
        PaymentMethod::BankTransfer,
        true,
        350,
        1000,
        600,
    )
    .unwrap();

    P2PContract::take_order(&mut s.env, s.filler, order_id).unwrap();
    P2PContract::submit_fiat_payment(&mut s.env, s.filler, order_id).unwrap();
    P2PContract::dispute_fiat_payment(&mut s.env, s.creator, order_id).unwrap();
    P2PContract::resolve_dispute(&mut s.env, s.dispute_resolver, order_id, false).unwrap();

    let order = P2PContract::get_order(&s.env, order_id).unwrap();
    assert_eq!(order.status, OrderStatus::AwaitingFiller);
    assert_eq!(order.remaining_amount, 350);
    assert_eq!(order.filled_amount, 0);
    // The order is open again for all of its amount, so the creator's
    // escrow stays in custody, as after a timeout.
    assert_eq!(balance(&s, &s.creator), creator_before - 350);
    assert_eq!(custody_balance(&s), 350);
}

#[test]
fn test_partial_fill_reduces_remaining_and_reopens_order() {
    let mut s = setup();

    let creator_before = balance(&s, &s.creator);
    let order_id = P2PContract::create_order(
        &mut s.env,
        s.creator,
        FiatCurrency::Usd,
        PaymentMethod::BankTransfer,
        false,
        1_000,
        1000,
        600,
    )
    .unwrap();

    P2PContract::take_order_with_amount(&mut s.env, s.filler, order_id, 200).unwrap();
    P2PContract::submit_fiat_payment(&mut s.env, s.creator, order_id).unwrap();
    P2PContract::confirm_fiat_payment(&mut s.env, s.filler, order_id).unwrap();

    let order = P2PContract::get_order(&s.env, order_id).unwrap();
    assert_eq!(order.status, OrderStatus::AwaitingFiller);
    assert_eq!(order.remaining_amount, 800);
    assert_eq!(order.filled_amount, 200);
    assert_eq!(order.filler, None);
    assert_eq!(order.active_fill_amount, None);
    assert_eq!(balance(&s, &s.creator), creator_before + 200);
}

#[test]
fn test_pause_blocks_mutations() {
    let mut s = setup();

    P2PContract::pause(&mut s.env, s.pauser).unwrap();

    let res = P2PContract::create_order(
        &mut s.env,
        s.creator,
        FiatCurrency::Usd,
        PaymentMethod::BankTransfer,
        true,
        100,
        1000,
        600,
    );
    assert!(res.is_err());
    assert_eq!(res, Err(ContractError::Paused));

    P2PContract::unpause(&mut s.env, s.pauser).unwrap();
    let order_id = P2PContract::create_order(
        &mut s.env,
        s.creator,
        FiatCurrency::Usd,
        PaymentMethod::BankTransfer,
        true,
        100,
        1000,
        600,
    )
    .unwrap();

    assert_eq!(order_id, 0);
}

#[test]
fn test_only_dispute_resolver_can_resolve() {
    let mut s = setup();

    let order_id = P2PContract::create_order(
        &mut s.env,
        s.creator,
        FiatCurrency::Usd,
        PaymentMethod::BankTransfer,
        true,
        300,
        1000,
        600,
    )
    .unwrap();
    P2PContract::take_order(&mut s.env, s.filler, order_id).unwrap();
    P2PContract::submit_fiat_payment(&mut s.env, s.filler, order_id).unwrap();
    P2PContract::dispute_fiat_payment(&mut s.env, s.creator, order_id).unwrap();

    let res = P2PContract::resolve_dispute(&mut s.env, s.creator, order_id, true);
    assert!(res.is_err());
    assert_eq!(res, Err(ContractError::Unauthorized));
}

#[test]
fn test_initialize_rejects_duplicate_and_invalid_timeouts() {
    let admin = address(b'A');
    let pauser = address(b'P');
    let dispute_resolver = address(b'R');
    let token = address(b'T');

    let mut env = Context::new(0);
    P2PContract::initialize(&mut env, admin, dispute_resolver, pauser, token, 100, 10).unwrap();

    let duplicate =
        P2PContract::initialize(&mut env, admin, dispute_resolver, pauser, token, 100, 10);
    assert!(duplicate.is_err());
    assert_eq!(duplicate, Err(ContractError::AlreadyInitialized));

    let mut second = Context::new(0);
    let invalid_timeout =
        P2PContract::initialize(&mut second, admin, dispute_resolver, pauser, token, 100, 0);
    assert!(invalid_timeout.is_err());
    assert_eq!(invalid_timeout, Err(ContractError::InvalidTimeout));
}

#[test]
fn test_pause_auth_and_repeat_guards() {
    let mut s = setup();
    let random = address(b'X');

    let unauthorized_pause = P2PContract::pause(&mut s.env, random);
    assert!(unauthorized_pause.is_err());
    assert_eq!(unauthorized_pause, Err(ContractError::Unauthorized));

    P2PContract::pause(&mut s.env, s.pauser).unwrap();

    let second_pause = P2PContract::pause(&mut s.env, s.pauser);
    assert!(second_pause.is_err());
    assert_eq!(second_pause, Err(ContractError::AlreadyPaused));

    P2PContract::unpause(&mut s.env, s.pauser).unwrap();

    let second_unpause = P2PContract::unpause(&mut s.env, s.pauser);
    assert!(second_unpause.is_err());
    assert_eq!(second_unpause, Err(ContractError::AlreadyUnpaused));
}

#[test]
fn test_create_order_validation_failures() {
    let mut s = setup();

    let invalid_amount = P2PContract::create_order(
        &mut s.env,
        s.creator,
        FiatCurrency::Usd,
        PaymentMethod::BankTransfer,
        true,
        0,
        1000,
        600,
    );
    assert!(invalid_amount.is_err());
    assert_eq!(invalid_amount, Err(ContractError::InvalidAmount));

    let invalid_exchange_rate = P2PContract::create_order(
        &mut s.env,
        s.creator,
        FiatCurrency::Usd,
        PaymentMethod::BankTransfer,
        true,
        100,
        0,
        600,
    );
    assert!(invalid_exchange_rate.is_err());
    assert_eq!(invalid_exchange_rate, Err(ContractError::InvalidExchangeRate));

    let invalid_duration = P2PContract::create_order(
        &mut s.env,
        s.creator,
        FiatCurrency::Usd,
        PaymentMethod::BankTransfer,
        true,
        100,
        1000,
        2_592_001,
    );
    assert!(invalid_duration.is_err());
    assert_eq!(invalid_duration, Err(ContractError::InvalidDuration));
}

#[test]
fn test_cancel_order_negative_paths() {
    let mut s = setup();

    let order_id = P2PContract::create_order(
        &mut s.env,
        s.creator,
        FiatCurrency::Usd,
        PaymentMethod::BankTransfer,
        true,
        100,
        1000,
        600,
    )
    .unwrap();

    let unauthorized_cancel = P2PContract::cancel_order(&mut s.env, s.filler, order_id);
    assert!(unauthorized_cancel.is_err());
    assert_eq!(unauthorized_cancel, Err(ContractError::Unauthorized));

    let nonexistent_cancel = P2PContract::cancel_order(&mut s.env, s.creator, 9999);
    assert!(nonexistent_cancel.is_err());
    assert_eq!(nonexistent_cancel, Err(ContractError::OrderNotFound));

    P2PContract::take_order(&mut s.env, s.filler, order_id).unwrap();
    let cancel_after_take = P2PContract::cancel_order(&mut s.env, s.creator, order_id);
    assert!(cancel_after_take.is_err());
    assert_eq!(cancel_after_take, Err(ContractError::InvalidOrderStatus));
}

#[test]
fn test_take_order_negative_paths() {
    let mut s = setup();

    let order_id = P2PContract::create_order(
        &mut s.env,
        s.creator,
        FiatCurrency::Usd,
        PaymentMethod::BankTransfer,
        true,
        100,
        1000,
        600,
    )
    .unwrap();

    let self_take = P2PContract::take_order(&mut s.env, s.creator, order_id);
    assert!(self_take.is_err());
    assert_eq!(self_take, Err(ContractError::Unauthorized));

    set_timestamp(&mut s.env, 100);
    let expiring_order = P2PContract::create_order(
        &mut s.env,
        s.creator,
        FiatCurrency::Usd,
        PaymentMethod::BankTransfer,
        true,
        100,
        1000,
        10,
    )
    .unwrap();
    set_timestamp(&mut s.env, 111);
    let expired_take = P2PContract::take_order(&mut s.env, s.filler, expiring_order);
    assert!(expired_take.is_err());
    assert_eq!(expired_take, Err(ContractError::OrderExpired));

    let nonexistent_take = P2PContract::take_order(&mut s.env, s.filler, 12345);
    assert!(nonexistent_take.is_err());
    assert_eq!(nonexistent_take, Err(ContractError::OrderNotFound));
}

#[test]
fn test_submit_confirm_dispute_negative_actor_and_status_paths() {
    let mut s = setup();

    let from_crypto_order = P2PContract::create_order(
        &mut s.env,
        s.creator,
        FiatCurrency::Usd,
        PaymentMethod::BankTransfer,
        true,
        200,
        1000,
        600,
    )
    .unwrap();
    P2PContract::take_order(&mut s.env, s.filler, from_crypto_order).unwrap();

    let wrong_submitter = P2PContract::submit_fiat_payment(&mut s.env, s.creator, from_crypto_order);
    assert!(wrong_submitter.is_err());
    assert_eq!(wrong_submitter, Err(ContractError::Unauthorized));

    P2PContract::submit_fiat_payment(&mut s.env, s.filler, from_crypto_order).unwrap();

    let wrong_confirmer =
        P2PContract::confirm_fiat_payment(&mut s.env, s.filler, from_crypto_order);
    assert!(wrong_confirmer.is_err());
    assert_eq!(wrong_confirmer, Err(ContractError::Unauthorized));

    // Only the party that is due the payment may contest it: the filler,
    // who attested it, may not.
    let wrong_disputer =
        P2PContract::dispute_fiat_payment(&mut s.env, s.filler, from_crypto_order);
    assert!(wrong_disputer.is_err());
    assert_eq!(wrong_disputer, Err(ContractError::Unauthorized));

    let non_disputed_resolution =
        P2PContract::resolve_dispute(&mut s.env, s.dispute_resolver, from_crypto_order, true);
    assert!(non_disputed_resolution.is_err());
    assert_eq!(non_disputed_resolution, Err(ContractError::InvalidOrderStatus));
}

#[test]
fn test_timeout_negative_paths() {
    let mut s = setup();

    set_timestamp(&mut s.env, 500);
    let from_crypto_order = P2PContract::create_order(
        &mut s.env,
        s.creator,
        FiatCurrency::Usd,
        PaymentMethod::BankTransfer,
        true,
        300,
        1000,
        600,
    )
    .unwrap();
    P2PContract::take_order(&mut s.env, s.filler, from_crypto_order).unwrap();

    set_timestamp(&mut s.env, 1000);
    let before_expiry =
        P2PContract::execute_fiat_transfer_timeout(&mut s.env, s.creator, from_crypto_order);
    assert!(before_expiry.is_err());
    assert_eq!(before_expiry, Err(ContractError::FiatTransferHasNotExpired));

    set_timestamp(&mut s.env, 2400);
    let wrong_actor_after_expiry =
        P2PContract::execute_fiat_transfer_timeout(&mut s.env, s.filler, from_crypto_order);
    assert!(wrong_actor_after_expiry.is_err());
    assert_eq!(wrong_actor_after_expiry, Err(ContractError::Unauthorized));

    P2PContract::execute_fiat_transfer_timeout(&mut s.env, s.creator, from_crypto_order).unwrap();

    let wrong_status =
        P2PContract::execute_fiat_transfer_timeout(&mut s.env, s.creator, from_crypto_order);
    assert!(wrong_status.is_err());
    assert_eq!(wrong_status, Err(ContractError::InvalidOrderStatus));
}
