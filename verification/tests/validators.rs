use p2p_escrow::error::ContractError;
use p2p_escrow::types::{Address, Config, FiatCurrency, Order, OrderStatus, PaymentMethod};
use p2p_escrow::validators::admin::{
    ensure_dispute_resolver, ensure_not_paused, ensure_pauser, validate_initialize_inputs,
};
use p2p_escrow::validators::dispute::{ensure_disputable, ensure_disputed};
use p2p_escrow::validators::order::{
    ensure_active_fill_amount, ensure_creator, ensure_fiat_receiver, ensure_fiat_sender,
    ensure_fiat_timeout_expired, ensure_filler, ensure_not_creator, ensure_not_expired,
    ensure_status, validate_create_order, validate_fill_amount,
};

fn address(tag: u8) -> Address {
    Address { strkey: [tag; 56] }
}

fn config() -> Config {
    Config {
        admin: address(b'A'),
        dispute_resolver: address(b'R'),
        pauser: address(b'P'),
        token: address(b'T'),
        max_duration_secs: 2_592_000,
        filler_payment_timeout_secs: 1_800,
        paused: false,
    }
}

fn open_order() -> Order {
    Order {
        order_id: 7,
        creator: address(b'C'),
        filler: None,
        token: address(b'T'),
        amount: 1_000,
        remaining_amount: 1_000,
        filled_amount: 0,
        active_fill_amount: None,
        exchange_rate: 1_200,
        from_crypto: true,
        fiat_currency: FiatCurrency::Usd,
        payment_method: PaymentMethod::BankTransfer,
        status: OrderStatus::AwaitingFiller,
        created_at: 100,
        deadline: 700,
        fiat_transfer_deadline: None,
    }
}

fn taken_order(from_crypto: bool) -> Order {
    Order {
        filler: Some(address(b'F')),
        active_fill_amount: Some(200),
        status: OrderStatus::AwaitingPayment,
        fiat_transfer_deadline: Some(1_900),
        from_crypto,
        ..open_order()
    }
}

#[test]
fn initialize_inputs_must_both_be_positive() {
    assert_eq!(validate_initialize_inputs(1, 1), Ok(()));
    assert_eq!(validate_initialize_inputs(2_592_000, 1_800), Ok(()));
    assert_eq!(validate_initialize_inputs(0, 1), Err(ContractError::InvalidTimeout));
    assert_eq!(validate_initialize_inputs(1, 0), Err(ContractError::InvalidTimeout));
    assert_eq!(validate_initialize_inputs(0, 0), Err(ContractError::InvalidTimeout));
}

#[test]
fn only_the_pauser_is_the_pauser() {
    assert_eq!(ensure_pauser(&config(), &address(b'P')), Ok(()));
    assert_eq!(ensure_pauser(&config(), &address(b'A')), Err(ContractError::Unauthorized));
}

#[test]
fn only_the_arbiter_is_the_arbiter() {
    assert_eq!(ensure_dispute_resolver(&config(), &address(b'R')), Ok(()));
    assert_eq!(
        ensure_dispute_resolver(&config(), &address(b'P')),
        Err(ContractError::Unauthorized)
    );
}

#[test]
fn a_halted_system_is_paused() {
    assert_eq!(ensure_not_paused(&config()), Ok(()));
    let halted = Config { paused: true, ..config() };
    assert_eq!(ensure_not_paused(&halted), Err(ContractError::Paused));
}

#[test]
fn create_order_checks_come_in_order() {
    let c = config();
    assert_eq!(validate_create_order(1, 1, 0, &c), Ok(()));
    assert_eq!(validate_create_order(1_000, 1_200, 2_592_000, &c), Ok(()));
    assert_eq!(validate_create_order(0, 1, 1, &c), Err(ContractError::InvalidAmount));
    assert_eq!(validate_create_order(-5, 0, 2_592_001, &c), Err(ContractError::InvalidAmount));
    assert_eq!(validate_create_order(1, 0, 1, &c), Err(ContractError::InvalidExchangeRate));
    assert_eq!(
        validate_create_order(1, -1, 2_592_001, &c),
        Err(ContractError::InvalidExchangeRate)
    );
    assert_eq!(
        validate_create_order(1, 1, 2_592_001, &c),
        Err(ContractError::InvalidDuration)
    );
}

#[test]
fn status_must_be_the_expected_one() {
    let order = open_order();
    assert_eq!(ensure_status(&order, OrderStatus::AwaitingFiller), Ok(()));
    assert_eq!(
        ensure_status(&order, OrderStatus::AwaitingPayment),
        Err(ContractError::InvalidOrderStatus)
    );
}

#[test]
fn creator_checks_go_both_ways() {
    let order = open_order();
    assert_eq!(ensure_creator(&order, &address(b'C')), Ok(()));
    assert_eq!(ensure_creator(&order, &address(b'F')), Err(ContractError::Unauthorized));
    assert_eq!(ensure_not_creator(&order, &address(b'F')), Ok(()));
    assert_eq!(ensure_not_creator(&order, &address(b'C')), Err(ContractError::Unauthorized));
}

#[test]
fn an_order_expires_at_its_deadline() {
    let order = open_order();
    assert_eq!(ensure_not_expired(&order, 0), Ok(()));
    assert_eq!(ensure_not_expired(&order, 699), Ok(()));
    assert_eq!(ensure_not_expired(&order, 700), Err(ContractError::OrderExpired));
    assert_eq!(ensure_not_expired(&order, 701), Err(ContractError::OrderExpired));
}

#[test]
fn the_fiat_timeout_expires_after_its_deadline() {
    let order = taken_order(true);
    assert_eq!(
        ensure_fiat_timeout_expired(&order, 1_899),
        Err(ContractError::FiatTransferHasNotExpired)
    );
    assert_eq!(
        ensure_fiat_timeout_expired(&order, 1_900),
        Err(ContractError::FiatTransferHasNotExpired)
    );
    assert_eq!(ensure_fiat_timeout_expired(&order, 1_901), Ok(()));
    assert_eq!(
        ensure_fiat_timeout_expired(&open_order(), 5_000),
        Err(ContractError::InvalidOrderStatus)
    );
}

#[test]
fn the_filler_check_tells_a_missing_filler_from_a_wrong_one() {
    let order = taken_order(true);
    assert_eq!(ensure_filler(&order, &address(b'F')), Ok(()));
    assert_eq!(ensure_filler(&order, &address(b'C')), Err(ContractError::Unauthorized));
    assert_eq!(
        ensure_filler(&open_order(), &address(b'F')),
        Err(ContractError::MissingFiller)
    );
}

#[test]
fn the_fiat_sender_depends_on_the_direction() {
    let asset_first = taken_order(true);
    assert_eq!(ensure_fiat_sender(&asset_first, &address(b'F')), Ok(()));
    assert_eq!(
        ensure_fiat_sender(&asset_first, &address(b'C')),
        Err(ContractError::Unauthorized)
    );
    let fiat_first = taken_order(false);
    assert_eq!(ensure_fiat_sender(&fiat_first, &address(b'C')), Ok(()));
    assert_eq!(
        ensure_fiat_sender(&fiat_first, &address(b'F')),
        Err(ContractError::Unauthorized)
    );
}

#[test]
fn the_fiat_receiver_is_the_other_party() {
    let asset_first = taken_order(true);
    assert_eq!(ensure_fiat_receiver(&asset_first, &address(b'C')), Ok(()));
    assert_eq!(
        ensure_fiat_receiver(&asset_first, &address(b'F')),
        Err(ContractError::Unauthorized)
    );
    let fiat_first = taken_order(false);
    assert_eq!(ensure_fiat_receiver(&fiat_first, &address(b'F')), Ok(()));
    assert_eq!(
        ensure_fiat_receiver(&fiat_first, &address(b'C')),
        Err(ContractError::Unauthorized)
    );
    let no_filler = Order { filler: None, ..fiat_first };
    assert_eq!(
        ensure_fiat_receiver(&no_filler, &address(b'F')),
        Err(ContractError::MissingFiller)
    );
}

#[test]
fn a_fill_must_be_positive_and_within_the_rest() {
    let order = Order { remaining_amount: 800, filled_amount: 200, ..open_order() };
    assert_eq!(validate_fill_amount(&order, 1), Ok(()));
    assert_eq!(validate_fill_amount(&order, 800), Ok(()));
    assert_eq!(validate_fill_amount(&order, 0), Err(ContractError::InvalidAmount));
    assert_eq!(validate_fill_amount(&order, -1), Err(ContractError::InvalidAmount));
    assert_eq!(validate_fill_amount(&order, 801), Err(ContractError::InvalidFillAmount));
}

#[test]
fn the_active_fill_amount_is_there_while_a_fill_is_in_flight() {
    assert_eq!(ensure_active_fill_amount(&taken_order(false)), Ok(200));
    assert_eq!(
        ensure_active_fill_amount(&open_order()),
        Err(ContractError::InvalidOrderStatus)
    );
}

#[test]
fn disputes_need_the_right_status() {
    let awaiting = Order { status: OrderStatus::AwaitingConfirmation, ..taken_order(true) };
    let disputed = Order { status: OrderStatus::Disputed, ..taken_order(true) };
    assert_eq!(ensure_disputable(&awaiting), Ok(()));
    assert_eq!(ensure_disputable(&disputed), Err(ContractError::InvalidOrderStatus));
    assert_eq!(ensure_disputed(&disputed), Ok(()));
    assert_eq!(ensure_disputed(&awaiting), Err(ContractError::InvalidOrderStatus));
}
