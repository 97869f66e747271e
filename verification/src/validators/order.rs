use vstd::prelude::*;
use crate::error::ContractError;
use crate::types::{Address, Config, Order, OrderStatus};

verus! {

/// What `validate_create_order` answers: the first of the three checks that
/// fails names the error.
pub open spec fn create_order_verdict(
    amount: i128,
    exchange_rate: i128,
    duration_secs: u64,
    config: Config,
) -> Result<(), ContractError> {
    if amount <= 0 {
        Err(ContractError::InvalidAmount)
    } else if exchange_rate <= 0 {
        Err(ContractError::InvalidExchangeRate)
    } else if duration_secs > config.max_duration_secs {
        Err(ContractError::InvalidDuration)
    } else {
        Ok(())
    }
}

/// What `validate_fill_amount` answers.
pub open spec fn fill_amount_verdict(order: Order, fill_amount: i128) -> Result<
    (),
    ContractError,
> {
    if fill_amount <= 0 {
        Err(ContractError::InvalidAmount)
    } else if fill_amount > order.remaining_amount {
        Err(ContractError::InvalidFillAmount)
    } else {
        Ok(())
    }
}

/// What `ensure_fiat_timeout_expired` answers.
pub open spec fn fiat_timeout_verdict(order: Order, now: u64) -> Result<(), ContractError> {
    match order.fiat_transfer_deadline {
        None => Err(ContractError::InvalidOrderStatus),
        Some(deadline) => if deadline >= now {
            Err(ContractError::FiatTransferHasNotExpired)
        } else {
            Ok(())
        },
    }
}

/// What `ensure_filler` answers.
pub open spec fn filler_verdict(order: Order, caller: Address) -> Result<(), ContractError> {
    match order.filler {
        None => Err(ContractError::MissingFiller),
        Some(filler) => if filler == caller {
            Ok(())
        } else {
            Err(ContractError::Unauthorized)
        },
    }
}

/// The amount and the exchange rate must be positive, and the duration
/// within the configured maximum.
pub fn validate_create_order(
    amount: i128,
    exchange_rate: i128,
    duration_secs: u64,
    config: &Config,
) -> (r: Result<(), ContractError>)
    ensures
        r == create_order_verdict(amount, exchange_rate, duration_secs, *config),
{
    if amount <= 0 {
        return Err(ContractError::InvalidAmount);
    }
    if exchange_rate <= 0 {
        return Err(ContractError::InvalidExchangeRate);
    }
    if duration_secs > config.max_duration_secs {
        return Err(ContractError::InvalidDuration);
    }
    Ok(())
}

/// The order must be in the expected status.
pub fn ensure_status(order: &Order, expected: OrderStatus) -> (r: Result<(), ContractError>)
    ensures
        r == (if order.status == expected {
            Ok::<(), ContractError>(())
        } else {
            Err::<(), ContractError>(ContractError::InvalidOrderStatus)
        }),
{
    if order.status != expected {
        return Err(ContractError::InvalidOrderStatus);
    }
    Ok(())
}

/// Only the order's creator passes.
pub fn ensure_creator(order: &Order, caller: &Address) -> (r: Result<(), ContractError>)
    ensures
        r == (if *caller == order.creator {
            Ok::<(), ContractError>(())
        } else {
            Err::<(), ContractError>(ContractError::Unauthorized)
        }),
{
    if *caller != order.creator {
        return Err(ContractError::Unauthorized);
    }
    Ok(())
}

/// Everyone but the order's creator passes.
pub fn ensure_not_creator(order: &Order, caller: &Address) -> (r: Result<(), ContractError>)
    ensures
        r == (if *caller != order.creator {
            Ok::<(), ContractError>(())
        } else {
            Err::<(), ContractError>(ContractError::Unauthorized)
        }),
{
    if *caller == order.creator {
        return Err(ContractError::Unauthorized);
    }
    Ok(())
}

/// The order's deadline must lie after `now`.
pub fn ensure_not_expired(order: &Order, now: u64) -> (r: Result<(), ContractError>)
    ensures
        r == (if now < order.deadline {
            Ok::<(), ContractError>(())
        } else {
            Err::<(), ContractError>(ContractError::OrderExpired)
        }),
{
    if order.deadline <= now {
        return Err(ContractError::OrderExpired);
    }
    Ok(())
}

/// The order must have a fiat-transfer deadline, and it must lie before
/// `now`.
pub fn ensure_fiat_timeout_expired(order: &Order, now: u64) -> (r: Result<(), ContractError>)
    ensures
        r == fiat_timeout_verdict(*order, now),
{
    let deadline = match order.fiat_transfer_deadline {
        Some(deadline) => deadline,
        None => {
            return Err(ContractError::InvalidOrderStatus);
        },
    };
    if deadline >= now {
        return Err(ContractError::FiatTransferHasNotExpired);
    }
    Ok(())
}

/// Only the order's current filler passes; an order without a filler has
/// an error of its own.
pub fn ensure_filler(order: &Order, caller: &Address) -> (r: Result<(), ContractError>)
    ensures
        r == filler_verdict(*order, *caller),
{
    match &order.filler {
        Some(filler) => {
            if *filler == *caller {
                Ok(())
            } else {
                Err(ContractError::Unauthorized)
            }
        },
        None => Err(ContractError::MissingFiller),
    }
}

/// Only the party that owes the off-chain payment passes.
pub fn ensure_fiat_sender(order: &Order, caller: &Address) -> (r: Result<(), ContractError>)
    ensures
        r == order.fiat_sender_verdict(*caller),
{
    if order.from_crypto {
        ensure_filler(order, caller)
    } else {
        ensure_creator(order, caller)
    }
}

/// Only the party that is due the off-chain payment passes.
pub fn ensure_fiat_receiver(order: &Order, caller: &Address) -> (r: Result<(), ContractError>)
    ensures
        r == order.fiat_receiver_verdict(*caller),
{
    if order.from_crypto {
        ensure_creator(order, caller)
    } else {
        ensure_filler(order, caller)
    }
}

/// A fill must be positive and within what is left of the order.
pub fn validate_fill_amount(order: &Order, fill_amount: i128) -> (r: Result<(), ContractError>)
    ensures
        r == fill_amount_verdict(*order, fill_amount),
{
    if fill_amount <= 0 {
        return Err(ContractError::InvalidAmount);
    }
    if fill_amount > order.remaining_amount {
        return Err(ContractError::InvalidFillAmount);
    }
    Ok(())
}

/// The amount of the fill in flight; an order without one is not in a
/// status that has one.
pub fn ensure_active_fill_amount(order: &Order) -> (r: Result<i128, ContractError>)
    ensures
        r == match order.active_fill_amount {
            Some(fill) => Ok::<i128, ContractError>(fill),
            None => Err::<i128, ContractError>(ContractError::InvalidOrderStatus),
        },
{
    match order.active_fill_amount {
        Some(fill) => Ok(fill),
        None => Err(ContractError::InvalidOrderStatus),
    }
}

} // verus!
