use vstd::prelude::*;
use crate::error::ContractError;
use crate::types::{Order, OrderStatus};

verus! {

/// A payment can be disputed only while it awaits confirmation.
pub fn ensure_disputable(order: &Order) -> (r: Result<(), ContractError>)
    ensures
        r == (if order.status is AwaitingConfirmation {
            Ok::<(), ContractError>(())
        } else {
            Err::<(), ContractError>(ContractError::InvalidOrderStatus)
        }),
{
    if order.status != OrderStatus::AwaitingConfirmation {
        return Err(ContractError::InvalidOrderStatus);
    }
    Ok(())
}

/// A dispute can be resolved only while the order is disputed.
pub fn ensure_disputed(order: &Order) -> (r: Result<(), ContractError>)
    ensures
        r == (if order.status is Disputed {
            Ok::<(), ContractError>(())
        } else {
            Err::<(), ContractError>(ContractError::InvalidOrderStatus)
        }),
{
    if order.status != OrderStatus::Disputed {
        return Err(ContractError::InvalidOrderStatus);
    }
    Ok(())
}

} // verus!
