use vstd::prelude::*;
use crate::admin::AdminManager;
use crate::context::{Context, State};
use crate::error::ContractError;
use crate::lifecycle::Step;
use crate::order::{order_of, OrderManager};
use crate::types::{Address, Order, OrderStatus};
use crate::validators::admin::{ensure_dispute_resolver, ensure_not_paused};
use crate::validators::dispute::{ensure_disputable, ensure_disputed};
use crate::validators::order::{ensure_active_fill_amount, ensure_fiat_receiver};

verus! {

impl State {
    /// What `dispute_fiat_payment` does to the order `order_id`.
    pub open spec fn dispute_step(self, caller: Address, order_id: u64) -> Step {
        match self.lookup(order_id) {
            Err(e) => Err(e),
            Ok((_, order)) => order.dispute_step(caller),
        }
    }

    /// What `resolve_dispute` does to the order `order_id`: while the
    /// system runs, only the configured arbiter decides, and only on an
    /// order that is there.
    pub open spec fn resolve_step(
        self,
        caller: Address,
        order_id: u64,
        fiat_transfer_confirmed: bool,
    ) -> Step {
        match self.gate() {
            Err(e) => Err(e),
            Ok(config) => if caller != config.dispute_resolver {
                Err(ContractError::Unauthorized)
            } else {
                match self.order(order_id) {
                    None => Err(ContractError::OrderNotFound),
                    Some(order) => order.resolve_step(fiat_transfer_confirmed),
                }
            },
        }
    }
}

/// The dispute manager: it takes an order into dispute and out of it.
pub struct DisputeManager;

impl DisputeManager {
    /// Contests the attestation that the off-chain payment was made. The
    /// fill stays locked.
    pub fn dispute_fiat_payment(e: &mut Context, caller: Address, order_id: u64) -> (res: Result<
        Order,
        ContractError,
    >)
        ensures
            res == order_of(old(e)@.dispute_step(caller, order_id)),
            final(e)@ == old(e)@.apply(old(e)@.dispute_step(caller, order_id)),
            res is Err ==> *final(e) == *old(e),
    {
        let config = AdminManager::get_config(e)?;
        ensure_not_paused(&config)?;

        let mut order = OrderManager::get_order(e, order_id)?;
        ensure_disputable(&order)?;
        ensure_fiat_receiver(&order, &caller)?;

        order.status = OrderStatus::Disputed;
        OrderManager::commit(e, &order, None);
        Ok(order)
    }

    /// The arbiter's decision on a disputed order: the fill is settled
    /// where `fiat_transfer_confirmed` holds, undone where it does not.
    pub fn resolve_dispute(
        e: &mut Context,
        caller: Address,
        order_id: u64,
        fiat_transfer_confirmed: bool,
    ) -> (res: Result<Order, ContractError>)
        ensures
            res == order_of(old(e)@.resolve_step(caller, order_id, fiat_transfer_confirmed)),
            final(e)@ == old(e)@.apply(
                old(e)@.resolve_step(caller, order_id, fiat_transfer_confirmed),
            ),
            res is Err ==> *final(e) == *old(e),
    {
        let config = AdminManager::get_config(e)?;
        ensure_not_paused(&config)?;
        ensure_dispute_resolver(&config, &caller)?;

        let order = OrderManager::get_order(e, order_id)?;
        ensure_disputed(&order)?;
        let active_fill_amount = ensure_active_fill_amount(&order)?;

        let (order, transfer) = if fiat_transfer_confirmed {
            order.settle(active_fill_amount)?
        } else {
            order.unwind(active_fill_amount)?
        };
        OrderManager::commit(e, &order, transfer);
        Ok(order)
    }
}

} // verus!
