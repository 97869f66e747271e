use vstd::prelude::*;
use crate::error::ContractError;
use crate::lifecycle::Step;
use crate::types::{Address, Order, Transfer};

verus! {

/// By how much the asset movement of a step changes what custody holds.
pub open spec fn custody_change_of(transfer: Option<Transfer>) -> int {
    match transfer {
        Some(t) => t.custody_change(),
        None => 0,
    }
}

impl Order {
    /// The two orders agree in all that is fixed when an order is created.
    pub open spec fn same_terms(self, other: Order) -> bool {
        &&& self.order_id == other.order_id
        &&& self.creator == other.creator
        &&& self.token == other.token
        &&& self.amount == other.amount
        &&& self.exchange_rate == other.exchange_rate
        &&& self.from_crypto == other.from_crypto
        &&& self.fiat_currency == other.fiat_currency
        &&& self.payment_method == other.payment_method
        &&& self.created_at == other.created_at
        &&& self.deadline == other.deadline
    }

    /// `step` is a sound step from this order: where it succeeds, the
    /// order it gives is well formed and has the same terms, custody holds
    /// for it what it held before changed by the step's asset movement, and
    /// that movement, if there is one, is of a positive amount.
    pub open spec fn steps_soundly(self, step: Step) -> bool {
        step matches Ok((next, transfer)) ==> {
            &&& next.wf()
            &&& next.same_terms(self)
            &&& next.custody() == self.custody() + custody_change_of(transfer)
            &&& transfer matches Some(t) ==> 0 < t.amount_spec()
        }
    }
}

/// A new order is well formed, and custody holds for it exactly what its
/// creator deposits: the whole amount where the creator funds the escrow,
/// nothing where the filler will.
pub proof fn law_new_order_is_well_formed(order: Order)
    requires
        0 < order.amount,
        0 < order.exchange_rate,
        order.created_at <= order.deadline,
        order.status is AwaitingFiller,
        order.remaining_amount == order.amount,
        order.filled_amount == 0,
        order.filler is None,
        order.active_fill_amount is None,
        order.fiat_transfer_deadline is None,
    ensures
        order.wf(),
        order.custody() == (if order.from_crypto {
            order.amount as int
        } else {
            0
        }),
{
}

/// Every step of an order's life keeps it well formed: the filled and the
/// remaining amount add up to the amount; a filler, a fill in flight and a
/// fiat deadline are there exactly while the order awaits payment, awaits
/// confirmation or is disputed. Every step also keeps custody in line:
/// what custody holds for the order changes by the asset movement of the
/// step and by nothing else.
pub proof fn law_steps_are_sound(
    order: Order,
    caller: Address,
    fill_amount: i128,
    now: u64,
    timeout_secs: u64,
    fiat_transfer_confirmed: bool,
)
    requires
        order.wf(),
    ensures
        order.steps_soundly(order.cancel_step(caller)),
        order.steps_soundly(order.take_step(caller, fill_amount, now, timeout_secs)),
        order.steps_soundly(order.submit_step(caller)),
        order.steps_soundly(order.timeout_step(caller, now)),
        order.steps_soundly(order.confirm_step(caller)),
        order.steps_soundly(order.dispute_step(caller)),
        order.steps_soundly(order.resolve_step(fiat_transfer_confirmed)),
{
}

/// On a well-formed order the guards on the arithmetic of a settlement
/// never fire: neither `Overflow` nor `Underflow` nor `MissingFiller`
/// comes out of confirming a payment or of resolving a dispute.
pub proof fn law_settlement_guards_are_idle(
    order: Order,
    caller: Address,
    fiat_transfer_confirmed: bool,
)
    requires
        order.wf(),
    ensures
        order.confirm_step(caller) matches Err(e) ==> e == ContractError::InvalidOrderStatus || e
            == ContractError::Unauthorized,
        order.resolve_step(fiat_transfer_confirmed) matches Err(e) ==> e
            == ContractError::InvalidOrderStatus,
{
}

} // verus!
