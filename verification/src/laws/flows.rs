use vstd::prelude::*;
use crate::error::ContractError;
use crate::laws::order::custody_change_of;
use crate::lifecycle::Step;
use crate::types::{Address, Order, OrderStatus, Transfer};

verus! {

impl Order {
    /// The party that owes the off-chain payment once `filler` has taken
    /// the order.
    pub open spec fn fiat_sender(self, filler: Address) -> Address {
        if self.from_crypto {
            filler
        } else {
            self.creator
        }
    }

    /// The party that is due the off-chain payment once `filler` has taken
    /// the order.
    pub open spec fn fiat_receiver(self, filler: Address) -> Address {
        if self.from_crypto {
            self.creator
        } else {
            filler
        }
    }

    /// `filler` can take `fill_amount` of the order at time `now`.
    pub open spec fn takable(self, filler: Address, fill_amount: i128, now: u64) -> bool {
        &&& self.wf()
        &&& self.status is AwaitingFiller
        &&& filler != self.creator
        &&& now < self.deadline
        &&& 0 < fill_amount <= self.remaining_amount
    }

    /// The order after `filler` has taken `fill_amount` of it, the payer
    /// has attested the payment and the payee has confirmed it.
    pub open spec fn filled_by(
        self,
        filler: Address,
        fill_amount: i128,
        now: u64,
        timeout_secs: u64,
    ) -> Step {
        match self.take_step(filler, fill_amount, now, timeout_secs) {
            Err(e) => Err(e),
            Ok((taken, _)) => match taken.submit_step(self.fiat_sender(filler)) {
                Err(e) => Err(e),
                Ok((submitted, _)) => submitted.confirm_step(self.fiat_receiver(filler)),
            },
        }
    }

    /// The order after the fills of `fills`, one after the other, each
    /// taken by `filler` and carried through to its confirmation; the
    /// order itself where one of them is rejected.
    pub open spec fn filled_in_turn(
        self,
        filler: Address,
        fills: Seq<i128>,
        now: u64,
        timeout_secs: u64,
    ) -> Order
        decreases fills.len(),
    {
        if fills.len() == 0 {
            self
        } else {
            let before = self.filled_in_turn(filler, fills.drop_last(), now, timeout_secs);
            match before.filled_by(filler, fills.last(), now, timeout_secs) {
                Ok((after, _)) => after,
                Err(_) => before,
            }
        }
    }
}

/// The sum of the amounts.
pub open spec fn total(fills: Seq<i128>) -> int
    decreases fills.len(),
{
    if fills.len() == 0 {
        0
    } else {
        total(fills.drop_last()) + fills.last()
    }
}

/// A fill carried through: taking an amount of an open order, attesting
/// the payment and confirming it moves that amount from remaining to
/// filled, hands it to the party that paid off-chain, and leaves no trace
/// of the filler. The order is then complete where nothing remains, and
/// open again for the rest where something does.
pub proof fn law_fill_round_trip(
    order: Order,
    filler: Address,
    fill_amount: i128,
    now: u64,
    timeout_secs: u64,
)
    requires
        order.takable(filler, fill_amount, now),
    ensures
        order.filled_by(filler, fill_amount, now, timeout_secs) matches Ok((after, transfer)) && {
            &&& after == Order {
                remaining_amount: (order.remaining_amount - fill_amount) as i128,
                filled_amount: (order.filled_amount + fill_amount) as i128,
                status: after.status,
                ..order
            }
            &&& after.filler is None && after.active_fill_amount is None
            &&& fill_amount < order.remaining_amount ==> after.status is AwaitingFiller
            &&& fill_amount == order.remaining_amount ==> after.status is Completed
                && after.filled_amount == order.amount
            &&& transfer == Some(
                Transfer::Release { to: order.fiat_sender(filler), amount: fill_amount },
            )
            &&& after.wf()
        },
{
}

/// Fills repeated until nothing remains: as long as the fills carried
/// through add up to less than what remained, the order is open; when
/// they add up to all of it, the order is complete and filled with its
/// whole amount. So an order completes once, with the last fill.
pub proof fn law_fills_complete_once(
    order: Order,
    filler: Address,
    fills: Seq<i128>,
    now: u64,
    timeout_secs: u64,
)
    requires
        order.takable(filler, 1, now),
        forall|i: int| 0 <= i < fills.len() ==> 0 < #[trigger] fills[i],
        total(fills) <= order.remaining_amount,
    ensures
        ({
            let after = order.filled_in_turn(filler, fills, now, timeout_secs);
            &&& after.wf()
            &&& after.filled_amount == order.filled_amount + total(fills)
            &&& after.remaining_amount == order.remaining_amount - total(fills)
            &&& after.status is Completed <==> total(fills) == order.remaining_amount
            &&& after.status is AwaitingFiller <==> total(fills) < order.remaining_amount
            &&& after.status is Completed ==> after.filled_amount == order.amount
        }),
    decreases fills.len(),
{
    if fills.len() > 0 {
        let earlier = fills.drop_last();
        assert forall|i: int| 0 <= i < earlier.len() implies 0 < #[trigger] earlier[i] by {
            assert(earlier[i] == fills[i]);
        }
        assert(0 < fills[fills.len() - 1]);
        law_fills_complete_once(order, filler, earlier, now, timeout_secs);
        let before = order.filled_in_turn(filler, earlier, now, timeout_secs);
        lemma_fills_keep_terms(order, filler, earlier, now, timeout_secs);
        law_fill_round_trip(before, filler, fills.last(), now, timeout_secs);
    }
}

proof fn lemma_fills_keep_terms(
    order: Order,
    filler: Address,
    fills: Seq<i128>,
    now: u64,
    timeout_secs: u64,
)
    ensures
        order.filled_in_turn(filler, fills, now, timeout_secs).same_terms(order),
    decreases fills.len(),
{
    if fills.len() > 0 {
        lemma_fills_keep_terms(order, filler, fills.drop_last(), now, timeout_secs);
    }
}

/// An order that is complete, cancelled or refunded stays so: every step
/// on it is rejected for its status.
pub proof fn law_final_orders_stay(
    order: Order,
    caller: Address,
    fill_amount: i128,
    now: u64,
    timeout_secs: u64,
    fiat_transfer_confirmed: bool,
)
    requires
        order.status is Completed || order.status is Cancelled || order.status is Refunded,
    ensures
        order.cancel_step(caller) == Err::<(Order, Option<Transfer>), _>(
            ContractError::InvalidOrderStatus,
        ),
        order.take_step(caller, fill_amount, now, timeout_secs) == Err::<
            (Order, Option<Transfer>),
            _,
        >(ContractError::InvalidOrderStatus),
        order.submit_step(caller) == Err::<(Order, Option<Transfer>), _>(
            ContractError::InvalidOrderStatus,
        ),
        order.timeout_step(caller, now) == Err::<(Order, Option<Transfer>), _>(
            ContractError::InvalidOrderStatus,
        ),
        order.confirm_step(caller) == Err::<(Order, Option<Transfer>), _>(
            ContractError::InvalidOrderStatus,
        ),
        order.dispute_step(caller) == Err::<(Order, Option<Transfer>), _>(
            ContractError::InvalidOrderStatus,
        ),
        order.resolve_step(fiat_transfer_confirmed) == Err::<(Order, Option<Transfer>), _>(
            ContractError::InvalidOrderStatus,
        ),
{
}

/// A fill timed out: taking an amount of an open order and, once the time
/// for the payment has lapsed, having the fill undone gives back the order
/// exactly as it was before it was taken. A deposit that the filler made
/// goes back to the filler in full, so that custody holds what it held
/// before; and whoever could take the order before can take it again, as
/// long as its own deadline has not passed.
pub proof fn law_timeout_round_trip(
    order: Order,
    filler: Address,
    fill_amount: i128,
    now: u64,
    timeout_secs: u64,
    later: u64,
)
    requires
        order.takable(filler, fill_amount, now),
        now + timeout_secs < later,
    ensures
        order.take_step(filler, fill_amount, now, timeout_secs) matches Ok((taken, deposit)) && {
            &&& deposit == (if order.from_crypto {
                None
            } else {
                Some(Transfer::Deposit { from: filler, amount: fill_amount })
            })
            &&& taken.timeout_step(order.fiat_receiver(filler), later) matches Ok((back, refund))
                && {
                &&& back == order
                &&& refund == (if order.from_crypto {
                    None
                } else {
                    Some(Transfer::Release { to: filler, amount: fill_amount })
                })
                &&& custody_change_of(deposit) + custody_change_of(refund) == 0
                &&& forall|taker: Address, amount: i128|
                    order.takable(taker, amount, later) ==> #[trigger] back.take_step(
                        taker,
                        amount,
                        later,
                        timeout_secs,
                    ) is Ok
            }
        },
{
}

/// Until the time for the payment has lapsed, a fill cannot be undone.
pub proof fn law_timeout_not_before_deadline(
    order: Order,
    filler: Address,
    fill_amount: i128,
    now: u64,
    timeout_secs: u64,
    later: u64,
    caller: Address,
)
    requires
        order.takable(filler, fill_amount, now),
        later <= now + timeout_secs <= u64::MAX,
    ensures
        order.take_step(filler, fill_amount, now, timeout_secs) matches Ok((taken, _))
            && taken.timeout_step(caller, later) == Err::<(Order, Option<Transfer>), _>(
            ContractError::FiatTransferHasNotExpired,
        ),
{
}

/// Out of a dispute by settlement: where the arbiter finds the payment
/// made, the order and the asset movement are those of a confirmation that
/// was never contested.
pub proof fn law_dispute_confirmed(order: Order, filler: Address)
    requires
        order.wf(),
        order.status is Disputed,
        order.filler == Some(filler),
    ensures
        order.resolve_step(true) is Ok,
        order.resolve_step(true) == order.with_status(
            OrderStatus::AwaitingConfirmation,
        ).confirm_step(order.fiat_receiver(filler)),
{
}

/// Out of a dispute by unwinding: where the arbiter finds the payment not
/// made, the order and the asset movement are those of a fill undone after
/// its time for the payment had lapsed.
pub proof fn law_dispute_rejected(order: Order, filler: Address, now: u64)
    requires
        order.wf(),
        order.status is Disputed,
        order.filler == Some(filler),
        order.fiat_transfer_deadline matches Some(deadline) && deadline < now,
    ensures
        order.resolve_step(false) is Ok,
        order.resolve_step(false) == order.with_status(OrderStatus::AwaitingPayment).timeout_step(
            order.fiat_receiver(filler),
            now,
        ),
{
}

} // verus!
