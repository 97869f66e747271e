use vstd::prelude::*;
use crate::context::{net_custody_change, State};
use crate::laws::flows::{
    law_dispute_confirmed,
    law_dispute_rejected,
    law_fill_round_trip,
    law_timeout_round_trip,
};
use crate::machine::Operation;
use crate::types::{Address, FiatCurrency, OrderStatus, PaymentMethod};

verus! {

impl State {
    /// The system is set up and running, and `order_id` is the id of a
    /// stored order.
    pub open spec fn serves(self, order_id: u64) -> bool {
        &&& self.wf()
        &&& self.gate() is Ok
        &&& self.orders.contains_key(order_id)
    }

    /// The two states agree in all that is stored and in all the asset
    /// movements asked for: they differ, if at all, in the time and in
    /// the notifications.
    pub open spec fn same_books(self, other: State) -> bool {
        &&& self.config == other.config
        &&& self.order_count == other.order_count
        &&& self.orders == other.orders
        &&& self.transfers == other.transfers
    }
}

/// A partial fill, from the creation on: creating an order for an amount,
/// taking less than the amount, attesting and confirming the payment
/// leaves the order open for the rest, with the fill as its filled amount
/// and without a filler.
pub proof fn law_partial_fill_from_creation(
    s: State,
    creator: Address,
    filler: Address,
    fiat_currency: FiatCurrency,
    payment_method: PaymentMethod,
    from_crypto: bool,
    amount: i128,
    exchange_rate: i128,
    duration_secs: u64,
    fill_amount: i128,
    taken_at: u64,
)
    requires
        s.wf(),
        s.gate() matches Ok(config) && duration_secs <= config.max_duration_secs,
        0 < fill_amount < amount,
        0 < exchange_rate,
        filler != creator,
        s.timestamp <= taken_at < s.timestamp + duration_secs <= u64::MAX,
        s.next_order_id() < u64::MAX,
    ensures
        ({
            let order_id = s.next_order_id();
            let sender = if from_crypto {
                filler
            } else {
                creator
            };
            let receiver = if from_crypto {
                creator
            } else {
                filler
            };
            let created = s.after(
                Operation::CreateOrder {
                    caller: creator,
                    fiat_currency,
                    payment_method,
                    from_crypto,
                    amount,
                    exchange_rate,
                    duration_secs,
                },
            ).at(taken_at);
            let taken = created.after(
                Operation::TakeOrderWithAmount { caller: filler, order_id, fill_amount },
            );
            let submitted = taken.after(Operation::SubmitFiatPayment { caller: sender, order_id });
            let confirmed = submitted.after(
                Operation::ConfirmFiatPayment { caller: receiver, order_id },
            );
            &&& created.order(order_id) matches Some(order) && order.remaining_amount == amount
                && order.filled_amount == 0 && order.status is AwaitingFiller
            &&& confirmed.order(order_id) matches Some(order) && {
                &&& order.status is AwaitingFiller
                &&& order.remaining_amount == amount - fill_amount
                &&& order.filled_amount == fill_amount
                &&& order.filler is None
                &&& order.active_fill_amount is None
            }
        }),
{
    let order_id = s.next_order_id();
    let created = s.after(
        Operation::CreateOrder {
            caller: creator,
            fiat_currency,
            payment_method,
            from_crypto,
            amount,
            exchange_rate,
            duration_secs,
        },
    ).at(taken_at);
    let order = created.orders[order_id];
    assert(created.orders.contains_key(order_id));
    assert(order.wf());
    let config = s.config->Some_0;
    law_fill_round_trip(order, filler, fill_amount, taken_at, config.filler_payment_timeout_secs);
}

/// A fill timed out, as the operations do it: taking an order and, once
/// the time for the payment has lapsed, executing the timeout leaves every
/// order as it was before, the remaining and the filled amount of the
/// order taken among them, and custody holding what it held before.
pub proof fn law_timeout_restores_the_books(
    s: State,
    filler: Address,
    order_id: u64,
    fill_amount: i128,
    later: u64,
)
    requires
        s.serves(order_id),
        s.orders[order_id].takable(filler, fill_amount, s.timestamp),
        s.config matches Some(config) && s.timestamp + config.filler_payment_timeout_secs < later,
    ensures
        ({
            let taken = s.after(
                Operation::TakeOrderWithAmount { caller: filler, order_id, fill_amount },
            );
            let back = taken.at(later).after(
                Operation::ExecuteFiatTransferTimeout {
                    caller: s.orders[order_id].fiat_receiver(filler),
                    order_id,
                },
            );
            &&& back.orders == s.orders
            &&& back.order_count == s.order_count
            &&& back.config == s.config
            &&& back.custody_held() == s.custody_held()
            &&& !s.orders[order_id].from_crypto ==> taken.custody_held() == s.custody_held()
                + fill_amount
        }),
{
    let order = s.orders[order_id];
    let config = s.config->Some_0;
    law_timeout_round_trip(
        order,
        filler,
        fill_amount,
        s.timestamp,
        config.filler_payment_timeout_secs,
        later,
    );
    let taken = s.after(Operation::TakeOrderWithAmount { caller: filler, order_id, fill_amount });
    let back = taken.at(later).after(
        Operation::ExecuteFiatTransferTimeout { caller: order.fiat_receiver(filler), order_id },
    );
    assert(back.orders =~= s.orders);
    reveal_with_fuel(net_custody_change, 3);
    if !order.from_crypto {
        assert(taken.transfers.drop_last() =~= s.transfers);
        assert(back.transfers.drop_last() =~= taken.transfers);
    }
}

/// A dispute that the arbiter decides for the payer ends as the
/// confirmation would have that was never contested: the same orders and
/// the same asset movements, so the same balances.
pub proof fn law_dispute_confirmed_is_confirmation(s: State, order_id: u64)
    requires
        s.serves(order_id),
        s.orders[order_id].status is AwaitingConfirmation,
    ensures
        ({
            let order = s.orders[order_id];
            let receiver = order.fiat_receiver(order.filler->Some_0);
            let arbiter = s.config->Some_0.dispute_resolver;
            let direct = s.after(Operation::ConfirmFiatPayment { caller: receiver, order_id });
            let contested = s.after(
                Operation::DisputeFiatPayment { caller: receiver, order_id },
            ).after(
                Operation::ResolveDispute {
                    caller: arbiter,
                    order_id,
                    fiat_transfer_confirmed: true,
                },
            );
            &&& s.outcome(Operation::ConfirmFiatPayment { caller: receiver, order_id }) is Ok
            &&& contested.same_books(direct)
        }),
{
    let order = s.orders[order_id];
    assert(order.wf());
    let filler = order.filler->Some_0;
    let receiver = order.fiat_receiver(filler);
    let disputed = s.after(Operation::DisputeFiatPayment { caller: receiver, order_id });
    assert(disputed.orders[order_id] == order.with_status(OrderStatus::Disputed));
    law_dispute_confirmed(order.with_status(OrderStatus::Disputed), filler);
    let arbiter = s.config->Some_0.dispute_resolver;
    let direct = s.after(Operation::ConfirmFiatPayment { caller: receiver, order_id });
    let contested = disputed.after(
        Operation::ResolveDispute { caller: arbiter, order_id, fiat_transfer_confirmed: true },
    );
    assert(contested.orders =~= direct.orders);
}

/// A dispute that the arbiter decides against the payer ends as the
/// timeout would have, had the payer never attested the payment: the same
/// orders and the same asset movements, so the same balances.
pub proof fn law_dispute_rejected_is_timeout(s: State, order_id: u64)
    requires
        s.serves(order_id),
        s.orders[order_id].status is AwaitingPayment,
        s.orders[order_id].fiat_transfer_deadline matches Some(deadline) && deadline
            < s.timestamp,
    ensures
        ({
            let order = s.orders[order_id];
            let sender = order.fiat_sender(order.filler->Some_0);
            let receiver = order.fiat_receiver(order.filler->Some_0);
            let arbiter = s.config->Some_0.dispute_resolver;
            let direct = s.after(
                Operation::ExecuteFiatTransferTimeout { caller: receiver, order_id },
            );
            let contested = s.after(Operation::SubmitFiatPayment { caller: sender, order_id }).after(
                Operation::DisputeFiatPayment { caller: receiver, order_id },
            ).after(
                Operation::ResolveDispute {
                    caller: arbiter,
                    order_id,
                    fiat_transfer_confirmed: false,
                },
            );
            &&& s.outcome(Operation::ExecuteFiatTransferTimeout { caller: receiver, order_id })
                is Ok
            &&& contested.same_books(direct)
        }),
{
    let order = s.orders[order_id];
    assert(order.wf());
    let filler = order.filler->Some_0;
    let sender = order.fiat_sender(filler);
    let receiver = order.fiat_receiver(filler);
    let submitted = s.after(Operation::SubmitFiatPayment { caller: sender, order_id });
    assert(submitted.orders[order_id] == order.with_status(OrderStatus::AwaitingConfirmation));
    let disputed = submitted.after(Operation::DisputeFiatPayment { caller: receiver, order_id });
    assert(disputed.orders[order_id] == order.with_status(OrderStatus::Disputed));
    law_dispute_rejected(order.with_status(OrderStatus::Disputed), filler, s.timestamp);
    let arbiter = s.config->Some_0.dispute_resolver;
    let direct = s.after(Operation::ExecuteFiatTransferTimeout { caller: receiver, order_id });
    let contested = disputed.after(
        Operation::ResolveDispute { caller: arbiter, order_id, fiat_transfer_confirmed: false },
    );
    assert(contested.orders =~= direct.orders);
}

} // verus!
