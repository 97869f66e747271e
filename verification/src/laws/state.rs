use vstd::prelude::*;
use crate::context::{custody_of_orders, net_custody_change, State};
use crate::error::ContractError;
use crate::laws::order::{custody_change_of, law_new_order_is_well_formed, law_steps_are_sound};
use crate::lifecycle::Step;
use crate::machine::Operation;
use crate::types::{Address, Order, Transfer};

verus! {

/// Storing an order under an id changes what custody holds for the orders
/// below `n` by the difference between the new and the old order where the
/// id is below `n`, and not at all where it is not.
proof fn lemma_custody_of_orders_insert(orders: Map<u64, Order>, n: nat, order: Order)
    requires
        n <= u64::MAX,
    ensures
        custody_of_orders(orders.insert(order.order_id, order), n) == custody_of_orders(orders, n)
            + (if order.order_id < n {
            order.custody() - (if orders.contains_key(order.order_id) {
                orders[order.order_id].custody()
            } else {
                0
            })
        } else {
            0
        }),
    decreases n,
{
    if n > 0 {
        lemma_custody_of_orders_insert(orders, (n - 1) as nat, order);
    }
}

/// One more asset movement changes what the movements add up to by its
/// own change.
proof fn lemma_net_custody_change_push(transfers: Seq<Transfer>, transfer: Option<Transfer>)
    ensures
        net_custody_change(
            match transfer {
                Some(t) => transfers.push(t),
                None => transfers,
            },
        ) == net_custody_change(transfers) + custody_change_of(transfer),
{
    if let Some(t) = transfer {
        assert(transfers.push(t).drop_last() =~= transfers);
    }
}

/// A sound step on a stored order keeps the state well formed and custody
/// balanced.
proof fn lemma_apply_is_sound(s: State, order_id: u64, step: Step)
    requires
        s.wf(),
        s.order(order_id) matches Some(order) && order.steps_soundly(step),
    ensures
        s.apply(step).wf(),
        s.balanced() ==> s.apply(step).balanced(),
{
    if let Ok((next, transfer)) = step {
        let after = s.apply(step);
        assert(next.order_id == order_id);
        assert forall|id: u64| #[trigger] after.orders.contains_key(id) implies {
            &&& after.orders[id].order_id == id
            &&& after.orders[id].wf()
            &&& after.config matches Some(config) && after.orders[id].token == config.token
                && after.orders[id].deadline - after.orders[id].created_at
                <= config.max_duration_secs
        } by {
            if id != order_id {
                assert(s.orders.contains_key(id));
            } else {
                assert(s.orders.contains_key(order_id));
            }
        }
        assert forall|id: u64| #[trigger]
            after.orders.contains_key(id) <==> id < after.next_order_id() by {
            assert(s.orders.contains_key(id) <==> id < s.next_order_id());
            assert(s.orders.contains_key(order_id));
        }
        lemma_custody_of_orders_insert(s.orders, s.next_order_id() as nat, next);
        lemma_net_custody_change_push(s.transfers, transfer);
    }
}

/// Every operation keeps the state well formed. In particular, of every
/// stored order, after every operation: its filled and its remaining
/// amount add up to its amount; and its filler, its fill in flight and its
/// fiat deadline are there exactly while it awaits payment, awaits
/// confirmation or is disputed.
pub proof fn law_operations_keep_state_well_formed(s: State, op: Operation)
    requires
        s.wf(),
        s.admits(op),
    ensures
        s.after(op).wf(),
{
    lemma_operation_is_sound(s, op);
}

/// Every operation keeps custody balanced: what the asset movements asked
/// for so far have left in custody is what the orders account for, the
/// unfilled amount of each order whose creator funded the escrow and the
/// deposit of each fill in flight whose filler did.
pub proof fn law_operations_keep_custody_balanced(s: State, op: Operation)
    requires
        s.wf(),
        s.balanced(),
        s.admits(op),
    ensures
        s.after(op).balanced(),
{
    lemma_operation_is_sound(s, op);
}

proof fn lemma_initialize_is_sound(s: State, op: Operation)
    requires
        s.wf(),
        op is Initialize,
    ensures
        s.effect(op).wf(),
        s.balanced() ==> s.effect(op).balanced(),
{
    if s.outcome(op) is Ok {
        assert(s.next_order_id() == 0);
        assert(s.effect(op).next_order_id() == 0);
        assert(s.effect(op).orders == s.orders);
        assert forall|id: u64| !(#[trigger] s.orders.contains_key(id)) by {}
    }
}

proof fn lemma_set_paused_is_sound(s: State, op: Operation)
    requires
        s.wf(),
        op is Pause || op is Unpause,
    ensures
        s.effect(op).wf(),
        s.balanced() ==> s.effect(op).balanced(),
{
    assert(s.effect(op).orders == s.orders);
    assert(s.effect(op).next_order_id() == s.next_order_id());
}

proof fn lemma_create_order_is_sound(s: State, op: Operation)
    requires
        s.wf(),
        s.admits(op),
        op is CreateOrder,
    ensures
        s.effect(op).wf(),
        s.balanced() ==> s.effect(op).balanced(),
{
    match op {
        Operation::CreateOrder {
            caller,
            fiat_currency,
            payment_method,
            from_crypto,
            amount,
            exchange_rate,
            duration_secs,
        } => {
            let r = s.create_order_result(
                caller,
                fiat_currency,
                payment_method,
                from_crypto,
                amount,
                exchange_rate,
                duration_secs,
            );
            if let Ok(order) = r {
                let after = s.effect(op);
                let n = s.next_order_id();
                law_new_order_is_well_formed(order);
                assert(!s.orders.contains_key(n));
                assert(after.next_order_id() == n + 1);
                assert(after.orders == s.orders.insert(n, order));
                assert forall|id: u64| #[trigger] after.orders.contains_key(id) implies {
                    &&& after.orders[id].order_id == id
                    &&& after.orders[id].wf()
                    &&& after.config matches Some(config) && after.orders[id].token
                        == config.token && after.orders[id].deadline
                        - after.orders[id].created_at <= config.max_duration_secs
                } by {
                    if id != n {
                        assert(s.orders.contains_key(id));
                    }
                }
                assert forall|id: u64| #[trigger]
                    after.orders.contains_key(id) <==> id < after.next_order_id() by {
                    assert(s.orders.contains_key(id) <==> id < n);
                }
                lemma_custody_of_orders_insert(s.orders, n as nat, order);
                lemma_custody_of_orders_insert(s.orders, (n + 1) as nat, order);
                lemma_net_custody_change_push(
                    s.transfers,
                    if from_crypto {
                        Some(Transfer::Deposit { from: caller, amount })
                    } else {
                        None
                    },
                );
            }
        },
        _ => {},
    }
}

impl State {
    /// The order that the operation works on, and the step it takes on it.
    pub open spec fn step_of(self, op: Operation) -> Option<(u64, Step)> {
        match op {
            Operation::CancelOrder { caller, order_id } => Some(
                (order_id, self.cancel_step(caller, order_id)),
            ),
            Operation::TakeOrder { caller, order_id } => Some(
                (order_id, self.take_all_step(caller, order_id)),
            ),
            Operation::TakeOrderWithAmount { caller, order_id, fill_amount } => Some(
                (order_id, self.take_step(caller, order_id, fill_amount)),
            ),
            Operation::SubmitFiatPayment { caller, order_id } => Some(
                (order_id, self.submit_step(caller, order_id)),
            ),
            Operation::ExecuteFiatTransferTimeout { caller, order_id } => Some(
                (order_id, self.timeout_step(caller, order_id)),
            ),
            Operation::ConfirmFiatPayment { caller, order_id } => Some(
                (order_id, self.confirm_step(caller, order_id)),
            ),
            Operation::DisputeFiatPayment { caller, order_id } => Some(
                (order_id, self.dispute_step(caller, order_id)),
            ),
            Operation::ResolveDispute { caller, order_id, fiat_transfer_confirmed } => Some(
                (order_id, self.resolve_step(caller, order_id, fiat_transfer_confirmed)),
            ),
            _ => None,
        }
    }
}

/// An operation on a stored order takes a sound step on that order, and
/// does nothing else.
proof fn lemma_step_of_is_sound(s: State, op: Operation)
    requires
        s.wf(),
    ensures
        s.step_of(op) matches Some((order_id, step)) ==> {
            &&& s.effect(op) == s.apply(step)
            &&& s.outcome(op) is Ok <==> step is Ok
            &&& step is Ok ==> (s.order(order_id) matches Some(order) && order.steps_soundly(
                step,
            ))
        },
{
    match op {
        Operation::CancelOrder { caller, order_id } => {
            if let Some(order) = s.order(order_id) {
                law_steps_are_sound(order, caller, 0, 0, 0, false);
            }
        },
        Operation::TakeOrder { caller, order_id } => {
            if let Some(order) = s.order(order_id) {
                if let Some(config) = s.config {
                    law_steps_are_sound(
                        order,
                        caller,
                        order.remaining_amount,
                        s.timestamp,
                        config.filler_payment_timeout_secs,
                        false,
                    );
                }
            }
        },
        Operation::TakeOrderWithAmount { caller, order_id, fill_amount } => {
            if let Some(order) = s.order(order_id) {
                if let Some(config) = s.config {
                    law_steps_are_sound(
                        order,
                        caller,
                        fill_amount,
                        s.timestamp,
                        config.filler_payment_timeout_secs,
                        false,
                    );
                }
            }
        },
        Operation::SubmitFiatPayment { caller, order_id } => {
            if let Some(order) = s.order(order_id) {
                law_steps_are_sound(order, caller, 0, 0, 0, false);
            }
        },
        Operation::ExecuteFiatTransferTimeout { caller, order_id } => {
            if let Some(order) = s.order(order_id) {
                law_steps_are_sound(order, caller, 0, s.timestamp, 0, false);
            }
        },
        Operation::ConfirmFiatPayment { caller, order_id } => {
            if let Some(order) = s.order(order_id) {
                law_steps_are_sound(order, caller, 0, 0, 0, false);
            }
        },
        Operation::DisputeFiatPayment { caller, order_id } => {
            if let Some(order) = s.order(order_id) {
                law_steps_are_sound(order, caller, 0, 0, 0, false);
            }
        },
        Operation::ResolveDispute { caller, order_id, fiat_transfer_confirmed } => {
            if let Some(order) = s.order(order_id) {
                law_steps_are_sound(order, caller, 0, 0, 0, fiat_transfer_confirmed);
            }
        },
        _ => {},
    }
}

proof fn lemma_operation_is_sound(s: State, op: Operation)
    requires
        s.wf(),
        s.admits(op),
    ensures
        s.after(op).wf(),
        s.balanced() ==> s.after(op).balanced(),
{
    let effect = s.effect(op);
    let after = s.after(op);
    assert(after.config == effect.config && after.order_count == effect.order_count
        && after.orders == effect.orders && after.transfers == effect.transfers);
    match s.step_of(op) {
        Some((order_id, step)) => {
            lemma_step_of_is_sound(s, op);
            if step is Ok {
                lemma_apply_is_sound(s, order_id, step);
            }
        },
        None => {
            if op is Initialize {
                lemma_initialize_is_sound(s, op);
            } else if op is CreateOrder {
                lemma_create_order_is_sound(s, op);
            } else {
                lemma_set_paused_is_sound(s, op);
            }
        },
    }
}

/// At every state that a history of operations can lead to from the
/// beginning, the state is well formed and custody is balanced.
pub proof fn law_every_reachable_state_is_sound(timestamp: u64, history: Seq<(u64, Operation)>)
    requires
        State::genesis(timestamp).admits_all(history),
    ensures
        State::genesis(timestamp).run(history).wf(),
        State::genesis(timestamp).run(history).balanced(),
    decreases history.len(),
{
    let genesis = State::genesis(timestamp);
    if history.len() == 0 {
        assert(genesis.custody_held() == 0);
        assert(genesis.custody_owed() == 0);
    } else {
        law_every_reachable_state_is_sound(timestamp, history.drop_last());
        let before = genesis.run(history.drop_last()).at(history.last().0);
        assert(before.wf());
        assert(before.balanced());
        lemma_operation_is_sound(before, history.last().1);
    }
}

/// An operation leaves one notification where it succeeds and none where
/// it does not, asks for one asset movement at most, and does not touch
/// the time.
pub proof fn law_effects_are_single(s: State, op: Operation)
    ensures
        s.after(op).timestamp == s.timestamp,
        s.after(op).events == (if s.outcome(op) is Ok {
            s.events.push(s.event_of(op))
        } else {
            s.events
        }),
        s.after(op).transfers == s.transfers || (s.after(op).transfers.len() == s.transfers.len()
            + 1 && s.after(op).transfers.drop_last() == s.transfers),
{
    let transfers = s.after(op).transfers;
    if transfers != s.transfers {
        assert(transfers.drop_last() =~= s.transfers);
    }
}

/// An operation that is rejected leaves the state exactly as it was.
pub proof fn law_rejection_changes_nothing(s: State, op: Operation)
    requires
        s.outcome(op) is Err,
    ensures
        s.after(op) == s,
{
}

/// While the system is halted, every operation on orders is rejected as
/// `Paused` and leaves the state as it was.
pub proof fn law_pause_gate(s: State, op: Operation)
    requires
        s.paused(),
        op.concerns_orders(),
    ensures
        s.outcome(op) == Err::<(), ContractError>(ContractError::Paused),
        s.after(op) == s,
{
}

/// Halting the system and letting it run again changes nothing but the
/// notifications: every operation then answers and does as if the system
/// had never been halted.
pub proof fn law_unpause_restores(s: State, caller: Address, op: Operation)
    requires
        s.config matches Some(config) && !config.paused && config.pauser == caller,
    ensures
        s.outcome(Operation::Pause { caller }) is Ok,
        s.after(Operation::Pause { caller }).paused(),
        s.after(Operation::Pause { caller }).outcome(Operation::Unpause { caller }) is Ok,
        ({
            let resumed = s.after(Operation::Pause { caller }).after(Operation::Unpause { caller });
            &&& resumed == State { events: resumed.events, ..s }
            &&& resumed.outcome(op) == s.outcome(op)
            &&& resumed.effect(op) == State { events: resumed.events, ..s.effect(op) }
        }),
{
    let paused = s.after(Operation::Pause { caller });
    let resumed = paused.after(Operation::Unpause { caller });
    assert(resumed == State { events: resumed.events, ..s });
}

/// No operation removes an order, changes the terms of one, or lowers the
/// counter: an id, once given, stays with its order.
pub proof fn law_orders_are_kept(s: State, op: Operation, order_id: u64)
    requires
        s.wf(),
        s.admits(op),
        s.orders.contains_key(order_id),
    ensures
        s.after(op).orders.contains_key(order_id),
        s.after(op).orders[order_id].same_terms(s.orders[order_id]),
        s.after(op).next_order_id() >= s.next_order_id(),
{
    let effect = s.effect(op);
    let after = s.after(op);
    assert(after.order_count == effect.order_count && after.orders == effect.orders);
    assert(s.orders[order_id].order_id == order_id);
    match s.step_of(op) {
        Some((id, step)) => {
            lemma_step_of_is_sound(s, op);
        },
        None => {
            if op is CreateOrder {
                assert(order_id < s.next_order_id());
            }
        },
    }
}

} // verus!
