use vstd::prelude::*;
use crate::context::State;
use crate::error::ContractError;
use crate::events::{
    DisputeResolved,
    Event,
    FiatPaymentConfirmed,
    FiatPaymentDisputed,
    FiatPaymentSubmitted,
    FiatTransferTimeout,
    Initialized,
    OrderCancelled,
    OrderCreated,
    OrderTaken,
    PausedEvt,
    UnpausedEvt,
};
use crate::types::{Address, FiatCurrency, PaymentMethod};

verus! {

/// One call of an operation that can change the state, with its arguments.
#[derive(Clone, Copy, Debug, PartialEq, Eq)]
pub enum Operation {
    Initialize {
        admin: Address,
        dispute_resolver: Address,
        pauser: Address,
        token: Address,
        max_duration_secs: u64,
        filler_payment_timeout_secs: u64,
    },
    Pause { caller: Address },
    Unpause { caller: Address },
    CreateOrder {
        caller: Address,
        fiat_currency: FiatCurrency,
        payment_method: PaymentMethod,
        from_crypto: bool,
        amount: i128,
        exchange_rate: i128,
        duration_secs: u64,
    },
    CancelOrder { caller: Address, order_id: u64 },
    TakeOrder { caller: Address, order_id: u64 },
    TakeOrderWithAmount { caller: Address, order_id: u64, fill_amount: i128 },
    SubmitFiatPayment { caller: Address, order_id: u64 },
    ExecuteFiatTransferTimeout { caller: Address, order_id: u64 },
    ConfirmFiatPayment { caller: Address, order_id: u64 },
    DisputeFiatPayment { caller: Address, order_id: u64 },
    ResolveDispute { caller: Address, order_id: u64, fiat_transfer_confirmed: bool },
}

/// The outcome without what it carries.
pub open spec fn unit_of<T>(r: Result<T, ContractError>) -> Result<(), ContractError> {
    match r {
        Ok(_) => Ok(()),
        Err(e) => Err(e),
    }
}

impl Operation {
    /// The operation works on orders, and so has to pass the pause gate.
    pub open spec fn concerns_orders(self) -> bool {
        !(self is Initialize || self is Pause || self is Unpause)
    }
}

impl State {
    /// The state before anything has happened, at time `timestamp`.
    pub open spec fn genesis(timestamp: u64) -> State {
        State {
            timestamp,
            config: None,
            order_count: None,
            orders: Map::empty(),
            transfers: Seq::empty(),
            events: Seq::empty(),
        }
    }

    /// What the operation answers in this state.
    pub open spec fn outcome(self, op: Operation) -> Result<(), ContractError> {
        match op {
            Operation::Initialize {
                admin,
                dispute_resolver,
                pauser,
                token,
                max_duration_secs,
                filler_payment_timeout_secs,
            } => unit_of(
                self.initialize_result(
                    admin,
                    dispute_resolver,
                    pauser,
                    token,
                    max_duration_secs,
                    filler_payment_timeout_secs,
                ),
            ),
            Operation::Pause { caller } => self.set_paused_result(caller, true),
            Operation::Unpause { caller } => self.set_paused_result(caller, false),
            Operation::CreateOrder {
                caller,
                fiat_currency,
                payment_method,
                from_crypto,
                amount,
                exchange_rate,
                duration_secs,
            } => unit_of(
                self.create_order_result(
                    caller,
                    fiat_currency,
                    payment_method,
                    from_crypto,
                    amount,
                    exchange_rate,
                    duration_secs,
                ),
            ),
            Operation::CancelOrder { caller, order_id } => unit_of(
                self.cancel_step(caller, order_id),
            ),
            Operation::TakeOrder { caller, order_id } => unit_of(
                self.take_all_step(caller, order_id),
            ),
            Operation::TakeOrderWithAmount { caller, order_id, fill_amount } => unit_of(
                self.take_step(caller, order_id, fill_amount),
            ),
            Operation::SubmitFiatPayment { caller, order_id } => unit_of(
                self.submit_step(caller, order_id),
            ),
            Operation::ExecuteFiatTransferTimeout { caller, order_id } => unit_of(
                self.timeout_step(caller, order_id),
            ),
            Operation::ConfirmFiatPayment { caller, order_id } => unit_of(
                self.confirm_step(caller, order_id),
            ),
            Operation::DisputeFiatPayment { caller, order_id } => unit_of(
                self.dispute_step(caller, order_id),
            ),
            Operation::ResolveDispute { caller, order_id, fiat_transfer_confirmed } => unit_of(
                self.resolve_step(caller, order_id, fiat_transfer_confirmed),
            ),
        }
    }

    /// The notification that the operation leaves where it succeeds in
    /// this state.
    pub open spec fn event_of(self, op: Operation) -> Event {
        match op {
            Operation::Initialize { admin, dispute_resolver, pauser, token, .. } => {
                Event::Initialized(Initialized { admin, dispute_resolver, pauser, token })
            },
            Operation::Pause { caller } => Event::Paused(PausedEvt { by: caller }),
            Operation::Unpause { caller } => Event::Unpaused(UnpausedEvt { by: caller }),
            Operation::CreateOrder { caller, from_crypto, amount, .. } => Event::OrderCreated(
                OrderCreated {
                    order_id: self.next_order_id(),
                    creator: caller,
                    amount,
                    from_crypto,
                },
            ),
            Operation::CancelOrder { caller, order_id } => Event::OrderCancelled(
                OrderCancelled { order_id, cancelled_by: caller },
            ),
            Operation::TakeOrder { caller, order_id } => Event::OrderTaken(
                OrderTaken { order_id, filler: caller },
            ),
            Operation::TakeOrderWithAmount { caller, order_id, .. } => Event::OrderTaken(
                OrderTaken { order_id, filler: caller },
            ),
            Operation::SubmitFiatPayment { caller, order_id } => Event::FiatPaymentSubmitted(
                FiatPaymentSubmitted { order_id, submitted_by: caller },
            ),
            Operation::ExecuteFiatTransferTimeout { caller, order_id } => {
                Event::FiatTransferTimeout(FiatTransferTimeout { order_id, executed_by: caller })
            },
            Operation::ConfirmFiatPayment { caller, order_id } => Event::FiatPaymentConfirmed(
                FiatPaymentConfirmed { order_id, confirmed_by: caller },
            ),
            Operation::DisputeFiatPayment { caller, order_id } => Event::FiatPaymentDisputed(
                FiatPaymentDisputed { order_id, disputed_by: caller },
            ),
            Operation::ResolveDispute { caller, order_id, fiat_transfer_confirmed } => {
                Event::DisputeResolved(
                    DisputeResolved { order_id, resolved_by: caller, fiat_transfer_confirmed },
                )
            },
        }
    }

    /// The state without its notifications, as the operation leaves it.
    pub open spec fn effect(self, op: Operation) -> State {
        match op {
            Operation::Initialize {
                admin,
                dispute_resolver,
                pauser,
                token,
                max_duration_secs,
                filler_payment_timeout_secs,
            } => self.after_initialize(
                admin,
                dispute_resolver,
                pauser,
                token,
                max_duration_secs,
                filler_payment_timeout_secs,
            ),
            Operation::Pause { caller } => self.after_set_paused(caller, true),
            Operation::Unpause { caller } => self.after_set_paused(caller, false),
            Operation::CreateOrder {
                caller,
                fiat_currency,
                payment_method,
                from_crypto,
                amount,
                exchange_rate,
                duration_secs,
            } => self.after_create_order(
                caller,
                fiat_currency,
                payment_method,
                from_crypto,
                amount,
                exchange_rate,
                duration_secs,
            ),
            Operation::CancelOrder { caller, order_id } => self.apply(
                self.cancel_step(caller, order_id),
            ),
            Operation::TakeOrder { caller, order_id } => self.apply(
                self.take_all_step(caller, order_id),
            ),
            Operation::TakeOrderWithAmount { caller, order_id, fill_amount } => self.apply(
                self.take_step(caller, order_id, fill_amount),
            ),
            Operation::SubmitFiatPayment { caller, order_id } => self.apply(
                self.submit_step(caller, order_id),
            ),
            Operation::ExecuteFiatTransferTimeout { caller, order_id } => self.apply(
                self.timeout_step(caller, order_id),
            ),
            Operation::ConfirmFiatPayment { caller, order_id } => self.apply(
                self.confirm_step(caller, order_id),
            ),
            Operation::DisputeFiatPayment { caller, order_id } => self.apply(
                self.dispute_step(caller, order_id),
            ),
            Operation::ResolveDispute { caller, order_id, fiat_transfer_confirmed } => self.apply(
                self.resolve_step(caller, order_id, fiat_transfer_confirmed),
            ),
        }
    }

    /// The state that the operation leaves: its effect and, where it
    /// succeeds, its notification.
    pub open spec fn after(self, op: Operation) -> State {
        if self.outcome(op) is Ok {
            self.effect(op).with_event(self.event_of(op))
        } else {
            self.effect(op)
        }
    }

    /// The operation stays within what the clock and the counter can
    /// hold: where it would succeed, the deadline it sets and the next
    /// order id fit in 64 bits.
    pub open spec fn admits(self, op: Operation) -> bool {
        self.outcome(op) is Ok ==> match op {
            Operation::CreateOrder { duration_secs, .. } => self.timestamp + duration_secs
                <= u64::MAX && self.next_order_id() < u64::MAX,
            Operation::TakeOrder { .. } => self.fiat_deadline_fits(),
            Operation::TakeOrderWithAmount { .. } => self.fiat_deadline_fits(),
            _ => true,
        }
    }

    /// The state after a history: a sequence of operations, each at its
    /// time, oldest first.
    pub open spec fn run(self, history: Seq<(u64, Operation)>) -> State
        decreases history.len(),
    {
        if history.len() == 0 {
            self
        } else {
            self.run(history.drop_last()).at(history.last().0).after(history.last().1)
        }
    }

    /// Every operation of the history stays within what the clock and the
    /// counter can hold.
    pub open spec fn admits_all(self, history: Seq<(u64, Operation)>) -> bool
        decreases history.len(),
    {
        history.len() > 0 ==> self.admits_all(history.drop_last()) && self.run(
            history.drop_last(),
        ).at(history.last().0).admits(history.last().1)
    }
}

} // verus!
