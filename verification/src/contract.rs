use vstd::prelude::*;
use crate::admin::AdminManager;
use crate::context::{Context, State};
use crate::dispute::DisputeManager;
use crate::error::ContractError;
use crate::events::{
    DisputeResolved,
    Event,
    FiatPaymentConfirmed,
    FiatPaymentDisputed,
    FiatPaymentSubmitted,
    FiatTransferTimeout,
    Initialized,
    OrderCancelled,
    OrderCreated,
    OrderTaken,
    PausedEvt,
    UnpausedEvt,
};
use crate::laws::state::{
    law_operations_keep_custody_balanced,
    law_operations_keep_state_well_formed,
};
use crate::machine::Operation;
use crate::order::OrderManager;
use crate::types::{Address, Config, FiatCurrency, Order, PaymentMethod};

verus! {

/// What every operation owes beyond its own outcome, between the context
/// `before` it and the context `after` it: nothing changes where it is
/// rejected; it is rejected as `Paused` where it works on orders and the
/// system is halted; and it keeps the state well formed and custody
/// balanced.
pub open spec fn upholds(
    before: Context,
    after: Context,
    op: Operation,
    res: Result<(), ContractError>,
) -> bool {
    &&& res is Err ==> after == before
    &&& before@.paused() && op.concerns_orders() ==> res == Err::<(), ContractError>(
        ContractError::Paused,
    )
    &&& before@.wf() ==> after@.wf()
    &&& before@.wf() && before@.balanced() ==> after@.balanced()
}

/// The operations as callers see them: each does what its manager does and,
/// where that succeeds, leaves one notification.
pub struct P2PContract;

impl P2PContract {
    /// Sets the system up, once.
    pub fn initialize(
        e: &mut Context,
        admin: Address,
        dispute_resolver: Address,
        pauser: Address,
        token: Address,
        max_duration_secs: u64,
        filler_payment_timeout_secs: u64,
    ) -> (res: Result<(), ContractError>)
        ensures
            ({
                let op = Operation::Initialize {
                    admin,
                    dispute_resolver,
                    pauser,
                    token,
                    max_duration_secs,
                    filler_payment_timeout_secs,
                };
                &&& res == old(e)@.outcome(op)
                &&& final(e)@ == old(e)@.after(op)
                &&& upholds(*old(e), *final(e), op, res)
            }),
    {
        proof {
            Self::uphold(
                e@,
                Operation::Initialize {
                    admin,
                    dispute_resolver,
                    pauser,
                    token,
                    max_duration_secs,
                    filler_payment_timeout_secs,
                },
            );
        }
        let config = AdminManager::initialize(
            e,
            admin,
            dispute_resolver,
            pauser,
            token,
            max_duration_secs,
            filler_payment_timeout_secs,
        )?;
        e.events.push(
            Event::Initialized(
                Initialized {
                    admin: config.admin,
                    dispute_resolver: config.dispute_resolver,
                    pauser: config.pauser,
                    token: config.token,
                },
            ),
        );
        Ok(())
    }

    /// Halts the system: until it runs again, no operation on orders
    /// passes.
    pub fn pause(e: &mut Context, caller: Address) -> (res: Result<(), ContractError>)
        ensures
            res == old(e)@.outcome(Operation::Pause { caller }),
            final(e)@ == old(e)@.after(Operation::Pause { caller }),
            upholds(*old(e), *final(e), Operation::Pause { caller }, res),
    {
        proof {
            Self::uphold(e@, Operation::Pause { caller });
        }
        AdminManager::pause(e, caller)?;
        e.events.push(Event::Paused(PausedEvt { by: caller }));
        Ok(())
    }

    /// Lets the system run again.
    pub fn unpause(e: &mut Context, caller: Address) -> (res: Result<(), ContractError>)
        ensures
            res == old(e)@.outcome(Operation::Unpause { caller }),
            final(e)@ == old(e)@.after(Operation::Unpause { caller }),
            upholds(*old(e), *final(e), Operation::Unpause { caller }, res),
    {
        proof {
            Self::uphold(e@, Operation::Unpause { caller });
        }
        AdminManager::unpause(e, caller)?;
        e.events.push(Event::Unpaused(UnpausedEvt { by: caller }));
        Ok(())
    }

    /// Creates an order and hands back its id, which is the number of
    /// orders created before it.
    pub fn create_order(
        e: &mut Context,
        caller: Address,
        fiat_currency: FiatCurrency,
        payment_method: PaymentMethod,
        from_crypto: bool,
        amount: i128,
        exchange_rate: i128,
        duration_secs: u64,
    ) -> (res: Result<u64, ContractError>)
        requires
            old(e)@.admits(
                Operation::CreateOrder {
                    caller,
                    fiat_currency,
                    payment_method,
                    from_crypto,
                    amount,
                    exchange_rate,
                    duration_secs,
                },
            ),
        ensures
            ({
                let op = Operation::CreateOrder {
                    caller,
                    fiat_currency,
                    payment_method,
                    from_crypto,
                    amount,
                    exchange_rate,
                    duration_secs,
                };
                &&& res == (match old(e)@.outcome(op) {
                    Ok(_) => Ok::<u64, ContractError>(old(e)@.next_order_id()),
                    Err(e) => Err::<u64, ContractError>(e),
                })
                &&& final(e)@ == old(e)@.after(op)
                &&& upholds(*old(e), *final(e), op, old(e)@.outcome(op))
            }),
    {
        proof {
            Self::uphold(
                e@,
                Operation::CreateOrder {
                    caller,
                    fiat_currency,
                    payment_method,
                    from_crypto,
                    amount,
                    exchange_rate,
                    duration_secs,
                },
            );
        }
        let order = OrderManager::create_order(
            e,
            caller,
            fiat_currency,
            payment_method,
            from_crypto,
            amount,
            exchange_rate,
            duration_secs,
        )?;
        e.events.push(
            Event::OrderCreated(
                OrderCreated {
                    order_id: order.order_id,
                    creator: order.creator,
                    amount: order.amount,
                    from_crypto: order.from_crypto,
                },
            ),
        );
        Ok(order.order_id)
    }

    /// Withdraws an order that awaits a filler.
    pub fn cancel_order(e: &mut Context, caller: Address, order_id: u64) -> (res: Result<
        (),
        ContractError,
    >)
        ensures
            res == old(e)@.outcome(Operation::CancelOrder { caller, order_id }),
            final(e)@ == old(e)@.after(Operation::CancelOrder { caller, order_id }),
            upholds(*old(e), *final(e), Operation::CancelOrder { caller, order_id }, res),
    {
        proof {
            Self::uphold(e@, Operation::CancelOrder { caller, order_id });
        }
        OrderManager::cancel_order(e, caller, order_id)?;
        e.events.push(Event::OrderCancelled(OrderCancelled { order_id, cancelled_by: caller }));
        Ok(())
    }

    /// Takes all that is left of an order.
    pub fn take_order(e: &mut Context, caller: Address, order_id: u64) -> (res: Result<
        (),
        ContractError,
    >)
        requires
            old(e)@.admits(Operation::TakeOrder { caller, order_id }),
        ensures
            res == old(e)@.outcome(Operation::TakeOrder { caller, order_id }),
            final(e)@ == old(e)@.after(Operation::TakeOrder { caller, order_id }),
            upholds(*old(e), *final(e), Operation::TakeOrder { caller, order_id }, res),
    {
        proof {
            Self::uphold(e@, Operation::TakeOrder { caller, order_id });
        }
        OrderManager::take_order(e, caller, order_id)?;
        e.events.push(Event::OrderTaken(OrderTaken { order_id, filler: caller }));
        Ok(())
    }

    /// Takes `fill_amount` of an order.
    pub fn take_order_with_amount(
        e: &mut Context,
        caller: Address,
        order_id: u64,
        fill_amount: i128,
    ) -> (res: Result<(), ContractError>)
        requires
            old(e)@.admits(Operation::TakeOrderWithAmount { caller, order_id, fill_amount }),
        ensures
            res == old(e)@.outcome(Operation::TakeOrderWithAmount { caller, order_id, fill_amount }),
            final(e)@ == old(e)@.after(
                Operation::TakeOrderWithAmount { caller, order_id, fill_amount },
            ),
            upholds(
                *old(e),
                *final(e),
                Operation::TakeOrderWithAmount { caller, order_id, fill_amount },
                res,
            ),
    {
        proof {
            Self::uphold(e@, Operation::TakeOrderWithAmount { caller, order_id, fill_amount });
        }
        OrderManager::take_order_with_amount(e, caller, order_id, fill_amount)?;
        e.events.push(Event::OrderTaken(OrderTaken { order_id, filler: caller }));
        Ok(())
    }

    /// Records the attestation that the off-chain payment was made.
    pub fn submit_fiat_payment(e: &mut Context, caller: Address, order_id: u64) -> (res: Result<
        (),
        ContractError,
    >)
        ensures
            res == old(e)@.outcome(Operation::SubmitFiatPayment { caller, order_id }),
            final(e)@ == old(e)@.after(Operation::SubmitFiatPayment { caller, order_id }),
            upholds(*old(e), *final(e), Operation::SubmitFiatPayment { caller, order_id }, res),
    {
        proof {
            Self::uphold(e@, Operation::SubmitFiatPayment { caller, order_id });
        }
        OrderManager::submit_fiat_payment(e, caller, order_id)?;
        e.events.push(
            Event::FiatPaymentSubmitted(FiatPaymentSubmitted { order_id, submitted_by: caller }),
        );
        Ok(())
    }

    /// Undoes a fill whose payment was not attested in time.
    pub fn execute_fiat_transfer_timeout(e: &mut Context, caller: Address, order_id: u64) -> (res:
        Result<(), ContractError>)
        ensures
            res == old(e)@.outcome(Operation::ExecuteFiatTransferTimeout { caller, order_id }),
            final(e)@ == old(e)@.after(Operation::ExecuteFiatTransferTimeout { caller, order_id }),
            upholds(
                *old(e),
                *final(e),
                Operation::ExecuteFiatTransferTimeout { caller, order_id },
                res,
            ),
    {
        proof {
            Self::uphold(e@, Operation::ExecuteFiatTransferTimeout { caller, order_id });
        }
        OrderManager::execute_fiat_transfer_timeout(e, caller, order_id)?;
        e.events.push(
            Event::FiatTransferTimeout(FiatTransferTimeout { order_id, executed_by: caller }),
        );
        Ok(())
    }

    /// Confirms the off-chain payment and settles the fill.
    pub fn confirm_fiat_payment(e: &mut Context, caller: Address, order_id: u64) -> (res: Result<
        (),
        ContractError,
    >)
        ensures
            res == old(e)@.outcome(Operation::ConfirmFiatPayment { caller, order_id }),
            final(e)@ == old(e)@.after(Operation::ConfirmFiatPayment { caller, order_id }),
            upholds(*old(e), *final(e), Operation::ConfirmFiatPayment { caller, order_id }, res),
    {
        proof {
            Self::uphold(e@, Operation::ConfirmFiatPayment { caller, order_id });
        }
        OrderManager::confirm_fiat_payment(e, caller, order_id)?;
        e.events.push(
            Event::FiatPaymentConfirmed(FiatPaymentConfirmed { order_id, confirmed_by: caller }),
        );
        Ok(())
    }

    /// Contests the attestation that the off-chain payment was made.
    pub fn dispute_fiat_payment(e: &mut Context, caller: Address, order_id: u64) -> (res: Result<
        (),
        ContractError,
    >)
        ensures
            res == old(e)@.outcome(Operation::DisputeFiatPayment { caller, order_id }),
            final(e)@ == old(e)@.after(Operation::DisputeFiatPayment { caller, order_id }),
            upholds(*old(e), *final(e), Operation::DisputeFiatPayment { caller, order_id }, res),
    {
        proof {
            Self::uphold(e@, Operation::DisputeFiatPayment { caller, order_id });
        }
        DisputeManager::dispute_fiat_payment(e, caller, order_id)?;
        e.events.push(
            Event::FiatPaymentDisputed(FiatPaymentDisputed { order_id, disputed_by: caller }),
        );
        Ok(())
    }

    /// The arbiter's decision on a disputed order.
    pub fn resolve_dispute(
        e: &mut Context,
        caller: Address,
        order_id: u64,
        fiat_transfer_confirmed: bool,
    ) -> (res: Result<(), ContractError>)
        ensures
            res == old(e)@.outcome(
                Operation::ResolveDispute { caller, order_id, fiat_transfer_confirmed },
            ),
            final(e)@ == old(e)@.after(
                Operation::ResolveDispute { caller, order_id, fiat_transfer_confirmed },
            ),
            upholds(
                *old(e),
                *final(e),
                Operation::ResolveDispute { caller, order_id, fiat_transfer_confirmed },
                res,
            ),
    {
        proof {
            Self::uphold(
                e@,
                Operation::ResolveDispute { caller, order_id, fiat_transfer_confirmed },
            );
        }
        DisputeManager::resolve_dispute(e, caller, order_id, fiat_transfer_confirmed)?;
        e.events.push(
            Event::DisputeResolved(
                DisputeResolved { order_id, resolved_by: caller, fiat_transfer_confirmed },
            ),
        );
        Ok(())
    }

    /// Carries out one operation, whichever it is.
    pub fn execute(e: &mut Context, op: Operation) -> (res: Result<(), ContractError>)
        requires
            old(e)@.admits(op),
        ensures
            res == old(e)@.outcome(op),
            final(e)@ == old(e)@.after(op),
            upholds(*old(e), *final(e), op, res),
    {
        match op {
            Operation::Initialize {
                admin,
                dispute_resolver,
                pauser,
                token,
                max_duration_secs,
                filler_payment_timeout_secs,
            } => Self::initialize(
                e,
                admin,
                dispute_resolver,
                pauser,
                token,
                max_duration_secs,
                filler_payment_timeout_secs,
            ),
            Operation::Pause { caller } => Self::pause(e, caller),
            Operation::Unpause { caller } => Self::unpause(e, caller),
            Operation::CreateOrder {
                caller,
                fiat_currency,
                payment_method,
                from_crypto,
                amount,
                exchange_rate,
                duration_secs,
            } => {
                match Self::create_order(
                    e,
                    caller,
                    fiat_currency,
                    payment_method,
                    from_crypto,
                    amount,
                    exchange_rate,
                    duration_secs,
                ) {
                    Ok(_) => Ok(()),
                    Err(err) => Err(err),
                }
            },
            Operation::CancelOrder { caller, order_id } => Self::cancel_order(e, caller, order_id),
            Operation::TakeOrder { caller, order_id } => Self::take_order(e, caller, order_id),
            Operation::TakeOrderWithAmount { caller, order_id, fill_amount } => {
                Self::take_order_with_amount(e, caller, order_id, fill_amount)
            },
            Operation::SubmitFiatPayment { caller, order_id } => {
                Self::submit_fiat_payment(e, caller, order_id)
            },
            Operation::ExecuteFiatTransferTimeout { caller, order_id } => {
                Self::execute_fiat_transfer_timeout(e, caller, order_id)
            },
            Operation::ConfirmFiatPayment { caller, order_id } => {
                Self::confirm_fiat_payment(e, caller, order_id)
            },
            Operation::DisputeFiatPayment { caller, order_id } => {
                Self::dispute_fiat_payment(e, caller, order_id)
            },
            Operation::ResolveDispute { caller, order_id, fiat_transfer_confirmed } => {
                Self::resolve_dispute(e, caller, order_id, fiat_transfer_confirmed)
            },
        }
    }

    /// Whether the clock and the counter can hold what the operation would
    /// set: the condition under which `execute` can be called.
    pub fn admits(e: &Context, op: &Operation) -> (r: bool)
        ensures
            r == e@.admits(*op),
    {
        match op {
            Operation::CreateOrder { amount, exchange_rate, duration_secs, .. } => {
                match OrderManager::create_checks(e, *amount, *exchange_rate, *duration_secs) {
                    Err(_) => true,
                    Ok(_) => {
                        let next_order_id = e.storage.order_count.unwrap_or(0u64);
                        e.timestamp.checked_add(*duration_secs).is_some() && next_order_id
                            < u64::MAX
                    },
                }
            },
            Operation::TakeOrder { caller, order_id } => {
                let fill_amount = match OrderManager::get_order(e, *order_id) {
                    Ok(order) => order.remaining_amount,
                    Err(_) => 0,
                };
                match OrderManager::take_checks(e, caller, *order_id, fill_amount) {
                    Err(_) => true,
                    Ok((config, _)) => e.timestamp.checked_add(
                        config.filler_payment_timeout_secs,
                    ).is_some(),
                }
            },
            Operation::TakeOrderWithAmount { caller, order_id, fill_amount } => {
                match OrderManager::take_checks(e, caller, *order_id, *fill_amount) {
                    Err(_) => true,
                    Ok((config, _)) => e.timestamp.checked_add(
                        config.filler_payment_timeout_secs,
                    ).is_some(),
                }
            },
            _ => true,
        }
    }

    /// Carries out one operation where the clock and the counter can hold
    /// what it would set, and does nothing where they cannot.
    pub fn try_execute(e: &mut Context, op: Operation) -> (res: Option<Result<(), ContractError>>)
        ensures
            res is Some <==> old(e)@.admits(op),
            res matches Some(outcome) ==> {
                &&& outcome == old(e)@.outcome(op)
                &&& final(e)@ == old(e)@.after(op)
                &&& upholds(*old(e), *final(e), op, outcome)
            },
            res is None ==> *final(e) == *old(e),
    {
        if Self::admits(e, &op) {
            Some(Self::execute(e, op))
        } else {
            None
        }
    }

    /// The order stored under `order_id`.
    pub fn get_order(e: &Context, order_id: u64) -> (res: Result<Order, ContractError>)
        ensures
            res == e@.order_result(order_id),
    {
        OrderManager::get_order(e, order_id)
    }

    /// The number of orders created so far.
    pub fn get_order_count(e: &Context) -> (res: Result<u64, ContractError>)
        ensures
            res == e@.order_count_result(),
    {
        AdminManager::get_order_count(e)
    }

    /// The configuration.
    pub fn get_config(e: &Context) -> (res: Result<Config, ContractError>)
        ensures
            res == e@.config_result(),
    {
        AdminManager::get_config(e)
    }

    /// An operation that the state admits keeps the state well formed and
    /// custody balanced.
    proof fn uphold(s: State, op: Operation)
        ensures
            s.wf() && s.admits(op) ==> s.after(op).wf(),
            s.wf() && s.balanced() && s.admits(op) ==> s.after(op).balanced(),
    {
        if s.wf() && s.admits(op) {
            law_operations_keep_state_well_formed(s, op);
            if s.balanced() {
                law_operations_keep_custody_balanced(s, op);
            }
        }
    }
}

} // verus!
