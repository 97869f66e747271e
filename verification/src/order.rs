use vstd::prelude::*;
use crate::admin::AdminManager;
use crate::context::{Context, State};
use crate::error::ContractError;
use crate::lifecycle::Step;
use crate::types::{Address, Config, FiatCurrency, Order, OrderStatus, PaymentMethod, Transfer};
use crate::validators::admin::ensure_not_paused;
use crate::validators::order::{
    create_order_verdict,
    ensure_active_fill_amount,
    ensure_creator,
    ensure_fiat_receiver,
    ensure_fiat_sender,
    ensure_fiat_timeout_expired,
    ensure_not_creator,
    ensure_not_expired,
    ensure_status,
    validate_create_order,
    validate_fill_amount,
};

verus! {

/// The order that a step hands back, or its error.
pub open spec fn order_of(step: Step) -> Result<Order, ContractError> {
    match step {
        Ok((order, _)) => Ok(order),
        Err(e) => Err(e),
    }
}

impl State {
    /// The state after a step on one order: the order stored under its id
    /// and the step's asset movement asked for where the step succeeds,
    /// everything as it was where it does not.
    pub open spec fn apply(self, step: Step) -> State {
        match step {
            Ok((order, transfer)) => self.with_order(order).with_transfer(transfer),
            Err(_) => self,
        }
    }

    /// What an operation on the order `order_id` starts with: the
    /// configuration and the order, where the system runs and the order is
    /// found.
    pub open spec fn lookup(self, order_id: u64) -> Result<(Config, Order), ContractError> {
        match self.gate() {
            Err(e) => Err(e),
            Ok(config) => match self.order(order_id) {
                None => Err(ContractError::OrderNotFound),
                Some(order) => Ok((config, order)),
            },
        }
    }

    /// What `get_order` answers.
    pub open spec fn order_result(self, order_id: u64) -> Result<Order, ContractError> {
        match self.order(order_id) {
            Some(order) => Ok(order),
            None => Err(ContractError::OrderNotFound),
        }
    }

    /// The time by which a fill taken now must be paid fits the clock.
    pub open spec fn fiat_deadline_fits(self) -> bool {
        self.config matches Some(config) ==> self.timestamp + config.filler_payment_timeout_secs
            <= u64::MAX
    }

    /// What `create_order` answers: where the system runs and the arguments
    /// are valid, the new order under the next id, in the configured asset,
    /// with nothing filled, awaiting a filler until `duration_secs` from
    /// now.
    pub open spec fn create_order_result(
        self,
        caller: Address,
        fiat_currency: FiatCurrency,
        payment_method: PaymentMethod,
        from_crypto: bool,
        amount: i128,
        exchange_rate: i128,
        duration_secs: u64,
    ) -> Result<Order, ContractError> {
        match self.gate() {
            Err(e) => Err(e),
            Ok(config) => match create_order_verdict(
                amount,
                exchange_rate,
                duration_secs,
                config,
            ) {
                Err(e) => Err(e),
                Ok(_) => Ok(
                    Order::opened(
                        self.next_order_id(),
                        caller,
                        config.token,
                        fiat_currency,
                        payment_method,
                        from_crypto,
                        amount,
                        exchange_rate,
                        self.timestamp,
                        (self.timestamp + duration_secs) as u64,
                    ),
                ),
            },
        }
    }

    /// The state that `create_order` leaves: where it succeeds, the order
    /// stored, the counter one higher, and the creator's deposit asked for
    /// where the creator funds the escrow.
    pub open spec fn after_create_order(
        self,
        caller: Address,
        fiat_currency: FiatCurrency,
        payment_method: PaymentMethod,
        from_crypto: bool,
        amount: i128,
        exchange_rate: i128,
        duration_secs: u64,
    ) -> State {
        match self.create_order_result(
            caller,
            fiat_currency,
            payment_method,
            from_crypto,
            amount,
            exchange_rate,
            duration_secs,
        ) {
            Err(_) => self,
            Ok(order) => self.with_order(order).with_order_count(
                (self.next_order_id() + 1) as u64,
            ).with_transfer(
                if from_crypto {
                    Some(Transfer::Deposit { from: caller, amount })
                } else {
                    None
                },
            ),
        }
    }

    /// What `cancel_order` does to the order `order_id`.
    pub open spec fn cancel_step(self, caller: Address, order_id: u64) -> Step {
        match self.lookup(order_id) {
            Err(e) => Err(e),
            Ok((_, order)) => order.cancel_step(caller),
        }
    }

    /// What `take_order_with_amount` does to the order `order_id`: the fill
    /// is to be paid within the configured time from now.
    pub open spec fn take_step(self, caller: Address, order_id: u64, fill_amount: i128) -> Step {
        match self.lookup(order_id) {
            Err(e) => Err(e),
            Ok((config, order)) => order.take_step(
                caller,
                fill_amount,
                self.timestamp,
                config.filler_payment_timeout_secs,
            ),
        }
    }

    /// What `take_order` does to the order `order_id`: taking an order
    /// whole is taking it with all that is left of it.
    pub open spec fn take_all_step(self, caller: Address, order_id: u64) -> Step {
        self.take_step(
            caller,
            order_id,
            match self.order(order_id) {
                Some(order) => order.remaining_amount,
                None => 0,
            },
        )
    }

    /// What `submit_fiat_payment` does to the order `order_id`.
    pub open spec fn submit_step(self, caller: Address, order_id: u64) -> Step {
        match self.lookup(order_id) {
            Err(e) => Err(e),
            Ok((_, order)) => order.submit_step(caller),
        }
    }

    /// What `execute_fiat_transfer_timeout` does to the order `order_id`,
    /// at the time of the state.
    pub open spec fn timeout_step(self, caller: Address, order_id: u64) -> Step {
        match self.lookup(order_id) {
            Err(e) => Err(e),
            Ok((_, order)) => order.timeout_step(caller, self.timestamp),
        }
    }

    /// What `confirm_fiat_payment` does to the order `order_id`.
    pub open spec fn confirm_step(self, caller: Address, order_id: u64) -> Step {
        match self.lookup(order_id) {
            Err(e) => Err(e),
            Ok((_, order)) => order.confirm_step(caller),
        }
    }
}

/// The order lifecycle manager: it owns the orders and their counter.
pub struct OrderManager;

impl OrderManager {
    /// Creates an order for `amount`, open for `duration_secs` from now.
    /// Where `from_crypto` holds, the creator funds the escrow with the
    /// whole amount at once.
    pub fn create_order(
        e: &mut Context,
        caller: Address,
        fiat_currency: FiatCurrency,
        payment_method: PaymentMethod,
        from_crypto: bool,
        amount: i128,
        exchange_rate: i128,
        duration_secs: u64,
    ) -> (res: Result<Order, ContractError>)
        requires
            old(e)@.create_order_result(
                caller,
                fiat_currency,
                payment_method,
                from_crypto,
                amount,
                exchange_rate,
                duration_secs,
            ) is Ok ==> old(e).timestamp + duration_secs <= u64::MAX && old(e)@.next_order_id()
                < u64::MAX,
        ensures
            res == old(e)@.create_order_result(
                caller,
                fiat_currency,
                payment_method,
                from_crypto,
                amount,
                exchange_rate,
                duration_secs,
            ),
            final(e)@ == old(e)@.after_create_order(
                caller,
                fiat_currency,
                payment_method,
                from_crypto,
                amount,
                exchange_rate,
                duration_secs,
            ),
            res is Err ==> *final(e) == *old(e),
    {
        let config = Self::create_checks(e, amount, exchange_rate, duration_secs)?;

        let now = e.timestamp;
        let next_order_id = Self::next_order_id(e)?;
        let deadline = now + duration_secs;
        let order = Order {
            order_id: next_order_id,
            creator: caller,
            filler: None,
            token: config.token,
            amount,
            remaining_amount: amount,
            filled_amount: 0,
            active_fill_amount: None,
            exchange_rate,
            from_crypto,
            fiat_currency,
            payment_method,
            status: OrderStatus::AwaitingFiller,
            created_at: now,
            deadline,
            fiat_transfer_deadline: None,
        };

        if from_crypto {
            e.transfers.push(Transfer::Deposit { from: caller, amount });
        }
        Self::store_order(e, &order);
        e.storage.order_count = Some(next_order_id + 1);

        Ok(order)
    }

    /// Withdraws an order that awaits a filler.
    pub fn cancel_order(e: &mut Context, caller: Address, order_id: u64) -> (res: Result<
        Order,
        ContractError,
    >)
        ensures
            res == order_of(old(e)@.cancel_step(caller, order_id)),
            final(e)@ == old(e)@.apply(old(e)@.cancel_step(caller, order_id)),
            res is Err ==> *final(e) == *old(e),
    {
        let config = AdminManager::get_config(e)?;
        ensure_not_paused(&config)?;

        let mut order = Self::get_order(e, order_id)?;
        ensure_status(&order, OrderStatus::AwaitingFiller)?;
        ensure_creator(&order, &caller)?;

        order.status = OrderStatus::Cancelled;
        if order.from_crypto {
            e.transfers.push(
                Transfer::Release { to: order.creator, amount: order.remaining_amount },
            );
        }
        Self::store_order(e, &order);
        Ok(order)
    }

    /// Takes all that is left of an order.
    pub fn take_order(e: &mut Context, caller: Address, order_id: u64) -> (res: Result<
        Order,
        ContractError,
    >)
        requires
            old(e)@.take_all_step(caller, order_id) is Ok ==> old(e)@.fiat_deadline_fits(),
        ensures
            res == order_of(old(e)@.take_all_step(caller, order_id)),
            final(e)@ == old(e)@.apply(old(e)@.take_all_step(caller, order_id)),
            res is Err ==> *final(e) == *old(e),
    {
        let fill_amount = match Self::get_order(e, order_id) {
            Ok(order) => order.remaining_amount,
            Err(_) => 0,
        };
        Self::take_order_with_amount(e, caller, order_id, fill_amount)
    }

    /// Takes `fill_amount` of an order. Where the creator did not fund the
    /// escrow, the filler deposits that amount.
    pub fn take_order_with_amount(
        e: &mut Context,
        caller: Address,
        order_id: u64,
        fill_amount: i128,
    ) -> (res: Result<Order, ContractError>)
        requires
            old(e)@.take_step(caller, order_id, fill_amount) is Ok ==> old(e)@.fiat_deadline_fits(),
        ensures
            res == order_of(old(e)@.take_step(caller, order_id, fill_amount)),
            final(e)@ == old(e)@.apply(old(e)@.take_step(caller, order_id, fill_amount)),
            res is Err ==> *final(e) == *old(e),
    {
        let (config, mut order) = Self::take_checks(e, &caller, order_id, fill_amount)?;

        if !order.from_crypto {
            e.transfers.push(Transfer::Deposit { from: caller, amount: fill_amount });
        }
        order.filler = Some(caller);
        order.active_fill_amount = Some(fill_amount);
        order.status = OrderStatus::AwaitingPayment;
        order.fiat_transfer_deadline = Some(e.timestamp + config.filler_payment_timeout_secs);

        Self::store_order(e, &order);
        Ok(order)
    }

    /// Records the attestation that the off-chain payment was made.
    pub fn submit_fiat_payment(e: &mut Context, caller: Address, order_id: u64) -> (res: Result<
        Order,
        ContractError,
    >)
        ensures
            res == order_of(old(e)@.submit_step(caller, order_id)),
            final(e)@ == old(e)@.apply(old(e)@.submit_step(caller, order_id)),
            res is Err ==> *final(e) == *old(e),
    {
        let config = AdminManager::get_config(e)?;
        ensure_not_paused(&config)?;

        let mut order = Self::get_order(e, order_id)?;
        ensure_status(&order, OrderStatus::AwaitingPayment)?;
        ensure_fiat_sender(&order, &caller)?;

        order.status = OrderStatus::AwaitingConfirmation;
        Self::store_order(e, &order);
        Ok(order)
    }

    /// Undoes a fill whose payment was not attested in time. Beside the
    /// order it hands back the amount that went back to the filler.
    pub fn execute_fiat_transfer_timeout(e: &mut Context, caller: Address, order_id: u64) -> (res:
        Result<(Order, i128), ContractError>)
        ensures
            res == (match old(e)@.timeout_step(caller, order_id) {
                Ok((order, Some(transfer))) => Ok::<(Order, i128), ContractError>(
                    (order, transfer.amount_spec()),
                ),
                Ok((order, None)) => Ok::<(Order, i128), ContractError>((order, 0)),
                Err(e) => Err::<(Order, i128), ContractError>(e),
            }),
            final(e)@ == old(e)@.apply(old(e)@.timeout_step(caller, order_id)),
            res is Err ==> *final(e) == *old(e),
    {
        let config = AdminManager::get_config(e)?;
        ensure_not_paused(&config)?;

        let order = Self::get_order(e, order_id)?;
        ensure_status(&order, OrderStatus::AwaitingPayment)?;
        ensure_fiat_timeout_expired(&order, e.timestamp)?;
        let active_fill_amount = ensure_active_fill_amount(&order)?;
        ensure_fiat_receiver(&order, &caller)?;

        let (order, transfer) = order.unwind(active_fill_amount)?;
        let refunded_amount = match &transfer {
            Some(transfer) => transfer.amount(),
            None => 0,
        };
        Self::commit(e, &order, transfer);
        Ok((order, refunded_amount))
    }

    /// Confirms the off-chain payment and settles the fill.
    pub fn confirm_fiat_payment(e: &mut Context, caller: Address, order_id: u64) -> (res: Result<
        Order,
        ContractError,
    >)
        ensures
            res == order_of(old(e)@.confirm_step(caller, order_id)),
            final(e)@ == old(e)@.apply(old(e)@.confirm_step(caller, order_id)),
            res is Err ==> *final(e) == *old(e),
    {
        let config = AdminManager::get_config(e)?;
        ensure_not_paused(&config)?;

        let order = Self::get_order(e, order_id)?;
        ensure_status(&order, OrderStatus::AwaitingConfirmation)?;
        let active_fill_amount = ensure_active_fill_amount(&order)?;
        ensure_fiat_receiver(&order, &caller)?;

        let (order, transfer) = order.settle(active_fill_amount)?;
        Self::commit(e, &order, transfer);
        Ok(order)
    }

    /// What stands in the way of creating an order, if anything does; the
    /// configuration if nothing does. Nothing changes.
    pub fn create_checks(e: &Context, amount: i128, exchange_rate: i128, duration_secs: u64) -> (res:
        Result<Config, ContractError>)
        ensures
            res == (match e@.gate() {
                Err(e) => Err::<Config, ContractError>(e),
                Ok(config) => match create_order_verdict(
                    amount,
                    exchange_rate,
                    duration_secs,
                    config,
                ) {
                    Err(e) => Err::<Config, ContractError>(e),
                    Ok(_) => Ok::<Config, ContractError>(config),
                },
            }),
    {
        let config = AdminManager::get_config(e)?;
        ensure_not_paused(&config)?;
        validate_create_order(amount, exchange_rate, duration_secs, &config)?;
        Ok(config)
    }

    /// What stands in the way of taking `fill_amount` of an order, if
    /// anything does; the configuration and the order if nothing does.
    /// Nothing changes.
    pub fn take_checks(e: &Context, caller: &Address, order_id: u64, fill_amount: i128) -> (res:
        Result<(Config, Order), ContractError>)
        ensures
            res == (match e@.take_step(*caller, order_id, fill_amount) {
                Err(e) => Err::<(Config, Order), ContractError>(e),
                Ok(_) => e@.lookup(order_id),
            }),
            res is Ok <==> e@.take_step(*caller, order_id, fill_amount) is Ok,
    {
        let config = AdminManager::get_config(e)?;
        ensure_not_paused(&config)?;

        let order = Self::get_order(e, order_id)?;
        ensure_status(&order, OrderStatus::AwaitingFiller)?;
        ensure_not_creator(&order, caller)?;
        ensure_not_expired(&order, e.timestamp)?;
        validate_fill_amount(&order, fill_amount)?;
        Ok((config, order))
    }

    /// The order stored under `order_id`.
    pub fn get_order(e: &Context, order_id: u64) -> (res: Result<Order, ContractError>)
        ensures
            res == e@.order_result(order_id),
    {
        match e.storage.orders.get(&order_id) {
            Some(order) => Ok(*order),
            None => Err(ContractError::OrderNotFound),
        }
    }

    fn next_order_id(e: &Context) -> (res: Result<u64, ContractError>)
        ensures
            res == e@.order_count_result(),
    {
        AdminManager::get_order_count(e)
    }

    fn store_order(e: &mut Context, order: &Order)
        ensures
            final(e)@ == old(e)@.with_order(*order),
    {
        e.storage.orders.insert(order.order_id, *order);
    }

    /// Stores the order that a step gave and asks for its asset movement.
    pub(crate) fn commit(e: &mut Context, order: &Order, transfer: Option<Transfer>)
        ensures
            final(e)@ == old(e)@.with_order(*order).with_transfer(transfer),
    {
        match transfer {
            Some(transfer) => {
                e.transfers.push(transfer);
            },
            None => {},
        }
        Self::store_order(e, order);
    }
}

} // verus!
