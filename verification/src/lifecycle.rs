use vstd::prelude::*;
use crate::error::ContractError;
use crate::types::{Address, FiatCurrency, Order, OrderStatus, PaymentMethod, Transfer};
use crate::validators::order::{fiat_timeout_verdict, fill_amount_verdict, filler_verdict};

verus! {

/// What one step of an order's life gives: the order after it and the asset
/// movement it asks for, or the reason why it was rejected.
pub type Step = Result<(Order, Option<Transfer>), ContractError>;

impl Order {
    /// The order as it stands right after its creation.
    pub open spec fn opened(
        order_id: u64,
        creator: Address,
        token: Address,
        fiat_currency: FiatCurrency,
        payment_method: PaymentMethod,
        from_crypto: bool,
        amount: i128,
        exchange_rate: i128,
        now: u64,
        deadline: u64,
    ) -> Order {
        Order {
            order_id,
            creator,
            filler: None,
            token,
            amount,
            remaining_amount: amount,
            filled_amount: 0,
            active_fill_amount: None,
            exchange_rate,
            from_crypto,
            fiat_currency,
            payment_method,
            status: OrderStatus::AwaitingFiller,
            created_at: now,
            deadline,
            fiat_transfer_deadline: None,
        }
    }

    /// The order in `status`, with nothing left of a fill in flight.
    pub open spec fn cleared(self, status: OrderStatus) -> Order {
        Order {
            status,
            filler: None,
            active_fill_amount: None,
            fiat_transfer_deadline: None,
            ..self
        }
    }

    /// The order in `status`, all else as it is.
    pub open spec fn with_status(self, status: OrderStatus) -> Order {
        Order { status, ..self }
    }

    /// Only the creator passes.
    pub open spec fn creator_verdict(self, caller: Address) -> Result<(), ContractError> {
        if caller == self.creator {
            Ok(())
        } else {
            Err(ContractError::Unauthorized)
        }
    }

    /// Only the party that owes the off-chain payment passes: the filler
    /// where the creator funded the escrow, the creator where the filler
    /// did.
    pub open spec fn fiat_sender_verdict(self, caller: Address) -> Result<(), ContractError> {
        if self.from_crypto {
            filler_verdict(self, caller)
        } else {
            self.creator_verdict(caller)
        }
    }

    /// Only the party that is due the off-chain payment passes: the
    /// counter-party of the one that owes it.
    pub open spec fn fiat_receiver_verdict(self, caller: Address) -> Result<(), ContractError> {
        if self.from_crypto {
            self.creator_verdict(caller)
        } else {
            filler_verdict(self, caller)
        }
    }

    /// The creator withdraws an order that nobody has taken; where the
    /// creator funded the escrow, what is left comes back.
    pub open spec fn cancel_step(self, caller: Address) -> Step {
        if self.status != OrderStatus::AwaitingFiller {
            Err(ContractError::InvalidOrderStatus)
        } else if caller != self.creator {
            Err(ContractError::Unauthorized)
        } else {
            Ok(
                (
                    self.with_status(OrderStatus::Cancelled),
                    if self.from_crypto {
                        Some(Transfer::Release { to: self.creator, amount: self.remaining_amount })
                    } else {
                        None
                    },
                ),
            )
        }
    }

    /// A filler commits to `fill_amount` of the order; where the creator
    /// did not fund the escrow, the filler deposits that amount.
    pub open spec fn take_step(
        self,
        caller: Address,
        fill_amount: i128,
        now: u64,
        timeout_secs: u64,
    ) -> Step {
        if self.status != OrderStatus::AwaitingFiller {
            Err(ContractError::InvalidOrderStatus)
        } else if caller == self.creator {
            Err(ContractError::Unauthorized)
        } else if self.deadline <= now {
            Err(ContractError::OrderExpired)
        } else {
            match fill_amount_verdict(self, fill_amount) {
                Err(e) => Err(e),
                Ok(_) => Ok(
                    (
                        Order {
                            filler: Some(caller),
                            active_fill_amount: Some(fill_amount),
                            status: OrderStatus::AwaitingPayment,
                            fiat_transfer_deadline: Some((now + timeout_secs) as u64),
                            ..self
                        },
                        if self.from_crypto {
                            None
                        } else {
                            Some(Transfer::Deposit { from: caller, amount: fill_amount })
                        },
                    ),
                ),
            }
        }
    }

    /// The party that owes the off-chain payment attests that it was made.
    pub open spec fn submit_step(self, caller: Address) -> Step {
        if self.status != OrderStatus::AwaitingPayment {
            Err(ContractError::InvalidOrderStatus)
        } else {
            match self.fiat_sender_verdict(caller) {
                Err(e) => Err(e),
                Ok(_) => Ok((self.with_status(OrderStatus::AwaitingConfirmation), None)),
            }
        }
    }

    /// The fill of `fill_amount` is settled: the asset goes to the party
    /// that paid off-chain, the amounts follow, and the order is complete
    /// or open again for the rest.
    pub open spec fn settle_step(self, fill_amount: i128) -> Step {
        let recipient = if self.from_crypto {
            self.filler
        } else {
            Some(self.creator)
        };
        let filled = self.filled_amount + fill_amount;
        let remaining = self.remaining_amount - fill_amount;
        if recipient is None {
            Err(ContractError::MissingFiller)
        } else if filled > i128::MAX || filled < i128::MIN {
            Err(ContractError::Overflow)
        } else if remaining > i128::MAX || remaining < i128::MIN {
            Err(ContractError::Underflow)
        } else {
            Ok(
                (
                    Order {
                        filled_amount: filled as i128,
                        remaining_amount: remaining as i128,
                        ..self.cleared(
                            if remaining == 0 {
                                OrderStatus::Completed
                            } else {
                                OrderStatus::AwaitingFiller
                            },
                        )
                    },
                    Some(Transfer::Release { to: recipient->Some_0, amount: fill_amount }),
                ),
            )
        }
    }

    /// The fill of `fill_amount` is undone: a deposit that the filler made
    /// goes back, the amounts stay, and the order is open again.
    pub open spec fn unwind_step(self, fill_amount: i128) -> Step {
        if self.from_crypto {
            Ok((self.cleared(OrderStatus::AwaitingFiller), None))
        } else {
            match self.filler {
                None => Err(ContractError::MissingFiller),
                Some(filler) => Ok(
                    (
                        self.cleared(OrderStatus::AwaitingFiller),
                        Some(Transfer::Release { to: filler, amount: fill_amount }),
                    ),
                ),
            }
        }
    }

    /// The party that is due the off-chain payment confirms it, and the
    /// fill is settled.
    pub open spec fn confirm_step(self, caller: Address) -> Step {
        if self.status != OrderStatus::AwaitingConfirmation {
            Err(ContractError::InvalidOrderStatus)
        } else {
            match self.active_fill_amount {
                None => Err(ContractError::InvalidOrderStatus),
                Some(fill_amount) => match self.fiat_receiver_verdict(caller) {
                    Err(e) => Err(e),
                    Ok(_) => self.settle_step(fill_amount),
                },
            }
        }
    }

    /// The payment was not attested in time: the party that was due it
    /// has the fill undone.
    pub open spec fn timeout_step(self, caller: Address, now: u64) -> Step {
        if self.status != OrderStatus::AwaitingPayment {
            Err(ContractError::InvalidOrderStatus)
        } else {
            match fiat_timeout_verdict(self, now) {
                Err(e) => Err(e),
                Ok(_) => match self.active_fill_amount {
                    None => Err(ContractError::InvalidOrderStatus),
                    Some(fill_amount) => match self.fiat_receiver_verdict(caller) {
                        Err(e) => Err(e),
                        Ok(_) => self.unwind_step(fill_amount),
                    },
                },
            }
        }
    }

    /// The party that is due the off-chain payment contests the attestation.
    pub open spec fn dispute_step(self, caller: Address) -> Step {
        if self.status != OrderStatus::AwaitingConfirmation {
            Err(ContractError::InvalidOrderStatus)
        } else {
            match self.fiat_receiver_verdict(caller) {
                Err(e) => Err(e),
                Ok(_) => Ok((self.with_status(OrderStatus::Disputed), None)),
            }
        }
    }

    /// The arbiter's decision: the fill is settled where the payment is
    /// found to have been made, undone where it is not.
    pub open spec fn resolve_step(self, fiat_transfer_confirmed: bool) -> Step {
        if self.status != OrderStatus::Disputed {
            Err(ContractError::InvalidOrderStatus)
        } else {
            match self.active_fill_amount {
                None => Err(ContractError::InvalidOrderStatus),
                Some(fill_amount) => if fiat_transfer_confirmed {
                    self.settle_step(fill_amount)
                } else {
                    self.unwind_step(fill_amount)
                },
            }
        }
    }

    /// Settles a fill of `fill_amount`.
    pub fn settle(&self, fill_amount: i128) -> (r: Result<(Order, Option<Transfer>), ContractError>)
        ensures
            r == self.settle_step(fill_amount),
    {
        let recipient = if self.from_crypto {
            match self.filler {
                Some(filler) => filler,
                None => {
                    return Err(ContractError::MissingFiller);
                },
            }
        } else {
            self.creator
        };
        let filled = match self.filled_amount.checked_add(fill_amount) {
            Some(filled) => filled,
            None => {
                return Err(ContractError::Overflow);
            },
        };
        let remaining = match self.remaining_amount.checked_sub(fill_amount) {
            Some(remaining) => remaining,
            None => {
                return Err(ContractError::Underflow);
            },
        };
        let mut order = *self;
        order.filled_amount = filled;
        order.remaining_amount = remaining;
        order.filler = None;
        order.active_fill_amount = None;
        order.fiat_transfer_deadline = None;
        order.status = if remaining == 0 {
            OrderStatus::Completed
        } else {
            OrderStatus::AwaitingFiller
        };
        Ok((order, Some(Transfer::Release { to: recipient, amount: fill_amount })))
    }

    /// Undoes a fill of `fill_amount`.
    pub fn unwind(&self, fill_amount: i128) -> (r: Result<(Order, Option<Transfer>), ContractError>)
        ensures
            r == self.unwind_step(fill_amount),
    {
        let transfer = if self.from_crypto {
            None
        } else {
            match self.filler {
                Some(filler) => Some(Transfer::Release { to: filler, amount: fill_amount }),
                None => {
                    return Err(ContractError::MissingFiller);
                },
            }
        };
        let mut order = *self;
        order.status = OrderStatus::AwaitingFiller;
        order.filler = None;
        order.active_fill_amount = None;
        order.fiat_transfer_deadline = None;
        Ok((order, transfer))
    }
}

} // verus!
