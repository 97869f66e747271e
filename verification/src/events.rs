use vstd::prelude::*;
use crate::types::Address;

verus! {

/// The system was set up.
#[derive(Clone, Copy, Debug, PartialEq, Eq)]
pub struct Initialized {
    pub admin: Address,
    pub dispute_resolver: Address,
    pub pauser: Address,
    pub token: Address,
}

/// The system was halted.
#[derive(Clone, Copy, Debug, PartialEq, Eq)]
pub struct PausedEvt {
    pub by: Address,
}

/// The system was let run again.
#[derive(Clone, Copy, Debug, PartialEq, Eq)]
pub struct UnpausedEvt {
    pub by: Address,
}

/// An order was created.
#[derive(Clone, Copy, Debug, PartialEq, Eq)]
pub struct OrderCreated {
    pub order_id: u64,
    pub creator: Address,
    pub amount: i128,
    pub from_crypto: bool,
}

/// An order was withdrawn by its creator.
#[derive(Clone, Copy, Debug, PartialEq, Eq)]
pub struct OrderCancelled {
    pub order_id: u64,
    pub cancelled_by: Address,
}

/// A filler committed to an order, or to a part of it.
#[derive(Clone, Copy, Debug, PartialEq, Eq)]
pub struct OrderTaken {
    pub order_id: u64,
    pub filler: Address,
}

/// The off-chain payment was attested.
#[derive(Clone, Copy, Debug, PartialEq, Eq)]
pub struct FiatPaymentSubmitted {
    pub order_id: u64,
    pub submitted_by: Address,
}

/// A fill was undone because its payment was not attested in time.
#[derive(Clone, Copy, Debug, PartialEq, Eq)]
pub struct FiatTransferTimeout {
    pub order_id: u64,
    pub executed_by: Address,
}

/// The off-chain payment was confirmed and the fill settled.
#[derive(Clone, Copy, Debug, PartialEq, Eq)]
pub struct FiatPaymentConfirmed {
    pub order_id: u64,
    pub confirmed_by: Address,
}

/// The attestation of the off-chain payment was contested.
#[derive(Clone, Copy, Debug, PartialEq, Eq)]
pub struct FiatPaymentDisputed {
    pub order_id: u64,
    pub disputed_by: Address,
}

/// The arbiter decided a dispute.
#[derive(Clone, Copy, Debug, PartialEq, Eq)]
pub struct DisputeResolved {
    pub order_id: u64,
    pub resolved_by: Address,
    pub fiat_transfer_confirmed: bool,
}

/// The notification that a successful operation leaves behind.
#[derive(Clone, Copy, Debug, PartialEq, Eq)]
pub enum Event {
    Initialized(Initialized),
    Paused(PausedEvt),
    Unpaused(UnpausedEvt),
    OrderCreated(OrderCreated),
    OrderCancelled(OrderCancelled),
    OrderTaken(OrderTaken),
    FiatPaymentSubmitted(FiatPaymentSubmitted),
    FiatTransferTimeout(FiatTransferTimeout),
    FiatPaymentConfirmed(FiatPaymentConfirmed),
    FiatPaymentDisputed(FiatPaymentDisputed),
    DisputeResolved(DisputeResolved),
}

} // verus!
