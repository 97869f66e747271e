use vstd::prelude::*;

verus! {

/// A principal, named by the 56 characters of its address.
///
/// Two principals are the same exactly when their addresses are.
#[derive(Clone, Copy, Debug, Eq)]
pub struct Address {
    pub strkey: [u8; 56],
}

impl PartialEq for Address {
    fn eq(&self, other: &Self) -> (r: bool) {
        let mut i: usize = 0;
        while i < 56
            invariant
                i <= 56,
                forall|j: int| 0 <= j < i ==> self.strkey[j] == other.strkey[j],
            decreases 56 - i,
        {
            if self.strkey[i] != other.strkey[i] {
                return false;
            }
            i += 1;
        }
        assert(self.strkey =~= other.strkey);
        true
    }
}

impl vstd::std_specs::cmp::PartialEqSpecImpl for Address {
    open spec fn obeys_eq_spec() -> bool {
        true
    }

    open spec fn eq_spec(&self, other: &Self) -> bool {
        *self == *other
    }
}

/// The currency of the off-chain payment. Codes outside the fixed set are
/// kept as they are in `Other`.
#[derive(Clone, Copy, Debug, PartialEq, Eq, Structural)]
pub enum FiatCurrency {
    Usd,
    Eur,
    Ars,
    Cop,
    Gbp,
    Other(u32),
}

impl FiatCurrency {
    /// The number that stands for this currency.
    pub open spec fn code_spec(self) -> u32 {
        match self {
            FiatCurrency::Usd => 0,
            FiatCurrency::Eur => 1,
            FiatCurrency::Ars => 2,
            FiatCurrency::Cop => 3,
            FiatCurrency::Gbp => 4,
            FiatCurrency::Other(code) => code,
        }
    }

    /// The currency of a code: one of the fixed set for 0 to 4, the code
    /// itself under `Other` for every other number.
    pub fn from_code(code: u32) -> (r: Self)
        ensures
            r.code_spec() == code,
            r is Other <==> code >= 5,
    {
        match code {
            0 => Self::Usd,
            1 => Self::Eur,
            2 => Self::Ars,
            3 => Self::Cop,
            4 => Self::Gbp,
            _ => Self::Other(code),
        }
    }

    /// The number that stands for this currency.
    pub fn code(&self) -> (r: u32)
        ensures
            r == self.code_spec(),
    {
        match self {
            FiatCurrency::Usd => 0,
            FiatCurrency::Eur => 1,
            FiatCurrency::Ars => 2,
            FiatCurrency::Cop => 3,
            FiatCurrency::Gbp => 4,
            FiatCurrency::Other(code) => *code,
        }
    }
}

/// How the off-chain payment is made. Codes outside the fixed set are kept
/// as they are in `Other`.
#[derive(Clone, Copy, Debug, PartialEq, Eq, Structural)]
pub enum PaymentMethod {
    BankTransfer,
    MobileWallet,
    Cash,
    Other(u32),
}

impl PaymentMethod {
    /// The number that stands for this payment method.
    pub open spec fn code_spec(self) -> u32 {
        match self {
            PaymentMethod::BankTransfer => 0,
            PaymentMethod::MobileWallet => 1,
            PaymentMethod::Cash => 2,
            PaymentMethod::Other(code) => code,
        }
    }

    /// The payment method of a code: one of the fixed set for 0 to 2, the
    /// code itself under `Other` for every other number.
    pub fn from_code(code: u32) -> (r: Self)
        ensures
            r.code_spec() == code,
            r is Other <==> code >= 3,
    {
        match code {
            0 => Self::BankTransfer,
            1 => Self::MobileWallet,
            2 => Self::Cash,
            _ => Self::Other(code),
        }
    }

    /// The number that stands for this payment method.
    pub fn code(&self) -> (r: u32)
        ensures
            r == self.code_spec(),
    {
        match self {
            PaymentMethod::BankTransfer => 0,
            PaymentMethod::MobileWallet => 1,
            PaymentMethod::Cash => 2,
            PaymentMethod::Other(code) => *code,
        }
    }
}

/// Where an order stands in its life. `Created` is passed through at the
/// creation; `Completed`, `Refunded` and `Cancelled` are final.
#[derive(Clone, Copy, Debug, PartialEq, Eq, Structural)]
pub enum OrderStatus {
    Created,
    AwaitingFiller,
    AwaitingPayment,
    AwaitingConfirmation,
    Completed,
    Disputed,
    Refunded,
    Cancelled,
}

impl OrderStatus {
    /// A fill is in flight: a filler has committed and the fill is neither
    /// settled nor unwound yet.
    pub open spec fn fill_in_flight(self) -> bool {
        self is AwaitingPayment || self is AwaitingConfirmation || self is Disputed
    }
}

/// The configuration: who administers, arbitrates and pauses, the asset
/// in custody, the longest time an order may be open, the time a fill has
/// for its payment, and whether the system is halted.
#[derive(Clone, Copy, Debug, PartialEq, Eq)]
pub struct Config {
    pub admin: Address,
    pub dispute_resolver: Address,
    pub pauser: Address,
    pub token: Address,
    pub max_duration_secs: u64,
    pub filler_payment_timeout_secs: u64,
    pub paused: bool,
}

/// An order: an offer of `amount` of the asset against a payment made
/// off-chain. Where `from_crypto` holds, the creator holds the asset and
/// funds the escrow at the creation; where not, the filler does when
/// taking the order.
#[derive(Clone, Copy, Debug, PartialEq, Eq)]
pub struct Order {
    pub order_id: u64,
    pub creator: Address,
    pub filler: Option<Address>,
    pub token: Address,
    pub amount: i128,
    pub remaining_amount: i128,
    pub filled_amount: i128,
    pub active_fill_amount: Option<i128>,
    pub exchange_rate: i128,
    pub from_crypto: bool,
    pub fiat_currency: FiatCurrency,
    pub payment_method: PaymentMethod,
    pub status: OrderStatus,
    pub created_at: u64,
    pub deadline: u64,
    pub fiat_transfer_deadline: Option<u64>,
}

impl Order {
    /// What holds of an order whenever it is at rest between two operations.
    pub open spec fn wf(&self) -> bool {
        &&& 0 < self.amount
        &&& 0 < self.exchange_rate
        &&& 0 <= self.remaining_amount <= self.amount
        &&& self.filled_amount + self.remaining_amount == self.amount
        &&& self.created_at <= self.deadline
        &&& !(self.status is Created)
        &&& self.active_fill_amount is Some <==> self.status.fill_in_flight()
        &&& self.filler is Some <==> self.status.fill_in_flight()
        &&& self.fiat_transfer_deadline is Some <==> self.status.fill_in_flight()
        &&& self.active_fill_amount matches Some(fill) ==> 0 < fill <= self.remaining_amount
        &&& self.filler matches Some(filler) ==> filler != self.creator
        &&& self.status is AwaitingFiller ==> 0 < self.remaining_amount
        &&& self.status is Cancelled ==> 0 < self.remaining_amount
        &&& self.status is Completed ==> self.remaining_amount == 0
    }

    /// How much of the asset the custody account holds on behalf of this
    /// order: the unfilled amount where the creator funded the escrow, the
    /// filler's deposit while a fill is in flight where the filler did.
    pub open spec fn custody(&self) -> int {
        if self.status is Cancelled || self.status is Refunded || self.status is Created {
            0
        } else if self.from_crypto {
            self.remaining_amount as int
        } else {
            match self.active_fill_amount {
                Some(fill) => fill as int,
                None => 0,
            }
        }
    }
}

/// One movement of the asset into or out of custody.
#[derive(Clone, Copy, Debug, PartialEq, Eq)]
pub enum Transfer {
    /// From a principal into custody.
    Deposit { from: Address, amount: i128 },
    /// Out of custody to a principal.
    Release { to: Address, amount: i128 },
}

impl Transfer {
    /// The amount moved.
    pub open spec fn amount_spec(self) -> i128 {
        match self {
            Transfer::Deposit { amount, .. } => amount,
            Transfer::Release { amount, .. } => amount,
        }
    }

    /// By how much this movement changes what custody holds.
    pub open spec fn custody_change(self) -> int {
        match self {
            Transfer::Deposit { amount, .. } => amount as int,
            Transfer::Release { amount, .. } => -(amount as int),
        }
    }

    /// The amount moved.
    pub fn amount(&self) -> (r: i128)
        ensures
            r == self.amount_spec(),
    {
        match self {
            Transfer::Deposit { amount, .. } => *amount,
            Transfer::Release { amount, .. } => *amount,
        }
    }
}

/// The keys under which the durable state is kept.
#[derive(Clone, Copy, Debug, PartialEq, Eq, Structural)]
pub enum DataKey {
    Config,
    OrderCount,
    Order(u64),
}

} // verus!
