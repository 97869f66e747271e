use vstd::prelude::*;

verus! {

/// Why an operation was rejected.
#[derive(Clone, Copy, Debug, PartialEq, Eq, Structural)]
pub enum ContractError {
    InvalidAmount,
    InvalidExchangeRate,
    InvalidDuration,
    OrderNotFound,
    InvalidOrderStatus,
    Unauthorized,
    OrderExpired,
    FiatTransferHasNotExpired,
    AlreadyInitialized,
    ConfigNotInitialized,
    Paused,
    AlreadyPaused,
    AlreadyUnpaused,
    MissingFiller,
    Overflow,
    Underflow,
    DivisionError,
    InvalidTimeout,
    InvalidAddress,
    InvalidFillAmount,
}

impl ContractError {
    /// The number under which the error is reported to callers.
    pub open spec fn code_spec(self) -> u32 {
        match self {
            ContractError::InvalidAmount => 1,
            ContractError::InvalidExchangeRate => 2,
            ContractError::InvalidDuration => 3,
            ContractError::OrderNotFound => 4,
            ContractError::InvalidOrderStatus => 5,
            ContractError::Unauthorized => 6,
            ContractError::OrderExpired => 7,
            ContractError::FiatTransferHasNotExpired => 8,
            ContractError::AlreadyInitialized => 9,
            ContractError::ConfigNotInitialized => 10,
            ContractError::Paused => 11,
            ContractError::AlreadyPaused => 12,
            ContractError::AlreadyUnpaused => 13,
            ContractError::MissingFiller => 14,
            ContractError::Overflow => 15,
            ContractError::Underflow => 16,
            ContractError::DivisionError => 17,
            ContractError::InvalidTimeout => 18,
            ContractError::InvalidAddress => 19,
            ContractError::InvalidFillAmount => 20,
        }
    }

    /// The text that describes the error.
    pub open spec fn message_spec(self) -> Seq<char> {
        match self {
            ContractError::InvalidAmount => "Amount must be greater than zero"@,
            ContractError::InvalidExchangeRate => "Exchange rate must be greater than zero"@,
            ContractError::InvalidDuration => "Invalid order duration"@,
            ContractError::OrderNotFound => "Order not found"@,
            ContractError::InvalidOrderStatus => "Invalid order status"@,
            ContractError::Unauthorized => "Unauthorized operation"@,
            ContractError::OrderExpired => "Order has expired"@,
            ContractError::FiatTransferHasNotExpired => "Fiat transfer deadline has not expired"@,
            ContractError::AlreadyInitialized => "Contract is already initialized"@,
            ContractError::ConfigNotInitialized => "Contract is not initialized"@,
            ContractError::Paused => "Contract is paused"@,
            ContractError::AlreadyPaused => "Contract is already paused"@,
            ContractError::AlreadyUnpaused => "Contract is already unpaused"@,
            ContractError::MissingFiller => "Order filler is missing"@,
            ContractError::Overflow => "Overflow"@,
            ContractError::Underflow => "Underflow"@,
            ContractError::DivisionError => "Division error"@,
            ContractError::InvalidTimeout => "Invalid timeout configuration"@,
            ContractError::InvalidAddress => "Invalid address"@,
            ContractError::InvalidFillAmount => "Fill amount exceeds the remaining amount"@,
        }
    }

    pub fn code(&self) -> (r: u32)
        ensures
            r == self.code_spec(),
            1 <= r <= 20,
    {
        match self {
            ContractError::InvalidAmount => 1,
            ContractError::InvalidExchangeRate => 2,
            ContractError::InvalidDuration => 3,
            ContractError::OrderNotFound => 4,
            ContractError::InvalidOrderStatus => 5,
            ContractError::Unauthorized => 6,
            ContractError::OrderExpired => 7,
            ContractError::FiatTransferHasNotExpired => 8,
            ContractError::AlreadyInitialized => 9,
            ContractError::ConfigNotInitialized => 10,
            ContractError::Paused => 11,
            ContractError::AlreadyPaused => 12,
            ContractError::AlreadyUnpaused => 13,
            ContractError::MissingFiller => 14,
            ContractError::Overflow => 15,
            ContractError::Underflow => 16,
            ContractError::DivisionError => 17,
            ContractError::InvalidTimeout => 18,
            ContractError::InvalidAddress => 19,
            ContractError::InvalidFillAmount => 20,
        }
    }

    pub fn message(&self) -> (r: &'static str)
        ensures
            r@ == self.message_spec(),
    {
        match self {
            ContractError::InvalidAmount => "Amount must be greater than zero",
            ContractError::InvalidExchangeRate => "Exchange rate must be greater than zero",
            ContractError::InvalidDuration => "Invalid order duration",
            ContractError::OrderNotFound => "Order not found",
            ContractError::InvalidOrderStatus => "Invalid order status",
            ContractError::Unauthorized => "Unauthorized operation",
            ContractError::OrderExpired => "Order has expired",
            ContractError::FiatTransferHasNotExpired => "Fiat transfer deadline has not expired",
            ContractError::AlreadyInitialized => "Contract is already initialized",
            ContractError::ConfigNotInitialized => "Contract is not initialized",
            ContractError::Paused => "Contract is paused",
            ContractError::AlreadyPaused => "Contract is already paused",
            ContractError::AlreadyUnpaused => "Contract is already unpaused",
            ContractError::MissingFiller => "Order filler is missing",
            ContractError::Overflow => "Overflow",
            ContractError::Underflow => "Underflow",
            ContractError::DivisionError => "Division error",
            ContractError::InvalidTimeout => "Invalid timeout configuration",
            ContractError::InvalidAddress => "Invalid address",
            ContractError::InvalidFillAmount => "Fill amount exceeds the remaining amount",
        }
    }
}

} // verus!
