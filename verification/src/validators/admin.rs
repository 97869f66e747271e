use vstd::prelude::*;
use crate::error::ContractError;
use crate::types::{Address, Config};

verus! {

/// Both timing bounds of a configuration must be positive.
pub fn validate_initialize_inputs(max_duration_secs: u64, filler_payment_timeout_secs: u64) -> (r:
    Result<(), ContractError>)
    ensures
        r == (if max_duration_secs > 0 && filler_payment_timeout_secs > 0 {
            Ok::<(), ContractError>(())
        } else {
            Err::<(), ContractError>(ContractError::InvalidTimeout)
        }),
{
    if max_duration_secs == 0 || filler_payment_timeout_secs == 0 {
        return Err(ContractError::InvalidTimeout);
    }
    Ok(())
}

/// Only the configured pauser passes.
pub fn ensure_pauser(config: &Config, caller: &Address) -> (r: Result<(), ContractError>)
    ensures
        r == (if *caller == config.pauser {
            Ok::<(), ContractError>(())
        } else {
            Err::<(), ContractError>(ContractError::Unauthorized)
        }),
{
    if *caller != config.pauser {
        return Err(ContractError::Unauthorized);
    }
    Ok(())
}

/// Only the configured arbiter passes.
pub fn ensure_dispute_resolver(config: &Config, caller: &Address) -> (r: Result<
    (),
    ContractError,
>)
    ensures
        r == (if *caller == config.dispute_resolver {
            Ok::<(), ContractError>(())
        } else {
            Err::<(), ContractError>(ContractError::Unauthorized)
        }),
{
    if *caller != config.dispute_resolver {
        return Err(ContractError::Unauthorized);
    }
    Ok(())
}

/// Nothing passes while the system is halted.
pub fn ensure_not_paused(config: &Config) -> (r: Result<(), ContractError>)
    ensures
        r == (if !config.paused {
            Ok::<(), ContractError>(())
        } else {
            Err::<(), ContractError>(ContractError::Paused)
        }),
{
    if config.paused {
        return Err(ContractError::Paused);
    }
    Ok(())
}

} // verus!
