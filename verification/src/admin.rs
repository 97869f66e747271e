use vstd::prelude::*;
use crate::context::{Context, State};
use crate::error::ContractError;
use crate::types::{Address, Config, DataKey};
use crate::validators::admin::{ensure_pauser, validate_initialize_inputs};

verus! {

impl State {
    /// What `initialize` answers: a configuration can be set once, and
    /// only with positive timing bounds; it starts out not halted.
    pub open spec fn initialize_result(
        self,
        admin: Address,
        dispute_resolver: Address,
        pauser: Address,
        token: Address,
        max_duration_secs: u64,
        filler_payment_timeout_secs: u64,
    ) -> Result<Config, ContractError> {
        if self.config is Some {
            Err(ContractError::AlreadyInitialized)
        } else if max_duration_secs == 0 || filler_payment_timeout_secs == 0 {
            Err(ContractError::InvalidTimeout)
        } else {
            Ok(
                Config {
                    admin,
                    dispute_resolver,
                    pauser,
                    token,
                    max_duration_secs,
                    filler_payment_timeout_secs,
                    paused: false,
                },
            )
        }
    }

    /// The state that `initialize` leaves: with the configuration and a
    /// counter of zero where it succeeds, as it was where it does not.
    pub open spec fn after_initialize(
        self,
        admin: Address,
        dispute_resolver: Address,
        pauser: Address,
        token: Address,
        max_duration_secs: u64,
        filler_payment_timeout_secs: u64,
    ) -> State {
        match self.initialize_result(
            admin,
            dispute_resolver,
            pauser,
            token,
            max_duration_secs,
            filler_payment_timeout_secs,
        ) {
            Ok(config) => self.with_config(config).with_order_count(0),
            Err(_) => self,
        }
    }

    /// What `pause` (with `halt` true) and `unpause` (with `halt` false)
    /// answer: only the pauser may move the flag, and only to the side on
    /// which it is not yet.
    pub open spec fn set_paused_result(self, caller: Address, halt: bool) -> Result<
        (),
        ContractError,
    > {
        match self.config {
            None => Err(ContractError::ConfigNotInitialized),
            Some(config) => if caller != config.pauser {
                Err(ContractError::Unauthorized)
            } else if config.paused == halt {
                Err(
                    if halt {
                        ContractError::AlreadyPaused
                    } else {
                        ContractError::AlreadyUnpaused
                    },
                )
            } else {
                Ok(())
            },
        }
    }

    /// The state that `pause` or `unpause` leaves: the flag moved where the
    /// call succeeds, everything as it was where it does not.
    pub open spec fn after_set_paused(self, caller: Address, halt: bool) -> State {
        match self.set_paused_result(caller, halt) {
            Ok(_) => self.with_config(Config { paused: halt, ..self.config->Some_0 }),
            Err(_) => self,
        }
    }

    /// What `get_config` answers.
    pub open spec fn config_result(self) -> Result<Config, ContractError> {
        match self.config {
            Some(config) => Ok(config),
            None => Err(ContractError::ConfigNotInitialized),
        }
    }

    /// What `get_order_count` answers.
    pub open spec fn order_count_result(self) -> Result<u64, ContractError> {
        if self.config is Some {
            Ok(self.next_order_id())
        } else {
            Err(ContractError::ConfigNotInitialized)
        }
    }
}

/// The access and pause gate: it owns the configuration.
pub struct AdminManager;

impl AdminManager {
    /// Sets the configuration, once, and resets the order counter to zero.
    pub fn initialize(
        e: &mut Context,
        admin: Address,
        dispute_resolver: Address,
        pauser: Address,
        token: Address,
        max_duration_secs: u64,
        filler_payment_timeout_secs: u64,
    ) -> (res: Result<Config, ContractError>)
        ensures
            res == old(e)@.initialize_result(
                admin,
                dispute_resolver,
                pauser,
                token,
                max_duration_secs,
                filler_payment_timeout_secs,
            ),
            final(e)@ == old(e)@.after_initialize(
                admin,
                dispute_resolver,
                pauser,
                token,
                max_duration_secs,
                filler_payment_timeout_secs,
            ),
            res is Err ==> *final(e) == *old(e),
    {
        if e.storage.has(&DataKey::Config) {
            return Err(ContractError::AlreadyInitialized);
        }
        validate_initialize_inputs(max_duration_secs, filler_payment_timeout_secs)?;

        let config = Config {
            admin,
            dispute_resolver,
            pauser,
            token,
            max_duration_secs,
            filler_payment_timeout_secs,
            paused: false,
        };
        e.storage.config = Some(config);
        e.storage.order_count = Some(0);
        Ok(config)
    }

    /// Halts the system.
    pub fn pause(e: &mut Context, caller: Address) -> (res: Result<(), ContractError>)
        ensures
            res == old(e)@.set_paused_result(caller, true),
            final(e)@ == old(e)@.after_set_paused(caller, true),
            res is Err ==> *final(e) == *old(e),
    {
        let mut config = Self::get_config(e)?;
        ensure_pauser(&config, &caller)?;
        if config.paused {
            return Err(ContractError::AlreadyPaused);
        }
        config.paused = true;
        e.storage.config = Some(config);
        Ok(())
    }

    /// Lets the system run again.
    pub fn unpause(e: &mut Context, caller: Address) -> (res: Result<(), ContractError>)
        ensures
            res == old(e)@.set_paused_result(caller, false),
            final(e)@ == old(e)@.after_set_paused(caller, false),
            res is Err ==> *final(e) == *old(e),
    {
        let mut config = Self::get_config(e)?;
        ensure_pauser(&config, &caller)?;
        if !config.paused {
            return Err(ContractError::AlreadyUnpaused);
        }
        config.paused = false;
        e.storage.config = Some(config);
        Ok(())
    }

    /// The configuration, once there is one.
    pub fn get_config(e: &Context) -> (res: Result<Config, ContractError>)
        ensures
            res == e@.config_result(),
    {
        match e.storage.config {
            Some(config) => Ok(config),
            None => Err(ContractError::ConfigNotInitialized),
        }
    }

    /// The number of orders created so far, once there is a configuration.
    pub fn get_order_count(e: &Context) -> (res: Result<u64, ContractError>)
        ensures
            res == e@.order_count_result(),
    {
        if !e.storage.has(&DataKey::Config) {
            return Err(ContractError::ConfigNotInitialized);
        }
        Ok(e.storage.order_count.unwrap_or(0u64))
    }
}

} // verus!
