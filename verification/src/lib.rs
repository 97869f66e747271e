//! A peer-to-peer escrow: a custodial asset is exchanged against a payment
//! made off-chain, with an arbiter for disputes.
//!
//! The library is the order lifecycle as a verified state machine. An
//! operation works on a [`context::Context`]: it reads the time and the
//! durable state from it, and leaves in it the new state, the asset
//! movements it asks for and its notification. Moving the asset,
//! authenticating callers and persisting the state are the caller's part.
//!
//! - [`types`], [`error`], [`events`]: the data.
//! - [`validators`]: the preconditions, one function each.
//! - [`lifecycle`]: what each step does to one order.
//! - [`admin`], [`order`], [`dispute`]: the operations on the context.
//! - [`contract`]: the operations as callers see them.
//! - [`machine`]: the operations as values, and histories of them.
//! - [`laws`]: what holds of every order, state and history.

pub mod admin;
pub mod context;
pub mod contract;
pub mod dispute;
pub mod error;
pub mod events;
pub mod laws;
pub mod lifecycle;
pub mod machine;
pub mod order;
pub mod types;
pub mod validators;
