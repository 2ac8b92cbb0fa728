//! A custodial treasury for pooled assets.
//!
//! The treasury holds assets for an owner and lets a manager with a bounded
//! scope move them into and out of a few approved programs: a backstop, the
//! liquidity pool behind the backstop token, and a backstop bootstrapper.
//! Every operation is decided here from plain values; the host that runs the
//! treasury authenticates callers, performs the calls a decision names, and
//! keeps the state that the decision returns.
//!
//! The parts, leaf first:
//! - `address`, `errors`: identities and the ways an operation can fail;
//! - `roles`: the owner, the manager and its scope, and who may do what;
//! - `allowlist`: the ordered sets of approved contracts;
//! - `timelock`: the time before which nothing is released to the owner;
//! - `weight`: the share of a bootstrap's proceeds that falls to a weight;
//! - `invocation`: the calls that the treasury authorizes ahead of time;
//! - `plan`: what an operation decides, for the host to carry out;
//! - `storage`: the entries that a treasury keeps between calls;
//! - `contract`: the treasury, its initialization and what it reports;
//! - `administration`, `custody`, `backstop`, `liquidity`, `bootstrap`: its
//!   operations;
//! - `laws`: what holds across the operations.

pub mod errors;
pub mod address;
pub mod roles;
pub mod allowlist;
pub mod timelock;
pub mod weight;
pub mod invocation;
pub mod plan;
pub mod storage;
pub mod contract;
pub mod administration;
pub mod custody;
pub mod backstop;
pub mod liquidity;
pub mod bootstrap;
pub mod laws;
