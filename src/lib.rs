//! Contract logic for an upgradeable, attestation-driven agent platform:
//! an upgrade registry and proxy, replay-safe attestations, rate limiting,
//! lifecycle state machines and role/ACL authorization, together with the
//! business contracts built on them.

pub mod address;
pub mod bytes;
pub mod crypto;
pub mod error;
pub mod table;

pub mod authorization;
pub mod rate_limit;
pub mod state_machine;

pub mod example_impl;
pub mod example_impl_v2;
pub mod host;
pub mod upgrade_proxy;
pub mod upgrade_registry;

pub mod evolution;
pub mod oracle_bridge;
pub mod risk_eval;

pub mod actions;
pub mod credit_score;
pub mod credit_score_nft;
pub mod fraud_detect;
pub mod marketplace;
pub mod token;
