//! A fee reconciliation library for a Lightning Network node: a pure decision
//! function from a channel's liquidity ratio and a tier table to a target fee
//! policy, and a sweep planner that evaluates every open channel
//! independently and asks for an update exactly when the advertised fee
//! fields differ from the target, isolating every per-channel failure.

pub mod config;
pub mod outpoint;
pub mod policy;
pub mod sweep;
