//! Decision rules of a thesis-driven trading assistant, with their contracts.

pub mod allocator;
pub mod attention;
pub mod brain;
pub mod charts;
pub mod chat;
pub mod consensus;
pub mod decimal;
pub mod decision;
pub mod discovery;
pub mod execution;
pub mod fingerprint;
pub mod goalpost;
pub mod market_readiness;
pub mod order;
pub mod policy;
pub mod readiness;
pub mod session;
pub mod simulator;
pub mod sources;
pub mod strategy;
pub mod text;
