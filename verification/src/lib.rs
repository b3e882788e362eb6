//! Tracking of lending offers on an Elements chain.
//!
//! The crate decides what an indexer does with each transaction: which watched
//! outputs it spends, which records it changes and which outputs are watched
//! from then on. It performs no I/O; the decisions are handed out as steps.

pub mod cache;
pub mod chain;
pub mod factory_creation;
pub mod factory_outputs;
pub mod models;
pub mod offer_carrier_laws;
pub mod offer_laws;
pub mod offer_participants;
pub mod offer_plan_laws;
pub mod offer_transaction_laws;
pub mod offers;
pub mod outpoint_map;
pub mod participant_laws;
pub mod participant_plan_laws;
pub mod registry;
pub mod tx_out_scan;
