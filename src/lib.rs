//! Threshold commit–reveal randomness beacon: worker protocol engine,
//! aggregator round orchestrator, enclave aggregation and the beacon ledger.

pub mod bytes;
pub mod clock;
pub mod crypto;
pub mod types;
pub mod error;
pub mod aggregation;
pub mod state_machine;
pub mod aggregator;
pub mod tee;
pub mod beacon;
pub mod bridge;
pub mod network;
pub mod worker;
