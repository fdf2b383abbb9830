//! Round-based Byzantine-fault-tolerant agreement for a fixed operator committee.

pub mod processor;
pub mod qbft;
pub mod qbft_messages;
pub mod qbft_types;
