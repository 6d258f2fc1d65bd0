//! Chain synchronisation core of a Lightning node's bridge to a Bitcoin full node:
//! fork resolution between two chain tips, the per-tick decisions of the tip poller,
//! fee-rate buckets with a relay floor, and the set of transactions kept for rebroadcast.
pub mod fees;
pub mod fork;
pub mod poller;
pub mod broadcast;
