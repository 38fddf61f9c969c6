//! Gas costs of creating, sending and executing receipts and actions.
//!
//! Abbreviation used throughout: *sir* means "sender is receiver". A receipt that an
//! account directs to itself never leaves its shard, which makes it cheaper to send than
//! one that may cross shards. When the sender is not the receiver, the receipt may or may
//! not cross a shard boundary.

pub mod config;
pub mod fee;
pub mod rational;

pub use config::{
    AccessKeyCreationConfig, ActionCreationConfig, DataReceiptCreationConfig, RuntimeFeesConfig,
    StorageUsageConfig,
};
pub use fee::{Fee, Gas};
pub use rational::Rational;
