//! Keeps DNS records at a hosted provider in step with the machine's public
//! addresses: record discovery across search rules, change detection, and
//! the bookkeeping of targeted updates.
pub mod bounded;
pub mod config;
pub mod records;
pub mod resolver;
pub mod patcher;
pub mod reconcile;
pub mod lister;
