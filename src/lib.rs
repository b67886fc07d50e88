//! A bulk-load benchmark driver for embedded key-value stores.
//!
//! The library decides what a load run does next: which pair to generate, when
//! a batch or transaction is submitted, when progress is reported and when the
//! store is flushed. A host program opens the store, carries out each action and
//! reports back whether it succeeded.
pub mod config;
pub mod driver;
pub mod reporter;
pub mod workload;
