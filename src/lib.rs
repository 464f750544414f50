//! Persistence core of a database benchmark: one stream of metric records is
//! written to several storage engines. The two embedded ordered key-value
//! engines keep an explicit, persisted index of every key they were given, so
//! that the keyspace can be enumerated without a range scan.

pub mod error;
pub mod key_index;
pub mod leveldb;
pub mod rocksdb;
pub mod harness;
pub mod metrics;
pub mod fields;
