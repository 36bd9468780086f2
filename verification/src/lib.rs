//! Bucket administration for a preservation storage service built on Amazon S3.
//!
//! The modules hold the rules of the service: how buckets are named and paired,
//! what configuration a new bucket receives, how an existing bucket is compared
//! with that configuration, and how batch jobs, request files and user listings
//! are read. None of them performs input or output: they take what the storage
//! service answered as plain values and say what to send next.
//!
//! The modules named after guarantees state what a caller can rely on: for each operation,
//! what its result has to do with what it was given.
pub mod batch;
pub mod bucket;
pub mod bucket_config;
pub mod bucket_creator;
pub mod bucket_guarantees;
pub mod bucket_listing;
pub mod bucket_reconciliator;
pub mod bucket_request;
pub mod configuration_guarantees;
pub mod conformance;
pub mod constants;
pub mod errors;
pub mod expiration;
pub mod file;
pub mod inventory_stats;
pub mod pair_creation;
pub mod pairing;
pub mod reconcile_report;
pub mod reconciliation;
pub mod reconciliation_command;
pub mod report_guarantees;
pub mod sorted_map;
pub mod sorting;
pub mod stack;
pub mod storage_class;
pub mod tags;
pub mod text;
pub mod user_buckets;
pub mod users;
