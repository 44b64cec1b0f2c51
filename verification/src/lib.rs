//! Synthetic, referentially consistent web-server log datasets.
//!
//! The crate generates correlated columnar batches for a fixed family of
//! tables (users, pages, devices, web_logs, requests, responses, error_logs),
//! persists them through a columnar file codec, and converts them into a
//! row-oriented wire representation for bulk loading into a remote store.

pub mod batch;
pub mod codec;
pub mod dates;
pub mod error;
pub mod generator;
pub mod loader;
pub mod rng;
pub mod text;
