//! Verified core of an options market-data firehose client: message models,
//! OCC contract symbols, timestamps, the latest-quote tables and the
//! bounded write-behind buffers.

pub mod buffer;
pub mod calendar;
pub mod enums;
pub mod firehose;
pub mod latest;
pub mod stats;
pub mod laws;
pub mod text;
pub mod utils;
