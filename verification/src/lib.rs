//! Conversion of tabular query results into JSON-compatible values.
//!
//! A row's columns carry raw encoded values and a coarse storage class;
//! the declared type label of each column decides how the raw value is
//! decoded into a JSON-compatible typed value.

pub mod decoder;
pub mod foreign;
pub mod laws;
pub mod resolver;
pub mod serializer;
pub mod types;

use vstd::prelude::*;

verus! {

/// A column's declared type label resolves to exactly one decode strategy.
#[derive(Debug, Clone, Copy, PartialEq, Eq, Structural)]
pub enum DecodeStrategy {
    Text,
    Int32,
    Int64,
    Double,
    Boolean,
    UuidText,
    TimestampText,
    StructuredData,
    OpaqueBinary,
}

} // verus!
