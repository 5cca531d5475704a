//! Turns spreadsheet rows into ticket records for a remote ticketing API.
//!
//! The library covers the decision logic of the importer: resolving
//! alphabetic column labels to indices, coercing cell values to typed
//! custom-field values (including spreadsheet-serial date conversion
//! through a named time zone), assembling one record per row with
//! all-or-nothing failure isolation, and partitioning the built records
//! into bounded submission batches.

pub mod text;
pub mod columns;
pub mod errors;
pub mod cells;
pub mod fields;
pub mod zones;
pub mod config;
pub mod enums;
pub mod ticket;
pub mod batch;
