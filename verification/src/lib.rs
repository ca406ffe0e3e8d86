//! Bulk row loader for a SQL Server wire driver.
//!
//! The library models the values, rows and session discipline of a bulk
//! insert stream: rows of typed, nullable values are validated against a
//! column list and appended in order to a session that must be finalized
//! exactly once.  The wire work itself (TDS framing, authentication, type
//! encoding) belongs to the driver and is not done here.

pub mod config;
pub mod digits;
pub mod row;
pub mod schema;
pub mod session;
pub mod statement;
pub mod values;
