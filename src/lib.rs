//! A verified facade over a URG/Hokuyo laser range-finder driver.
//!
//! The driver itself (connection handling, wire protocol, scan decoding) is an
//! outside collaborator. This library states and proves what the facade does
//! with the driver's answers: how raw byte fields become validated text, how
//! failures are sorted into connection, driver and text-decode errors, how
//! request arguments are handed on unchanged, and how a multi-scan cursor
//! moves forward and ends.
pub mod error;
pub mod text;
pub mod records;
pub mod handle;
pub mod cursor;
