//! Byte-order (endianness) classification.
//!
//! A two-valued [`Endian`] type with pure operations to query the
//! platform's native byte order, compare orders, and invert an order.
//! It classifies byte order only; it does not read or write bytes.

pub mod endian;

pub use endian::Endian;
