//! Capability interface between sensor drivers and application code.
//!
//! Samples are fixed-point integers counting millionths of a quantity's
//! natural unit. Every capability is also provided by an exclusive borrow of
//! any type that provides it, forwarding each operation unchanged.
pub mod humidity;
pub mod sensor;
pub mod temperature;
pub mod threshold;
