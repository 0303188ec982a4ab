//! The sensors that the application knows.

pub mod ne4;
pub mod ra_gas_ne4;
