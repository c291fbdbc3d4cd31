//! What is decided around the content store and the chain.

pub mod chain;
pub mod contract;
pub mod error;
pub mod hexcode;
pub mod payload;
pub mod scan;
pub mod signing;
