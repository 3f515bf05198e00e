//! Operations on domestic stocks.

pub mod quote;
