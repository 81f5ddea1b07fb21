//! A bridge that keeps content-filtering engine instances behind integer
//! handles, for a host runtime that cannot hold native objects itself.

pub mod engine;
pub mod error;
pub mod pool;
pub mod rules;
