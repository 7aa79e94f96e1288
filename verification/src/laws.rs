//! What the operations are for: what their results must satisfy, stated without the definitions
//! that the operations themselves are specified by.
pub mod buckets;
pub mod errors;
pub mod ledgers;
pub mod operations;
pub mod staging;
pub mod stores;
pub mod texts;
pub mod transfers;
pub mod urls;
pub mod views;
