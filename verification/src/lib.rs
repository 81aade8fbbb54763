//! Event filtering and processing decisions for an Aptos events indexer.
pub mod events;
pub mod storer;
pub mod starting_version;
pub mod processor;
pub mod price;
