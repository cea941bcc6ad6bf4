//! A durable repository of food allergy profiles kept in stable memory.

pub mod allocator;
pub mod codec;
pub mod laws;
pub mod memory;
pub mod message;
pub mod profile;
pub mod query;
pub mod records;
pub mod repository;
pub mod store;
