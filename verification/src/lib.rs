pub mod backend;
pub mod bucket;
pub mod error;
pub mod keystore;
pub mod kvstore;
pub mod laws;
pub mod memory;
