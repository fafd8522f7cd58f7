//! Block storage over a NOR-flash partition, with a small key-value side
//! store for metadata.
//!
//! The library holds the logic of the storage layer: the geometry of the
//! block store, the bounds and alignment rules of its operations, a model of
//! NOR flash (writes only clear bits, erases set whole blocks to `0xFF`), the
//! metadata store, partition resolution and the lifecycle of the shared
//! storage instance.
pub mod errors;
pub mod geometry;
pub mod engine;
pub mod partition;
pub mod laws;
pub mod metadata;
pub mod mapping;
pub mod lifecycle;
