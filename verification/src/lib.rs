//! Key-value tables over several concurrent map backends, each exposing the
//! four benchmark operations (lookup, insert, remove, update) with contracts
//! stated over one abstract model.

pub mod model;
pub mod step;
mod hasher;
pub mod btree_table;
pub mod dashmap_backend;
pub mod dashmap_table;
pub mod async_dashmap;
pub mod flurry_table;
pub mod scc_table;
