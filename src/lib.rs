//! A MIB-II monitor's core: the typed leaf values and how they are decoded from a subtree walk,
//! the schema of the MIB-II tree, the resolver from identifiers to leaves and table rows, and
//! the snapshot log replayed into time series.
//!
//! - `value`: leaf values, their encodings, and the wire values they come from
//! - `decode`: turning the results of a subtree walk into a leaf's values
//! - `oid`: identifier comparison, dotted text, request identifiers
//! - `schema`: the groups and leaves of the tree, as declared
//! - `resolve`: from an identifier to the leaf or row it addresses
//! - `walk`: taking in the outcomes of the subtree requests
//! - `store`: log records and replay into series
//! - `plot`: plotted series
//! - `poll`: when the poll task switches targets
//! - `laws`: what holds of the schema and the resolver

#![allow(non_snake_case, non_camel_case_types)]

pub mod decode;
mod group_lemmas;
pub mod laws;
pub mod oid;
pub mod plot;
pub mod poll;
pub mod resolve;
pub mod schema;
pub mod store;
pub mod value;
pub mod walk;
