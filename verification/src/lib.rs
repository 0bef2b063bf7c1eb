//! Incremental data pipeline for a plotting front end: raw samples are
//! stored in containers, every edit of a container is described by a
//! `MutateInfo`, and transforms replay those descriptions to bring derived
//! buffers up to date with their source.

pub mod chart;
pub mod data_transform;
pub mod graph;
pub mod notify_unit;
pub mod single_consumable;
pub mod test_fake_blck;
