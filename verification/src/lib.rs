//! Materialization of a named asset tree from a content-addressed object
//! store: a manifest maps logical paths to content hashes, and every path the
//! selection pattern matches is reconstructed under an output root, by copy
//! or by link, from the blob its hash names. Each entry succeeds or fails on
//! its own; only a manifest or configuration that cannot be used at all
//! aborts a run.

pub mod json_tree;
pub mod manifest;
pub mod materialize;
pub mod params;
pub mod resolve;
pub mod selector;
