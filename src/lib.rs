//! Point-in-time physical-memory snapshots, cache release and an allocator
//! stress pattern, with the decisions of each proved against its contract.
pub mod boundary;
pub mod cache;
pub mod fragment;
pub mod report;
pub mod stats;
pub mod timestamp;
