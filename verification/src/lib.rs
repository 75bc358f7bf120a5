//! Verified core of a manufacturing-execution (MES) back end: master
//! recipes drawn as workflow diagrams, process orders executed step by step
//! against them, and the master data (materials, locations, batches and
//! handling units) they refer to.
//!
//! The HTTP server and the database live outside this crate; what they ask
//! of it, and what it answers, is stated here in contracts.

pub mod error;
pub mod text;
pub mod ident;
pub mod time;
pub mod paging;
pub mod order;
pub mod workflow;
pub mod defaults;
pub mod material;
pub mod location;
pub mod batch;
pub mod handling_unit;
