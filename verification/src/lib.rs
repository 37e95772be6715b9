//! Verified core of a two-tier control plane for Cloud Hypervisor microVMs.
//!
//! The crate holds the logic of the node agent (VM lifecycle registry, tap
//! naming, image cache, readiness polling), of the controller (scheduling,
//! reconciliation, job steps) and of the guest init program, each stated in
//! contracts and proved. Process spawning, sockets and files live outside the
//! library and hand it plain values.

pub mod api;
pub mod client;
pub mod config;
pub mod console;
pub mod convert;
pub mod errors;
pub mod hosts;
pub mod ids;
pub mod image_store;
pub mod init;
pub mod jobs;
pub mod manager;
pub mod model;
pub mod monitor;
pub mod orchestrator;
pub mod paths;
pub mod poll;
pub mod status;
pub mod storage;
pub mod store;
pub mod tap;
pub mod text;
pub mod wire;
