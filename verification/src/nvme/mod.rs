//! NVMe driver API: transport identifiers, controller and queue-pair options,
//! and the decisions taken around SPDK's NVMe driver calls.

pub mod controller;
pub mod opts;
pub mod transport;

pub use opts::{NvmeCtrlrOpts, NvmeQpairOpts};
pub use transport::TransportId;
