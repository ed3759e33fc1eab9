//! NVMe-oF target: options, and the decisions taken around creating targets,
//! transports and subsystems with SPDK's NVMf library.

pub mod opts;
pub mod subsystem;
pub mod target;
pub mod transport;

pub use opts::{NvmfNsOpts, NvmfSubsystemOpts, NvmfTargetOpts, NvmfTransportOpts};
