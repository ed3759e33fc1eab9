//! Verified core of the spdk-io bindings.
//!
//! SPDK itself is reached through C calls that live outside this crate; what
//! stands here is the logic around those calls: the error model, transport
//! identifiers, option conversion, result decoding and the small state
//! machines that drive polling, core iteration and thread-library setup.

pub mod app;
pub mod bdev;
pub mod cstr;
pub mod dma;
pub mod error;
pub mod event;
pub mod nvme;
pub mod nulchar;
pub mod nvmf;
pub mod poller;
pub mod text;
pub mod thread;

pub use app::{LogLevel, SpdkApp, SpdkAppBuilder};
pub use dma::DmaBuf;
pub use error::Error;
pub use event::{CoreIterator, Cores};
pub use nvme::{NvmeCtrlrOpts, NvmeQpairOpts, TransportId};
pub use nvmf::{NvmfNsOpts, NvmfSubsystemOpts, NvmfTargetOpts, NvmfTransportOpts};
